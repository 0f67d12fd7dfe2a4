use vstd::prelude::*;

verus! {

/// The type of a value at run time, as error messages name it.
#[derive(Debug, Clone, Copy, PartialEq, Eq, PartialOrd, Ord, Structural)]
pub enum AspenType {
    Int,
    Float,
    Number,
    Bool,
    String,
    Array,
    Object,
    Range,
    Func,
    Nil,
}

impl AspenType {
    /// The name of the type as it is shown to the user.
    pub open spec fn name_text(self) -> Seq<char> {
        match self {
            AspenType::Int => "Int"@,
            AspenType::Float => "Float"@,
            AspenType::Number => "Number"@,
            AspenType::Bool => "Bool"@,
            AspenType::String => "String"@,
            AspenType::Array => "Array"@,
            AspenType::Object => "Object"@,
            AspenType::Range => "Range"@,
            AspenType::Func => "Func"@,
            AspenType::Nil => "Nil"@,
        }
    }

    /// The name of the type as it is shown to the user.
    pub fn name(&self) -> (r: &'static str)
        ensures
            r@ == self.name_text(),
    {
        match self {
            AspenType::Int => "Int",
            AspenType::Float => "Float",
            AspenType::Number => "Number",
            AspenType::Bool => "Bool",
            AspenType::String => "String",
            AspenType::Array => "Array",
            AspenType::Object => "Object",
            AspenType::Range => "Range",
            AspenType::Func => "Func",
            AspenType::Nil => "Nil",
        }
    }
}

} // verus!
