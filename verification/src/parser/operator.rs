use vstd::prelude::*;

verus! {

/// An assignment operator: plain `=` or one that also computes.
#[derive(Debug, Clone, Copy, PartialEq, Eq, PartialOrd, Structural)]
pub enum AssignOperator {
    Plus,
    Sub,
    Times,
    Divide,
    Modulo,
    Equal,
}

/// An operator between two operands.
#[derive(Debug, Clone, Copy, PartialEq, Eq, PartialOrd, Structural)]
pub enum BinaryOperator {
    Plus,
    Sub,
    Times,
    Exponent,
    Divide,
    Modulo,
    Equal,
    NotEqual,
    GreaterThan,
    GreaterThanOrEqual,
    LessThan,
    LessThanOrEqual,
    And,
    Or,
}

impl AssignOperator {
    /// The operator as it is written in source text.
    pub open spec fn symbol_text(self) -> Seq<char> {
        match self {
            AssignOperator::Plus => "+="@,
            AssignOperator::Sub => "-="@,
            AssignOperator::Times => "*="@,
            AssignOperator::Divide => "/="@,
            AssignOperator::Modulo => "%="@,
            AssignOperator::Equal => "="@,
        }
    }

    /// The operator as it is written in source text.
    pub fn symbol(&self) -> (r: &'static str)
        ensures
            r@ == self.symbol_text(),
    {
        match self {
            AssignOperator::Plus => "+=",
            AssignOperator::Sub => "-=",
            AssignOperator::Times => "*=",
            AssignOperator::Divide => "/=",
            AssignOperator::Modulo => "%=",
            AssignOperator::Equal => "=",
        }
    }
}

impl BinaryOperator {
    /// How tightly the operator binds: a higher rank binds tighter.
    pub open spec fn precedence(self) -> u8 {
        match self {
            BinaryOperator::Exponent => 4,
            BinaryOperator::Times | BinaryOperator::Divide | BinaryOperator::Modulo => 3,
            BinaryOperator::Plus | BinaryOperator::Sub => 2,
            BinaryOperator::Equal
            | BinaryOperator::NotEqual
            | BinaryOperator::GreaterThan
            | BinaryOperator::GreaterThanOrEqual
            | BinaryOperator::LessThan
            | BinaryOperator::LessThanOrEqual => 1,
            BinaryOperator::And | BinaryOperator::Or => 0,
        }
    }

    /// The verb that names the operation in a diagnostic.
    pub open spec fn verb_text(self) -> Seq<char> {
        match self {
            BinaryOperator::Plus => "add"@,
            BinaryOperator::Sub => "subtract"@,
            BinaryOperator::Times => "multiply"@,
            BinaryOperator::Exponent => "raise"@,
            BinaryOperator::Divide => "divide"@,
            BinaryOperator::Modulo => "take the modulo of"@,
            BinaryOperator::Equal => "check for equality of"@,
            BinaryOperator::NotEqual => "check for inequality of"@,
            BinaryOperator::GreaterThan => "check if"@,
            BinaryOperator::GreaterThanOrEqual => "check if"@,
            BinaryOperator::LessThan => "check if"@,
            BinaryOperator::LessThanOrEqual => "check if"@,
            BinaryOperator::And => "use 'and' operator (&&)"@,
            BinaryOperator::Or => "use 'or' operator (||)"@,
        }
    }

    /// The words that join the two operands in a diagnostic.
    pub open spec fn proposition_text(self) -> Seq<char> {
        match self {
            BinaryOperator::Plus => "to"@,
            BinaryOperator::Sub => "to"@,
            BinaryOperator::Times => "with"@,
            BinaryOperator::Divide => "with"@,
            BinaryOperator::Exponent => "to the power of"@,
            BinaryOperator::Modulo => "by"@,
            BinaryOperator::Equal => "and"@,
            BinaryOperator::NotEqual => "and"@,
            BinaryOperator::GreaterThan => "is greater than"@,
            BinaryOperator::GreaterThanOrEqual => "is greater than or equal to"@,
            BinaryOperator::LessThan => "is less than"@,
            BinaryOperator::LessThanOrEqual => "is less than or equal to"@,
            BinaryOperator::And => "with"@,
            BinaryOperator::Or => "with"@,
        }
    }

    /// The operator as diagnostics print it.
    pub open spec fn symbol_text(self) -> Seq<char> {
        match self {
            BinaryOperator::Plus => "+"@,
            BinaryOperator::Sub => "-"@,
            BinaryOperator::Times => "*"@,
            BinaryOperator::Exponent => "^"@,
            BinaryOperator::Divide => "/"@,
            BinaryOperator::Modulo => "%"@,
            BinaryOperator::Equal => "=="@,
            BinaryOperator::NotEqual => "!="@,
            BinaryOperator::GreaterThan => ">"@,
            BinaryOperator::GreaterThanOrEqual => ">="@,
            BinaryOperator::LessThan => "<"@,
            BinaryOperator::LessThanOrEqual => "<="@,
            BinaryOperator::And => "&&"@,
            BinaryOperator::Or => "||"@,
        }
    }

    /// How tightly the operator binds: a higher rank binds tighter.
    pub fn get_precedence(&self) -> (r: u8)
        ensures
            r == self.precedence(),
            r <= 4,
    {
        match self {
            BinaryOperator::Exponent => 4,
            BinaryOperator::Times | BinaryOperator::Divide | BinaryOperator::Modulo => 3,
            BinaryOperator::Plus | BinaryOperator::Sub => 2,
            BinaryOperator::Equal
            | BinaryOperator::NotEqual
            | BinaryOperator::GreaterThan
            | BinaryOperator::GreaterThanOrEqual
            | BinaryOperator::LessThan
            | BinaryOperator::LessThanOrEqual => 1,
            BinaryOperator::And | BinaryOperator::Or => 0,
        }
    }

    /// The verb that names the operation in a diagnostic.
    pub fn get_verb(&self) -> (r: &'static str)
        ensures
            r@ == self.verb_text(),
    {
        match self {
            BinaryOperator::Plus => "add",
            BinaryOperator::Sub => "subtract",
            BinaryOperator::Times => "multiply",
            BinaryOperator::Exponent => "raise",
            BinaryOperator::Divide => "divide",
            BinaryOperator::Modulo => "take the modulo of",
            BinaryOperator::Equal => "check for equality of",
            BinaryOperator::NotEqual => "check for inequality of",
            BinaryOperator::GreaterThan => "check if",
            BinaryOperator::GreaterThanOrEqual => "check if",
            BinaryOperator::LessThan => "check if",
            BinaryOperator::LessThanOrEqual => "check if",
            BinaryOperator::And => "use 'and' operator (&&)",
            BinaryOperator::Or => "use 'or' operator (||)",
        }
    }

    /// The words that join the two operands in a diagnostic.
    pub fn get_proposition(&self) -> (r: &'static str)
        ensures
            r@ == self.proposition_text(),
    {
        match self {
            BinaryOperator::Plus => "to",
            BinaryOperator::Sub => "to",
            BinaryOperator::Times => "with",
            BinaryOperator::Divide => "with",
            BinaryOperator::Exponent => "to the power of",
            BinaryOperator::Modulo => "by",
            BinaryOperator::Equal => "and",
            BinaryOperator::NotEqual => "and",
            BinaryOperator::GreaterThan => "is greater than",
            BinaryOperator::GreaterThanOrEqual => "is greater than or equal to",
            BinaryOperator::LessThan => "is less than",
            BinaryOperator::LessThanOrEqual => "is less than or equal to",
            BinaryOperator::And => "with",
            BinaryOperator::Or => "with",
        }
    }

    /// The operator as diagnostics print it.
    pub fn symbol(&self) -> (r: &'static str)
        ensures
            r@ == self.symbol_text(),
    {
        match self {
            BinaryOperator::Plus => "+",
            BinaryOperator::Sub => "-",
            BinaryOperator::Times => "*",
            BinaryOperator::Exponent => "^",
            BinaryOperator::Divide => "/",
            BinaryOperator::Modulo => "%",
            BinaryOperator::Equal => "==",
            BinaryOperator::NotEqual => "!=",
            BinaryOperator::GreaterThan => ">",
            BinaryOperator::GreaterThanOrEqual => ">=",
            BinaryOperator::LessThan => "<",
            BinaryOperator::LessThanOrEqual => "<=",
            BinaryOperator::And => "&&",
            BinaryOperator::Or => "||",
        }
    }
}

} // verus!
