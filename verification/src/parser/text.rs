//! The text form of an expression: the tree written back as source.

use super::value::{Value, ValueView};
use super::var::names_model;
use super::{exprs_model, object_entries, Expr, ExprView};
use crate::lexer::join3;
use vstd::prelude::*;

verus! {

/// A literal as it is written: a text or a number is its own literal.
pub open spec fn value_text(v: ValueView) -> Seq<char> {
    match v {
        ValueView::Str(s) => s,
        ValueView::Int(s) => s,
        ValueView::Float(s) => s,
        ValueView::Bool(b) => if b {
            "true"@
        } else {
            "false"@
        },
        ValueView::Nil => "nil"@,
    }
}

/// The texts one after the other, with `, ` between two of them.
pub open spec fn joined(parts: Seq<Seq<char>>) -> Seq<char>
    decreases parts.len(),
{
    if parts.len() == 0 {
        Seq::empty()
    } else if parts.len() == 1 {
        parts[0]
    } else {
        joined(parts.drop_last()) + ", "@ + parts.last()
    }
}

/// The pairs of an object literal as they are written: each key, `! `, and
/// the text of its value.
pub open spec fn pair_texts(keys: Seq<Seq<char>>, parts: Seq<Seq<char>>) -> Seq<Seq<char>> {
    Seq::new(keys.len(), |k: int| keys[k] + "! "@ + parts[k])
}

/// What a list of texts holds.
pub open spec fn string_views(texts: Seq<String>) -> Seq<Seq<char>> {
    Seq::new(texts.len(), |k: int| texts[k]@)
}

/// A text between two marks: `(` and `)` around an expression in
/// parentheses, nothing and `?` around one whose failure is handed on.
pub open spec fn framed(head: Seq<char>, a: Seq<char>, tail: Seq<char>) -> Seq<char> {
    head + a + tail
}

/// Two texts with a mark between them: an operator between its operands
/// with a space on each side, `.` before a field, `..` between the parts of
/// a concatenation or of a range.
pub open spec fn between(a: Seq<char>, mark: Seq<char>, b: Seq<char>) -> Seq<char> {
    a + mark + b
}

/// An operator as it stands between its operands.
pub open spec fn spaced(symbol: Seq<char>) -> Seq<char> {
    " "@ + symbol + " "@
}

/// An indexing: the indexed expression and the indexer in brackets.
pub open spec fn index_form(a: Seq<char>, b: Seq<char>) -> Seq<char> {
    a + "["@ + b + "]"@
}

/// A range of three parts.
pub open spec fn range_form(a: Seq<char>, b: Seq<char>, c: Seq<char>) -> Seq<char> {
    a + ".."@ + b + ".."@ + c
}

/// An array literal of the given items.
pub open spec fn array_form(parts: Seq<Seq<char>>) -> Seq<char> {
    "["@ + joined(parts) + "]"@
}

/// A call of the given callee with the given arguments.
pub open spec fn call_form(a: Seq<char>, parts: Seq<Seq<char>>) -> Seq<char> {
    a + "("@ + joined(parts) + ")"@
}

/// An object literal of the given keys and values, in their order.
pub open spec fn object_form(keys: Seq<Seq<char>>, parts: Seq<Seq<char>>) -> Seq<char> {
    "{"@ + joined(pair_texts(keys, parts)) + "}"@
}

/// Whether an object literal stands anywhere in the expression.
pub open spec fn holds_object(e: ExprView) -> bool
    decreases e,
{
    match e {
        ExprView::Value(_) => false,
        ExprView::Import(_) => false,
        ExprView::Id(_) => false,
        ExprView::SpeadId(_) => false,
        ExprView::Object(_) => true,
        ExprView::Array(items) => exists|k: int|
            0 <= k < items.len() && holds_object(#[trigger] items[k]),
        ExprView::Parenthesized(inner) => holds_object(*inner),
        ExprView::PropagatedFailible(inner) => holds_object(*inner),
        ExprView::Assign { target, value, .. } => holds_object(*target) || holds_object(*value),
        ExprView::Binary { lhs, rhs, .. } => holds_object(*lhs) || holds_object(*rhs),
        ExprView::FuncCall { callee, args } => holds_object(*callee) || exists|k: int|
            0 <= k < args.len() && holds_object(#[trigger] args[k]),
        ExprView::Range { start, end, step } => holds_object(*start) || holds_object(*end) || (
        match step {
            Some(s) => holds_object(*s),
            None => false,
        }),
        ExprView::ArrayIndexing { indexed, indexer } => holds_object(*indexed) || holds_object(
            *indexer,
        ),
        ExprView::ObjIndexing { indexed, indexer } => holds_object(*indexed) || holds_object(
            *indexer,
        ),
        ExprView::StringConcatenation { left, right } => holds_object(*left) || holds_object(
            *right,
        ),
    }
}

/// The texts of a list of expressions, in order.
pub open spec fn exprs_text(items: Seq<ExprView>) -> Seq<Seq<char>>
    decreases items,
{
    Seq::new(
        items.len(),
        |k: int|
            if 0 <= k < items.len() {
                expr_text(items[k])
            } else {
                Seq::empty()
            },
    )
}

/// The source text of an expression. An object literal is written with its
/// pairs in one order of its keys; which order a walk of the object takes
/// is open, and [`writes`] says what every order gives.
pub open spec fn expr_text(e: ExprView) -> Seq<char>
    decreases e,
{
    match e {
        ExprView::Value(v) => value_text(v),
        ExprView::Import(name) => framed("$import(\""@, name, "\")"@),
        ExprView::Id(name) => name,
        ExprView::SpeadId(name) => "..."@ + name,
        ExprView::Array(items) => array_form(exprs_text(items)),
        ExprView::Object(fields) => {
            let keys = fields.dom().to_seq();
            object_form(
                keys,
                Seq::new(
                    keys.len(),
                    |k: int|
                        if fields.dom().contains(keys[k]) {
                            expr_text(fields[keys[k]])
                        } else {
                            Seq::empty()
                        },
                ),
            )
        },
        ExprView::Parenthesized(inner) => framed("("@, expr_text(*inner), ")"@),
        ExprView::PropagatedFailible(inner) => framed(Seq::empty(), expr_text(*inner), "?"@),
        ExprView::Assign { target, operator, value } => between(
            expr_text(*target),
            spaced(operator.symbol_text()),
            expr_text(*value),
        ),
        ExprView::Binary { lhs, operator, rhs } => between(
            expr_text(*lhs),
            spaced(operator.symbol_text()),
            expr_text(*rhs),
        ),
        ExprView::FuncCall { callee, args } => call_form(expr_text(*callee), exprs_text(args)),
        ExprView::Range { start, end, step } => match step {
            Some(s) => range_form(expr_text(*start), expr_text(*end), expr_text(*s)),
            None => between(expr_text(*start), ".."@, expr_text(*end)),
        },
        ExprView::ArrayIndexing { indexed, indexer } => index_form(
            expr_text(*indexed),
            expr_text(*indexer),
        ),
        ExprView::ObjIndexing { indexed, indexer } => between(
            expr_text(*indexed),
            "."@,
            expr_text(*indexer),
        ),
        ExprView::StringConcatenation { left, right } => between(
            expr_text(*left),
            ".."@,
            expr_text(*right),
        ),
    }
}

/// Each of the texts is one that the expression of the same place may be
/// written as.
pub open spec fn writes_each(items: Seq<ExprView>, parts: Seq<Seq<char>>) -> bool
    decreases items, 0nat,
{
    &&& parts.len() == items.len()
    &&& forall|k: int| 0 <= k < items.len() ==> writes(items[k], #[trigger] parts[k])
}

/// The keys are those of the object, each once, and each of the texts is
/// one that the value of the key of the same place may be written as.
pub open spec fn writes_pairs(e: ExprView, keys: Seq<Seq<char>>, parts: Seq<Seq<char>>) -> bool
    decreases e, 0nat,
{
    match e {
        ExprView::Object(fields) => {
            &&& keys.no_duplicates()
            &&& keys.to_set() == fields.dom()
            &&& parts.len() == keys.len()
            &&& forall|k: int|
                0 <= k < keys.len() && fields.dom().contains(keys[k]) ==> writes(
                    fields[keys[k]],
                    #[trigger] parts[k],
                )
        },
        _ => false,
    }
}

/// Whether `t` is a text that the expression may be written as. Every
/// expression but an object literal has one text for given texts of its
/// parts; an object literal has one for each order of its keys: `{`, the
/// pairs in that order with `, ` between them, and `}`.
pub open spec fn writes(e: ExprView, t: Seq<char>) -> bool
    decreases e, 1nat,
{
    match e {
        ExprView::Value(v) => t == value_text(v),
        ExprView::Import(name) => t == framed("$import(\""@, name, "\")"@),
        ExprView::Id(name) => t == name,
        ExprView::SpeadId(name) => t == "..."@ + name,
        ExprView::Array(items) => exists|parts: Seq<Seq<char>>|
            writes_each(items, parts) && t == #[trigger] array_form(parts),
        ExprView::Object(fields) => exists|keys: Seq<Seq<char>>, parts: Seq<Seq<char>>|
            writes_pairs(e, keys, parts) && t == #[trigger] object_form(keys, parts),
        ExprView::Parenthesized(inner) => exists|a: Seq<char>|
            writes(*inner, a) && t == #[trigger] framed("("@, a, ")"@),
        ExprView::PropagatedFailible(inner) => exists|a: Seq<char>|
            writes(*inner, a) && t == #[trigger] framed(Seq::empty(), a, "?"@),
        ExprView::Assign { target, operator, value } => exists|a: Seq<char>, b: Seq<char>|
            writes(*target, a) && writes(*value, b) && t == #[trigger] between(
                a,
                spaced(operator.symbol_text()),
                b,
            ),
        ExprView::Binary { lhs, operator, rhs } => exists|a: Seq<char>, b: Seq<char>|
            writes(*lhs, a) && writes(*rhs, b) && t == #[trigger] between(
                a,
                spaced(operator.symbol_text()),
                b,
            ),
        ExprView::FuncCall { callee, args } => exists|a: Seq<char>, parts: Seq<Seq<char>>|
            writes(*callee, a) && writes_each(args, parts) && t == #[trigger] call_form(a, parts),
        ExprView::Range { start, end, step } => match step {
            Some(s) => exists|a: Seq<char>, b: Seq<char>, c: Seq<char>|
                writes(*start, a) && writes(*end, b) && writes(*s, c) && t
                    == #[trigger] range_form(a, b, c),
            None => exists|a: Seq<char>, b: Seq<char>|
                writes(*start, a) && writes(*end, b) && t == #[trigger] between(a, ".."@, b),
        },
        ExprView::ArrayIndexing { indexed, indexer } => exists|a: Seq<char>, b: Seq<char>|
            writes(*indexed, a) && writes(*indexer, b) && t == #[trigger] index_form(a, b),
        ExprView::ObjIndexing { indexed, indexer } => exists|a: Seq<char>, b: Seq<char>|
            writes(*indexed, a) && writes(*indexer, b) && t == #[trigger] between(a, "."@, b),
        ExprView::StringConcatenation { left, right } => exists|a: Seq<char>, b: Seq<char>|
            writes(*left, a) && writes(*right, b) && t == #[trigger] between(a, ".."@, b),
    }
}

/// Every part of an expression is smaller than the expression.
pub proof fn lemma_parts_smaller(e: ExprView)
    ensures
        match e {
            ExprView::Array(items) => decreases_to!(e => items),
            ExprView::Object(fields) => decreases_to!(e => fields),
            ExprView::Parenthesized(inner) => decreases_to!(e => *inner),
            ExprView::PropagatedFailible(inner) => decreases_to!(e => *inner),
            ExprView::Assign { target, value, .. } => decreases_to!(e => *target) && decreases_to!(e => *value),
            ExprView::Binary { lhs, rhs, .. } => decreases_to!(e => *lhs) && decreases_to!(e => *rhs),
            ExprView::FuncCall { callee, args } => decreases_to!(e => *callee) && decreases_to!(e => args),
            ExprView::Range { start, end, step } => decreases_to!(e => *start) && decreases_to!(e => *end)
                && (step matches Some(s) ==> decreases_to!(e => *s)),
            ExprView::ArrayIndexing { indexed, indexer } => decreases_to!(e => *indexed)
                && decreases_to!(e => *indexer),
            ExprView::ObjIndexing { indexed, indexer } => decreases_to!(e => *indexed)
                && decreases_to!(e => *indexer),
            ExprView::StringConcatenation { left, right } => decreases_to!(e => *left)
                && decreases_to!(e => *right),
            _ => true,
        },
{
}

/// A literal as it is written.
pub fn value_to_text(v: &Value) -> (r: String)
    ensures
        r@ == value_text(v@),
{
    match v {
        Value::Str(s) => String::from_str(s),
        Value::Int(s) => String::from_str(s),
        Value::Float(s) => String::from_str(s),
        Value::Bool(b) => if *b {
            String::from_str("true")
        } else {
            String::from_str("false")
        },
        Value::Nil => String::from_str("nil"),
    }
}

/// The texts one after the other, with `, ` between two of them.
pub fn join_texts(parts: &Vec<String>) -> (r: String)
    ensures
        r@ == joined(string_views(parts@)),
{
    let mut out = String::new();
    let mut k: usize = 0;
    assert(string_views(parts@).take(0) =~= Seq::<Seq<char>>::empty());
    while k < parts.len()
        invariant
            k <= parts.len(),
            out@ == joined(string_views(parts@).take(k as int)),
        decreases parts.len() - k,
    {
        let ghost all = string_views(parts@);
        assert(all.take(k + 1).drop_last() =~= all.take(k as int));
        assert(all.take(k + 1).last() == parts@[k as int]@);
        if k > 0 {
            out.append(", ");
        } else {
            assert(out@ + parts@[0]@ =~= parts@[0]@);
        }
        out.append(parts[k].as_str());
        k += 1;
    }
    assert(string_views(parts@).take(parts@.len() as int) =~= string_views(parts@));
    out
}

/// The texts of a list of expressions, in order.
pub fn exprs_to_text(items: &Vec<Box<Expr>>) -> (r: Vec<String>)
    ensures
        writes_each(exprs_model(items@), string_views(r@)),
        (forall|k: int| 0 <= k < items@.len() ==> !holds_object(#[trigger] exprs_model(items@)[k]))
            ==> string_views(r@) == exprs_text(exprs_model(items@)),
    decreases exprs_model(items@), 0nat,
{
    let mut out: Vec<String> = Vec::new();
    let mut k: usize = 0;
    let ghost models = exprs_model(items@);
    let ghost mut texts: Seq<Seq<char>> = Seq::empty();
    assert(string_views(out@) =~= texts);
    while k < items.len()
        invariant
            k <= items.len(),
            models == exprs_model(items@),
            texts.len() == k,
            string_views(out@) == texts,
            forall|j: int| 0 <= j < k ==> writes(models[j], #[trigger] texts[j]),
            forall|j: int|
                0 <= j < k && !holds_object(models[j]) ==> #[trigger] texts[j] == expr_text(
                    models[j],
                ),
        decreases items.len() - k,
    {
        let item = &*items[k];
        assert(item@ == models[k as int]);
        let text = item.to_text();
        out.push(text);
        proof {
            texts = texts.push(text@);
        }
        assert(string_views(out@) =~= texts);
        k += 1;
    }
    assert((forall|j: int| 0 <= j < items@.len() ==> !holds_object(#[trigger] models[j]))
        ==> texts =~= exprs_text(models));
    out
}

/// What [`Expr::to_text`] promises of its result.
pub open spec fn is_text_of(e: ExprView, t: Seq<char>) -> bool {
    &&& writes(e, t)
    &&& !holds_object(e) ==> t == expr_text(e)
}

impl<'a> Expr<'a> {
    /// The text of an array literal.
    fn array_text(&self) -> (r: String)
        requires
            self@ is Array,
        ensures
            is_text_of(self@, r@),
        decreases self@, 0nat,
    {
        proof {
            lemma_parts_smaller(self@);
        }
        match self {
            Expr::Array(items) => {
                let parts = exprs_to_text(items);
                let body = join_texts(&parts);
                let out = join3("[", body.as_str(), "]");
                assert(out@ == array_form(string_views(parts@)));
                out
            },
            _ => String::new(),
        }
    }

    /// The text of an object literal, its pairs in the order in which the
    /// object is walked.
    fn object_text(&self) -> (r: String)
        requires
            self@ is Object,
        ensures
            is_text_of(self@, r@),
        decreases self@, 0nat,
    {
        proof {
            lemma_parts_smaller(self@);
        }
        match self {
            Expr::Object(fields) => {
                let keys = fields.keys();
                let ghost entries = object_entries(*fields);
                let ghost names = names_model(keys@);
                proof {
                    vstd::seq_lib::seq_to_set_is_finite(names);
                }
                let mut pairs: Vec<String> = Vec::new();
                let ghost mut texts: Seq<Seq<char>> = Seq::empty();
                let ghost mut written: Seq<Seq<char>> = Seq::empty();
                let mut k: usize = 0;
                assert(string_views(pairs@) =~= written);
                while k < keys.len()
                    invariant
                        k <= keys.len(),
                        names == names_model(keys@),
                        entries == object_entries(*fields),
                        self@ == ExprView::Object(entries),
                        decreases_to!(self@ => entries),
                        names.to_set() == entries.dom(),
                        entries.dom().finite(),
                        texts.len() == k,
                        written.len() == k,
                        string_views(pairs@) == written,
                        forall|j: int| 0 <= j < k ==> writes(entries[names[j]], #[trigger] texts[j]),
                        forall|j: int|
                            0 <= j < k ==> #[trigger] written[j] == names[j] + "! "@ + texts[j],
                    decreases keys.len() - k,
                {
                    let key = keys[k];
                    assert(names[k as int] == key@);
                    assert(names.to_set().contains(names[k as int]));
                    proof {
                        vstd::map::axiom_map_index_decreases_finite(entries, key@);
                    }
                    match fields.get(key) {
                        Some(value) => {
                            let text = value.to_text();
                            let pair = join3(key, "! ", text.as_str());
                            proof {
                                texts = texts.push(text@);
                                written = written.push(pair@);
                            }
                            pairs.push(pair);
                        },
                        None => {
                            let pair = String::new();
                            proof {
                                texts = texts.push(Seq::empty());
                                written = written.push(pair@);
                            }
                            pairs.push(pair);
                        },
                    }
                    assert(string_views(pairs@) =~= written);
                    k += 1;
                }
                assert(written =~= pair_texts(names, texts));
                assert(writes_pairs(self@, names, texts));
                let body = join_texts(&pairs);
                let out = join3("{", body.as_str(), "}");
                assert(out@ == object_form(names, texts));
                out
            },
            _ => String::new(),
        }
    }

    /// The text of an expression in parentheses or before a `?`.
    fn wrapped_text(&self) -> (r: String)
        requires
            self@ is Parenthesized || self@ is PropagatedFailible,
        ensures
            is_text_of(self@, r@),
        decreases self@, 0nat,
    {
        proof {
            lemma_parts_smaller(self@);
        }
        match self {
            Expr::Parenthesized(inner) => {
                let a = inner.to_text();
                let out = join3("(", a.as_str(), ")");
                assert(out@ == framed("("@, a@, ")"@));
                out
            },
            Expr::PropagatedFailible(inner) => {
                let a = inner.to_text();
                let mut out = String::from_str(a.as_str());
                out.append("?");
                assert(out@ =~= framed(Seq::empty(), a@, "?"@));
                out
            },
            _ => String::new(),
        }
    }

    /// The text of an assignment or a binary operation.
    fn operation_text(&self) -> (r: String)
        requires
            self@ is Assign || self@ is Binary,
        ensures
            is_text_of(self@, r@),
        decreases self@, 0nat,
    {
        proof {
            lemma_parts_smaller(self@);
        }
        match self {
            Expr::Assign { target, operator, value } => {
                let a = target.to_text();
                let b = value.to_text();
                let head = join3(a.as_str(), " ", operator.symbol());
                let out = join3(head.as_str(), " ", b.as_str());
                assert(out@ =~= between(a@, spaced(operator.symbol_text()), b@));
                out
            },
            Expr::Binary { lhs, operator, rhs } => {
                let a = lhs.to_text();
                let b = rhs.to_text();
                let head = join3(a.as_str(), " ", operator.symbol());
                let out = join3(head.as_str(), " ", b.as_str());
                assert(out@ =~= between(a@, spaced(operator.symbol_text()), b@));
                out
            },
            _ => String::new(),
        }
    }

    /// The text of a call.
    fn call_text(&self) -> (r: String)
        requires
            self@ is FuncCall,
        ensures
            is_text_of(self@, r@),
        decreases self@, 0nat,
    {
        proof {
            lemma_parts_smaller(self@);
        }
        match self {
            Expr::FuncCall { callee, args } => {
                let a = callee.to_text();
                let parts = exprs_to_text(args);
                let body = join_texts(&parts);
                let mut out = join3(a.as_str(), "(", body.as_str());
                out.append(")");
                assert(out@ == call_form(a@, string_views(parts@)));
                out
            },
            _ => String::new(),
        }
    }

    /// The text of a range.
    fn range_text(&self) -> (r: String)
        requires
            self@ is Range,
        ensures
            is_text_of(self@, r@),
        decreases self@, 0nat,
    {
        proof {
            lemma_parts_smaller(self@);
        }
        match self {
            Expr::Range { start, end, step } => {
                let a = start.to_text();
                let b = end.to_text();
                let head = join3(a.as_str(), "..", b.as_str());
                assert(head@ == between(a@, ".."@, b@));
                match step {
                    Some(s) => {
                        let c = s.to_text();
                        let out = join3(head.as_str(), "..", c.as_str());
                        assert(out@ == range_form(a@, b@, c@));
                        out
                    },
                    None => head,
                }
            },
            _ => String::new(),
        }
    }

    /// The text of an indexing, a field access or a concatenation.
    fn access_text(&self) -> (r: String)
        requires
            self@ is ArrayIndexing || self@ is ObjIndexing || self@ is StringConcatenation,
        ensures
            is_text_of(self@, r@),
        decreases self@, 0nat,
    {
        proof {
            lemma_parts_smaller(self@);
        }
        match self {
            Expr::ArrayIndexing { indexed, indexer } => {
                let a = indexed.to_text();
                let b = indexer.to_text();
                let mut out = join3(a.as_str(), "[", b.as_str());
                out.append("]");
                assert(out@ == index_form(a@, b@));
                out
            },
            Expr::ObjIndexing { indexed, indexer } => {
                let a = indexed.to_text();
                let b = indexer.to_text();
                let out = join3(a.as_str(), ".", b.as_str());
                assert(out@ == between(a@, "."@, b@));
                out
            },
            Expr::StringConcatenation { left, right } => {
                let a = left.to_text();
                let b = right.to_text();
                let out = join3(a.as_str(), "..", b.as_str());
                assert(out@ == between(a@, ".."@, b@));
                out
            },
            _ => String::new(),
        }
    }

    /// The source text of the expression. The pairs of an object literal
    /// are written in the order in which the object is walked; every other
    /// expression has one text.
    pub fn to_text(&self) -> (r: String)
        ensures
            writes(self@, r@),
            !holds_object(self@) ==> r@ == expr_text(self@),
        decreases self@, 1nat,
    {
        match self {
            Expr::Value(v) => value_to_text(v),
            Expr::Import(name) => join3("$import(\"", name, "\")"),
            Expr::Id(name) => String::from_str(name),
            Expr::SpeadId(name) => {
                let mut out = String::from_str("...");
                out.append(name);
                out
            },
            Expr::Array(_) => self.array_text(),
            Expr::Object(_) => self.object_text(),
            Expr::Parenthesized(_) | Expr::PropagatedFailible(_) => self.wrapped_text(),
            Expr::Assign { .. } | Expr::Binary { .. } => self.operation_text(),
            Expr::FuncCall { .. } => self.call_text(),
            Expr::Range { .. } => self.range_text(),
            Expr::ArrayIndexing { .. }
            | Expr::ObjIndexing { .. }
            | Expr::StringConcatenation { .. } => self.access_text(),
        }
    }
}

} // verus!
