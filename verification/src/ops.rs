//! The engine operations that expressions are built from, and the names under
//! which the language knows them.

use vstd::prelude::*;

verus! {

/// An operation of the query language.
#[derive(Clone, Copy, Debug, PartialEq, Eq, Structural)]
pub enum Operation {
    Add,
    Sub,
    Mul,
    Eq,
    Gt,
    Ge,
    Lt,
    Le,
    And,
    Or,
    Sum,
    Avg,
    Min,
    Max,
    Count,
    Median,
    First,
    Last,
    Distinct,
    Filter,
    InnerJoin,
    Meta,
}

/// The name under which the language knows `op`.
pub open spec fn operation_name(op: Operation) -> Seq<char> {
    match op {
        Operation::Add => "+"@,
        Operation::Sub => "-"@,
        Operation::Mul => "*"@,
        Operation::Eq => "=="@,
        Operation::Gt => ">"@,
        Operation::Ge => ">="@,
        Operation::Lt => "<"@,
        Operation::Le => "<="@,
        Operation::And => "and"@,
        Operation::Or => "or"@,
        Operation::Sum => "sum"@,
        Operation::Avg => "avg"@,
        Operation::Min => "min"@,
        Operation::Max => "max"@,
        Operation::Count => "count"@,
        Operation::Median => "med"@,
        Operation::First => "first"@,
        Operation::Last => "last"@,
        Operation::Distinct => "distinct"@,
        Operation::Filter => "filter"@,
        Operation::InnerJoin => "inner-join"@,
        Operation::Meta => "meta"@,
    }
}

impl Operation {
    /// The operation's name in the language.
    pub fn as_str(&self) -> (r: &'static str)
        ensures
            r@ == operation_name(*self),
    {
        match self {
            Operation::Add => "+",
            Operation::Sub => "-",
            Operation::Mul => "*",
            Operation::Eq => "==",
            Operation::Gt => ">",
            Operation::Ge => ">=",
            Operation::Lt => "<",
            Operation::Le => "<=",
            Operation::And => "and",
            Operation::Or => "or",
            Operation::Sum => "sum",
            Operation::Avg => "avg",
            Operation::Min => "min",
            Operation::Max => "max",
            Operation::Count => "count",
            Operation::Median => "med",
            Operation::First => "first",
            Operation::Last => "last",
            Operation::Distinct => "distinct",
            Operation::Filter => "filter",
            Operation::InnerJoin => "inner-join",
            Operation::Meta => "meta",
        }
    }
}

/// Each operation is named by its own symbol: `+`, `-` and `*` name addition,
/// subtraction and multiplication, and no two operations share a name.
pub proof fn law_operation_names_are_distinct(a: Operation, b: Operation)
    ensures
        operation_name(Operation::Add) == "+"@,
        operation_name(Operation::Sub) == "-"@,
        operation_name(Operation::Mul) == "*"@,
        operation_name(Operation::Sum) == "sum"@,
        operation_name(Operation::Median) == "med"@,
        operation_name(Operation::InnerJoin) == "inner-join"@,
        operation_name(Operation::Meta) == "meta"@,
        a != b ==> operation_name(a) != operation_name(b),
{
    reveal_strlit("+");
    reveal_strlit("-");
    reveal_strlit("*");
    reveal_strlit("==");
    reveal_strlit(">");
    reveal_strlit(">=");
    reveal_strlit("<");
    reveal_strlit("<=");
    reveal_strlit("and");
    reveal_strlit("or");
    reveal_strlit("sum");
    reveal_strlit("avg");
    reveal_strlit("min");
    reveal_strlit("max");
    reveal_strlit("count");
    reveal_strlit("med");
    reveal_strlit("first");
    reveal_strlit("last");
    reveal_strlit("distinct");
    reveal_strlit("filter");
    reveal_strlit("inner-join");
    reveal_strlit("meta");
    if a != b {
        let na = operation_name(a);
        let nb = operation_name(b);
        assert(na.len() != nb.len() || na[0] != nb[0] || na[1] != nb[1] || na[2] != nb[2]);
    }
}

} // verus!
