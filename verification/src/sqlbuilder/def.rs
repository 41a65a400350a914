//! The vocabulary of the builder: dialects, operators, join kinds, and the
//! notation of a bind parameter.

use crate::utils::strings::{decimal_text, push_decimal, push_repeated, repeat_char};
use vstd::prelude::*;
use vstd::string::*;

verus! {

/// Marks a type as usable for bound values.
pub trait ParameterType {

}

/// The SQL engines whose placeholder notation the builder writes.
#[derive(Debug, PartialEq, Eq, Clone, Copy, Structural)]
pub enum DatabaseDialect {
    PostgreSQL,
    Oracle,
}

impl DatabaseDialect {
    /// The text that stands for the value.
    pub open spec fn label(self) -> Seq<char> {
        match self {
            DatabaseDialect::PostgreSQL => "PostgreSQL"@,
            DatabaseDialect::Oracle => "Oracle"@,
        }
    }

    /// The label as an owned text.
    pub fn to_string(&self) -> (r: String)
        ensures
            r@ == self.label(),
    {
        match self {
            DatabaseDialect::PostgreSQL => "PostgreSQL".to_string(),
            DatabaseDialect::Oracle => "Oracle".to_string(),
        }
    }
}

/// The direction of one sort key.
#[derive(Debug, PartialEq, Eq, Clone, Copy, Structural)]
pub enum SortType {
    Ascending,
    Descending,
}

impl SortType {
    /// The text that stands for the value.
    pub open spec fn label(self) -> Seq<char> {
        match self {
            SortType::Ascending => "Ascending"@,
            SortType::Descending => "Descending"@,
        }
    }

    /// The label as an owned text.
    pub fn to_string(&self) -> (r: String)
        ensures
            r@ == self.label(),
    {
        match self {
            SortType::Ascending => "Ascending".to_string(),
            SortType::Descending => "Descending".to_string(),
        }
    }
}

/// The comparators of a condition.
#[derive(Debug, PartialEq, Eq, Clone, Copy, Structural)]
pub enum SqlOperator {
    Equal,
    NotEqual,
    Less,
    LessOrEqual,
    Greater,
    GreaterOrEqual,
    Like,
    Between,
    In,
}

impl SqlOperator {
    /// The text that stands for the value.
    pub open spec fn label(self) -> Seq<char> {
        match self {
            SqlOperator::Equal => "="@,
            SqlOperator::NotEqual => "!="@,
            SqlOperator::Less => "<"@,
            SqlOperator::LessOrEqual => "<="@,
            SqlOperator::Greater => ">"@,
            SqlOperator::GreaterOrEqual => ">="@,
            SqlOperator::Like => "LIKE"@,
            SqlOperator::Between => "BETWEEN"@,
            SqlOperator::In => "IN"@,
        }
    }

    /// The label as an owned text.
    pub fn to_string(&self) -> (r: String)
        ensures
            r@ == self.label(),
    {
        match self {
            SqlOperator::Equal => "=".to_string(),
            SqlOperator::NotEqual => "!=".to_string(),
            SqlOperator::Less => "<".to_string(),
            SqlOperator::LessOrEqual => "<=".to_string(),
            SqlOperator::Greater => ">".to_string(),
            SqlOperator::GreaterOrEqual => ">=".to_string(),
            SqlOperator::Like => "LIKE".to_string(),
            SqlOperator::Between => "BETWEEN".to_string(),
            SqlOperator::In => "IN".to_string(),
        }
    }
}

/// The connectors between conditions.
#[derive(Debug, PartialEq, Eq, Clone, Copy, Structural)]
pub enum LogicOperator {
    And,
    Or,
}

impl LogicOperator {
    /// The text that stands for the value.
    pub open spec fn label(self) -> Seq<char> {
        match self {
            LogicOperator::And => "AND"@,
            LogicOperator::Or => "OR"@,
        }
    }

    /// The label as an owned text.
    pub fn to_string(&self) -> (r: String)
        ensures
            r@ == self.label(),
    {
        match self {
            LogicOperator::And => "AND".to_string(),
            LogicOperator::Or => "OR".to_string(),
        }
    }
}

/// The wrapper written around a selected field.
#[derive(Debug, PartialEq, Eq, Clone, Copy, Structural)]
pub enum SqlAggregateFunction {
    NoAggregate,
    Distinct,
    Count,
    Avg,
    Sum,
    ToUpper,
    ToLower,
    ToIso8601DateTime,
    ToIso8601Date,
    ToIso8601Time,
}

impl SqlAggregateFunction {
    /// The text that stands for the value.
    pub open spec fn label(self) -> Seq<char> {
        match self {
            SqlAggregateFunction::NoAggregate => "None"@,
            SqlAggregateFunction::Distinct => "Distinct"@,
            SqlAggregateFunction::Count => "Count"@,
            SqlAggregateFunction::Avg => "Avg"@,
            SqlAggregateFunction::Sum => "Sum"@,
            SqlAggregateFunction::ToUpper => "ToUpper"@,
            SqlAggregateFunction::ToLower => "ToLower"@,
            SqlAggregateFunction::ToIso8601DateTime => "ToIso8601DateTime"@,
            SqlAggregateFunction::ToIso8601Date => "ToIso8601Date"@,
            SqlAggregateFunction::ToIso8601Time => "ToIso8601Time"@,
        }
    }

    /// The label as an owned text.
    pub fn to_string(&self) -> (r: String)
        ensures
            r@ == self.label(),
    {
        match self {
            SqlAggregateFunction::NoAggregate => "None".to_string(),
            SqlAggregateFunction::Distinct => "Distinct".to_string(),
            SqlAggregateFunction::Count => "Count".to_string(),
            SqlAggregateFunction::Avg => "Avg".to_string(),
            SqlAggregateFunction::Sum => "Sum".to_string(),
            SqlAggregateFunction::ToUpper => "ToUpper".to_string(),
            SqlAggregateFunction::ToLower => "ToLower".to_string(),
            SqlAggregateFunction::ToIso8601DateTime => "ToIso8601DateTime".to_string(),
            SqlAggregateFunction::ToIso8601Date => "ToIso8601Date".to_string(),
            SqlAggregateFunction::ToIso8601Time => "ToIso8601Time".to_string(),
        }
    }
}

/// The kind of a join; `NoJoin` writes nothing.
#[derive(Debug, PartialEq, Eq, Clone, Copy, Structural)]
pub enum SqlJoinType {
    NoJoin,
    InnerJoin,
    LeftJoin,
    RightJoin,
}

impl SqlJoinType {
    /// The text that stands for the value.
    pub open spec fn label(self) -> Seq<char> {
        match self {
            SqlJoinType::NoJoin => "None"@,
            SqlJoinType::InnerJoin => "InnerJoin"@,
            SqlJoinType::LeftJoin => "LeftJoin"@,
            SqlJoinType::RightJoin => "RightJoin"@,
        }
    }

    /// The label as an owned text.
    pub fn to_string(&self) -> (r: String)
        ensures
            r@ == self.label(),
    {
        match self {
            SqlJoinType::NoJoin => "None".to_string(),
            SqlJoinType::InnerJoin => "InnerJoin".to_string(),
            SqlJoinType::LeftJoin => "LeftJoin".to_string(),
            SqlJoinType::RightJoin => "RightJoin".to_string(),
        }
    }
}

/// How the two sides of a join are given.
#[derive(Debug, PartialEq, Eq, Clone, Copy, Structural)]
pub enum JoinDefMode {
    RecordKeyBoth,
    SubquerySelectString,
    SubqueryRawString,
    SubquerySelectObject,
}

impl JoinDefMode {
    /// The text that stands for the value.
    pub open spec fn label(self) -> Seq<char> {
        match self {
            JoinDefMode::RecordKeyBoth => "RecordKeyBoth"@,
            JoinDefMode::SubquerySelectString => "SubquerySelectString"@,
            JoinDefMode::SubqueryRawString => "SubqueryRawString"@,
            JoinDefMode::SubquerySelectObject => "SubquerySelectObject"@,
        }
    }

    /// The label as an owned text.
    pub fn to_string(&self) -> (r: String)
        ensures
            r@ == self.label(),
    {
        match self {
            JoinDefMode::RecordKeyBoth => "RecordKeyBoth".to_string(),
            JoinDefMode::SubquerySelectString => "SubquerySelectString".to_string(),
            JoinDefMode::SubqueryRawString => "SubqueryRawString".to_string(),
            JoinDefMode::SubquerySelectObject => "SubquerySelectObject".to_string(),
        }
    }
}

/// What went wrong in a call that the builder turned down.
#[derive(Debug, PartialEq, Eq, Clone, Copy, Structural)]
pub enum BuilderError {
    /// A block was closed that no statement or collection had opened.
    NoParent,
    /// The number of values does not fit the comparator.
    ArityMismatch,
}

/// A call that was turned down: the reason, and what was handed to the call,
/// unchanged, so that the caller can go on with it.
#[derive(Debug)]
pub struct Refused<H> {
    /// Why the call was turned down.
    pub error: BuilderError,
    /// What the call was made on, as it was before the call.
    pub handle: H,
}

/// The sign that opens a placeholder in `dialect`.
pub open spec fn placeholder_sign(dialect: DatabaseDialect) -> char {
    match dialect {
        DatabaseDialect::PostgreSQL => '$',
        DatabaseDialect::Oracle => ':',
    }
}

/// The placeholder of bind parameter `index` in `dialect`: the sign, then the
/// index in decimal.
pub open spec fn placeholder_text(dialect: DatabaseDialect, index: nat) -> Seq<char> {
    seq![placeholder_sign(dialect)] + decimal_text(index)
}

/// The keyword that an aggregate writes in front of its field; empty where
/// the aggregate has none.
pub open spec fn aggregate_keyword(f: SqlAggregateFunction) -> Seq<char> {
    match f {
        SqlAggregateFunction::Distinct => "DISTINCT"@,
        SqlAggregateFunction::Count => "COUNT"@,
        SqlAggregateFunction::Avg => "AVG"@,
        SqlAggregateFunction::Sum => "SUM"@,
        SqlAggregateFunction::ToUpper => "TO_UPPER"@,
        SqlAggregateFunction::ToLower => "TO_LOWER"@,
        _ => ""@,
    }
}

/// Appends the placeholder of `index` to `out`.
pub fn push_placeholder(out: &mut String, dialect: DatabaseDialect, index: u128)
    ensures
        final(out)@ == old(out)@ + placeholder_text(dialect, index as nat),
{
    match dialect {
        DatabaseDialect::PostgreSQL => out.push('$'),
        DatabaseDialect::Oracle => out.push(':'),
    }
    push_decimal(out, index);
    assert(out@ =~= old(out)@ + placeholder_text(dialect, index as nat));
}

/// The placeholder of bind parameter `parameter_index` in `dialect`.
pub fn determine_parameter_format(dialect: &DatabaseDialect, parameter_index: u32) -> (r: String)
    ensures
        r@ == placeholder_text(*dialect, parameter_index as nat),
{
    let mut out = String::new();
    push_placeholder(&mut out, *dialect, parameter_index as u128);
    out
}

/// The symbol of a comparator.
pub fn sql_operator_to_string(op: SqlOperator) -> (r: String)
    ensures
        r@ == op.label(),
{
    op.to_string()
}

/// The keyword of a connector.
pub fn logic_operator_to_string(logic: LogicOperator) -> (r: String)
    ensures
        r@ == logic.label(),
{
    logic.to_string()
}

/// The keyword of an aggregate as an owned text.
pub fn aggregate_function_to_string(f: SqlAggregateFunction) -> (r: String)
    ensures
        r@ == aggregate_keyword(f),
{
    match f {
        SqlAggregateFunction::Distinct => "DISTINCT".to_string(),
        SqlAggregateFunction::Count => "COUNT".to_string(),
        SqlAggregateFunction::Avg => "AVG".to_string(),
        SqlAggregateFunction::Sum => "SUM".to_string(),
        SqlAggregateFunction::ToUpper => "TO_UPPER".to_string(),
        SqlAggregateFunction::ToLower => "TO_LOWER".to_string(),
        _ => "".to_string(),
    }
}

/// `level * number_per_print` copies of `indent_char`.
pub fn generate_indentation(level: u32, indent_char: char, number_per_print: u32) -> (r: String)
    ensures
        r@ == repeat_char(indent_char, level as nat * number_per_print as nat),
{
    assert(level as nat * number_per_print as nat <= 0xFFFF_FFFF * 0xFFFF_FFFF) by (nonlinear_arith)
        requires
            level <= 0xFFFF_FFFF,
            number_per_print <= 0xFFFF_FFFF,
    ;
    let count: u64 = (level as u64) * (number_per_print as u64);
    let mut out = String::new();
    push_repeated(&mut out, indent_char, count);
    out
}

} // verus!
