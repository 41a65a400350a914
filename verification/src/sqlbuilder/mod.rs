//! The builder: the vocabulary, the fragments, the clauses, the statement
//! node, the model that the contracts speak of, the laws of the allocation
//! of bind parameters, and the law of the one-line form.

pub mod def;
pub mod field;
pub mod from_statement;
pub mod group_by;
pub mod join_statement;
pub mod laws;
pub mod lines;
pub mod model;
pub mod nv_select;
pub mod order_by;
pub mod protocol;
pub mod where_statement;
mod writer;

pub use def::{
    determine_parameter_format, generate_indentation, logic_operator_to_string,
    sql_operator_to_string, BuilderError, DatabaseDialect, JoinDefMode, LogicOperator, Refused,
    ParameterType, SortType, SqlAggregateFunction, SqlJoinType, SqlOperator,
};
pub use field::{FieldDef, FieldDefMode};
pub use from_statement::{FromTable, FromTableStatement};
pub use group_by::{GroupByClause, GroupByMode, GroupByStatement};
pub use join_statement::{JoinDef, JoinStatement, RecordKey};
pub use nv_select::NvSelect;
pub use order_by::{OrderByClause, OrderByStatement};
pub use where_statement::{Condition, ConditionMode, WhereStatement};
