use nvcore::sqlbuilder::{
    determine_parameter_format, generate_indentation, logic_operator_to_string,
    sql_operator_to_string, BuilderError, ConditionMode, DatabaseDialect, FieldDefMode,
    GroupByMode, JoinDefMode, LogicOperator, SortType, SqlAggregateFunction, SqlJoinType,
    SqlOperator,
};
use nvcore::utils::indent_space;

#[test]
fn test_database_dialect_display() {
    assert_eq!(DatabaseDialect::PostgreSQL.to_string(), "PostgreSQL");
    assert_eq!(DatabaseDialect::Oracle.to_string(), "Oracle");
}

#[test]
fn sort_type_labels() {
    assert_eq!(SortType::Ascending.to_string(), "Ascending");
    assert_eq!(SortType::Descending.to_string(), "Descending");
}

#[test]
fn operator_symbols() {
    assert_eq!(SqlOperator::Equal.to_string(), "=");
    assert_eq!(SqlOperator::NotEqual.to_string(), "!=");
    assert_eq!(SqlOperator::Less.to_string(), "<");
    assert_eq!(SqlOperator::LessOrEqual.to_string(), "<=");
    assert_eq!(SqlOperator::Greater.to_string(), ">");
    assert_eq!(SqlOperator::GreaterOrEqual.to_string(), ">=");
    assert_eq!(SqlOperator::Like.to_string(), "LIKE");
    assert_eq!(SqlOperator::Between.to_string(), "BETWEEN");
    assert_eq!(SqlOperator::In.to_string(), "IN");
    assert_eq!(sql_operator_to_string(SqlOperator::GreaterOrEqual), ">=");
    assert_eq!(sql_operator_to_string(SqlOperator::Like), "LIKE");
}

#[test]
fn logic_operator_keywords() {
    assert_eq!(LogicOperator::And.to_string(), "AND");
    assert_eq!(LogicOperator::Or.to_string(), "OR");
    assert_eq!(logic_operator_to_string(LogicOperator::And), "AND");
    assert_eq!(logic_operator_to_string(LogicOperator::Or), "OR");
}

#[test]
fn aggregate_labels() {
    assert_eq!(SqlAggregateFunction::NoAggregate.to_string(), "None");
    assert_eq!(SqlAggregateFunction::Distinct.to_string(), "Distinct");
    assert_eq!(SqlAggregateFunction::Count.to_string(), "Count");
    assert_eq!(SqlAggregateFunction::Avg.to_string(), "Avg");
    assert_eq!(SqlAggregateFunction::Sum.to_string(), "Sum");
    assert_eq!(SqlAggregateFunction::ToUpper.to_string(), "ToUpper");
    assert_eq!(SqlAggregateFunction::ToLower.to_string(), "ToLower");
    assert_eq!(SqlAggregateFunction::ToIso8601DateTime.to_string(), "ToIso8601DateTime");
    assert_eq!(SqlAggregateFunction::ToIso8601Date.to_string(), "ToIso8601Date");
    assert_eq!(SqlAggregateFunction::ToIso8601Time.to_string(), "ToIso8601Time");
}

#[test]
fn join_type_and_mode_labels() {
    assert_eq!(SqlJoinType::NoJoin.to_string(), "None");
    assert_eq!(SqlJoinType::InnerJoin.to_string(), "InnerJoin");
    assert_eq!(SqlJoinType::LeftJoin.to_string(), "LeftJoin");
    assert_eq!(SqlJoinType::RightJoin.to_string(), "RightJoin");
    assert_eq!(JoinDefMode::RecordKeyBoth.to_string(), "RecordKeyBoth");
    assert_eq!(JoinDefMode::SubquerySelectString.to_string(), "SubquerySelectString");
    assert_eq!(JoinDefMode::SubqueryRawString.to_string(), "SubqueryRawString");
    assert_eq!(JoinDefMode::SubquerySelectObject.to_string(), "SubquerySelectObject");
}

#[test]
fn fragment_mode_labels() {
    assert_eq!(ConditionMode::Comparator.to_string(), "Comparator");
    assert_eq!(ConditionMode::LogicalOperator.to_string(), "LogicalOperator");
    assert_eq!(ConditionMode::StartGroup.to_string(), "StartGroup");
    assert_eq!(ConditionMode::EndGroup.to_string(), "EndGroup");
    assert_eq!(ConditionMode::Subquery.to_string(), "Subquery");
    assert_eq!(FieldDefMode::FieldRaw.to_string(), "Field");
    assert_eq!(FieldDefMode::FieldWType.to_string(), "Field [Strong-Typed]");
    assert_eq!(FieldDefMode::FnStaticParameter.to_string(), "Fn Static");
    assert_eq!(FieldDefMode::FnParameterizedValues.to_string(), "Fn Parameterized");
    assert_eq!(GroupByMode::Field.to_string(), "Field");
    assert_eq!(GroupByMode::FunctionCall.to_string(), "FunctionCall");
    assert_eq!(GroupByMode::RawString.to_string(), "RawString");
}

#[test]
fn placeholder_per_dialect() {
    assert_eq!(determine_parameter_format(&DatabaseDialect::PostgreSQL, 1), "$1");
    assert_eq!(determine_parameter_format(&DatabaseDialect::Oracle, 1), ":1");
    assert_eq!(determine_parameter_format(&DatabaseDialect::PostgreSQL, 0), "$0");
    assert_eq!(determine_parameter_format(&DatabaseDialect::PostgreSQL, 9), "$9");
    assert_eq!(determine_parameter_format(&DatabaseDialect::PostgreSQL, 10), "$10");
    assert_eq!(determine_parameter_format(&DatabaseDialect::Oracle, 1203), ":1203");
    assert_eq!(determine_parameter_format(&DatabaseDialect::Oracle, 4294967295), ":4294967295");
}

#[test]
fn indentation_is_level_times_width() {
    assert_eq!(generate_indentation(0, ' ', 4), "");
    assert_eq!(generate_indentation(3, ' ', 0), "");
    assert_eq!(generate_indentation(2, '-', 3), "------");
    assert_eq!(generate_indentation(1, '\t', 1), "\t");
    assert_eq!(generate_indentation(70000, 'x', 3).len(), 210000);
}

#[test]
fn indent_space_is_two_per_level() {
    assert_eq!(indent_space(0), "");
    assert_eq!(indent_space(1), "  ");
    assert_eq!(indent_space(3), "      ");
}

#[test]
fn builder_errors_are_distinct() {
    assert_ne!(BuilderError::NoParent, BuilderError::ArityMismatch);
}
