use nvcore::sqlbuilder::def::{aggregate_function_to_string, push_placeholder};
use nvcore::sqlbuilder::{
    DatabaseDialect, FromTableStatement, GroupByStatement, NvSelect, OrderByStatement,
    SqlAggregateFunction, SqlOperator, WhereStatement,
};
use nvcore::utils::strings::{push_decimal, push_indent, push_repeated};

fn word(text: &str) -> String {
    text.to_string()
}

#[test]
fn decimal_notation() {
    let mut out = word("n=");
    push_decimal(&mut out, 0);
    assert_eq!(out, "n=0");
    push_decimal(&mut out, 7);
    assert_eq!(out, "n=07");
    let mut big = String::new();
    push_decimal(&mut big, 1000);
    assert_eq!(big, "1000");
    let mut largest = String::new();
    push_decimal(&mut largest, u128::MAX);
    assert_eq!(largest, "340282366920938463463374607431768211455");
}

#[test]
fn repeated_characters_and_indentation() {
    let mut out = word("|");
    push_repeated(&mut out, '-', 3);
    assert_eq!(out, "|---");
    push_repeated(&mut out, '+', 0);
    assert_eq!(out, "|---");
    push_indent(&mut out, 2);
    assert_eq!(out, "|---    ");
    push_indent(&mut out, 0);
    assert_eq!(out, "|---    ");
}

#[test]
fn placeholders_are_appended() {
    let mut out = word("x = ");
    push_placeholder(&mut out, DatabaseDialect::PostgreSQL, 42);
    assert_eq!(out, "x = $42");
    push_placeholder(&mut out, DatabaseDialect::Oracle, 4294967296);
    assert_eq!(out, "x = $42:4294967296");
}

#[test]
fn aggregate_keywords() {
    assert_eq!(aggregate_function_to_string(SqlAggregateFunction::Distinct), "DISTINCT");
    assert_eq!(aggregate_function_to_string(SqlAggregateFunction::Count), "COUNT");
    assert_eq!(aggregate_function_to_string(SqlAggregateFunction::Avg), "AVG");
    assert_eq!(aggregate_function_to_string(SqlAggregateFunction::Sum), "SUM");
    assert_eq!(aggregate_function_to_string(SqlAggregateFunction::ToUpper), "TO_UPPER");
    assert_eq!(aggregate_function_to_string(SqlAggregateFunction::ToLower), "TO_LOWER");
    assert_eq!(aggregate_function_to_string(SqlAggregateFunction::NoAggregate), "");
    assert_eq!(aggregate_function_to_string(SqlAggregateFunction::ToIso8601Time), "");
}

#[test]
fn first_and_base_index_of_a_statement() {
    let root = NvSelect::<i64>::new(DatabaseDialect::PostgreSQL);
    assert_eq!(root.first_param_index(), 1);
    assert_eq!(root.base_param_index(), 1);
    let shifted = NvSelect::<i64>::with_param_index(9, DatabaseDialect::PostgreSQL);
    assert_eq!(shifted.first_param_index(), 9);
    assert_eq!(shifted.base_param_index(), 9);
    let carried = NvSelect::<i64>::new_subquery(vec![1, 2], 5, 0, DatabaseDialect::PostgreSQL);
    assert_eq!(carried.first_param_index(), 5);
    assert_eq!(carried.base_param_index(), 3);
    let too_many = NvSelect::<i64>::new_subquery(vec![1, 2, 3], 2, 0, DatabaseDialect::PostgreSQL);
    assert_eq!(too_many.base_param_index(), 0);
    let clause = root
        .where_clause()
        .add_condition(&word("a"), &SqlOperator::Equal, vec![1])
        .ok()
        .unwrap();
    assert_eq!(clause.base_param_index(), 1);
    let nested = clause.add_subquery(word("b"), SqlOperator::In, word("q"));
    assert_eq!(nested.first_param_index(), 2);
    assert_eq!(nested.base_param_index(), 1);
    let from = nested.from();
    assert_eq!(from.base_parameter_index(), 1);
    assert_eq!(from.get_current_parameter_index(), 2);
}

#[test]
fn clauses_made_for_a_given_statement() {
    let d = DatabaseDialect::PostgreSQL;
    let carried = NvSelect::<i64>::new_subquery(vec![], 2, 0, d);
    let clause = WhereStatement::new_with_parent(vec![7], carried, 2, 0, d);
    assert_eq!(clause.get_current_parameter_index(), 2);
    assert_eq!(clause.base_param_index(), 2);
    assert_eq!(clause.values(), &vec![7]);
    assert_eq!(clause.generate_query(false, true), "WHERE ");
    let clause = WhereStatement::new_with_parent(vec![], NvSelect::<i64>::new(d), 1, 0, d);
    let select = clause.end_where_block().ok().unwrap();
    assert_eq!(select.generate_query(false), "SELECT  WHERE ");
    assert_eq!(select.get_current_param_index(), 1);
    let from = FromTableStatement::new(vec![], NvSelect::<i64>::new(d), 1, 0, d);
    assert!(from.is_empty());
    let select = from.end_from_table_block().ok().unwrap();
    assert_eq!(select.generate_query(false), "SELECT ");
    let group = GroupByStatement::new_with_parent(NvSelect::<i64>::new(d), 1, 0);
    let select = group.field(word("a"), None).end_group_by_block().ok().unwrap();
    assert_eq!(select.generate_query(false), "SELECT  GROUP BY a");
    let order = OrderByStatement::new_with_parent(NvSelect::<i64>::new(d), 0);
    let select = order.desc(word("a"), None, true).end_order_by_block().ok().unwrap();
    assert_eq!(select.generate_query(false), "SELECT  ORDER BY a DESC");
}

#[test]
fn statements_made_for_a_given_clause() {
    let d = DatabaseDialect::PostgreSQL;
    let from = NvSelect::<i64>::new(d).from();
    let nested = NvSelect::new_subquery_from(vec![], 1, 1, from, word("n"), d);
    assert_eq!(nested.table_alias(), "n");
    assert_eq!(nested.get_block_level(), 1);
    let from = nested.end_subquery_inside_from().ok().unwrap();
    assert_eq!(from.generate_query(false), "(SELECT ) AS n");
    let waiting = NvSelect::<i64>::new(d).where_clause();
    let nested = waiting.add_subquery(word("f"), SqlOperator::Equal, word("m"));
    let waiting = nested.end_subquery_inside_where_condition().ok().unwrap();
    assert_eq!(waiting.generate_query(false, false), "f = (SELECT ) AS m ");
    let nested = waiting.add_subquery(word("g"), SqlOperator::Equal, word(""));
    let remade =
        NvSelect::new_subquery_where(vec![], nested.where_clause(), 1, 4, word("deep"), d);
    assert_eq!(remade.get_block_level(), 4);
    assert_eq!(remade.table_alias(), "deep");
}

#[test]
fn indented_form_of_a_statement_nested_in_where() {
    let d = DatabaseDialect::PostgreSQL;
    let outer = NvSelect::<i64>::new(d)
        .f(word("x"), None, None, SqlAggregateFunction::NoAggregate, false)
        .where_clause();
    let nested = outer.add_subquery(word("x"), SqlOperator::In, word(""));
    let nested = nested.f(word("y"), None, None, SqlAggregateFunction::NoAggregate, false);
    let nested = nested
        .where_clause()
        .add_condition(&word("y"), &SqlOperator::Less, vec![3])
        .ok()
        .unwrap()
        .end_where_block()
        .ok()
        .unwrap();
    let select = nested
        .end_subquery_inside_where_condition()
        .ok()
        .unwrap()
        .end_where_block()
        .ok()
        .unwrap();
    assert_eq!(select.generate_query(false), "SELECT x WHERE x IN (SELECT y WHERE y < $1) ");
    assert_eq!(
        select.generate_query(true),
        "SELECT \n  x\nWHERE\n  x IN (    SELECT \n      y\n    WHERE\n      y < $1) "
    );
}
