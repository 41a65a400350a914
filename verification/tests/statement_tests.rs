use nvcore::sqlbuilder::{
    BuilderError, DatabaseDialect, FromTable, FromTableStatement, GroupByStatement, JoinStatement,
    NvSelect, OrderByStatement, RecordKey, SortType, SqlAggregateFunction, SqlOperator,
    WhereStatement,
};

fn st(text: &str) -> String {
    text.to_string()
}

fn column(select: NvSelect<i64>, name: &str, table: &str, alias: &str) -> NvSelect<i64> {
    select.f(st(name), Some(st(table)), Some(st(alias)), SqlAggregateFunction::NoAggregate, false)
}

fn bare(select: NvSelect<i64>, name: &str) -> NvSelect<i64> {
    select.f(st(name), None, None, SqlAggregateFunction::NoAggregate, false)
}

fn from_table(select: NvSelect<i64>, table: &str, alias: Option<&str>) -> NvSelect<i64> {
    select
        .from()
        .add_table_with_alias(&st(table), &alias.map(st))
        .end_from_table_block()
        .ok()
        .unwrap()
}

fn eq(clause: WhereStatement<i64>, field: &str, value: i64) -> WhereStatement<i64> {
    clause.add_condition(&st(field), &SqlOperator::Equal, vec![value]).ok().unwrap()
}

#[test]
fn two_fields_one_table_two_conditions() {
    let select = NvSelect::<i64>::new(DatabaseDialect::PostgreSQL);
    let select = column(select, "x", "a", "x");
    let select = column(select, "y", "a", "y");
    let select = from_table(select, "t", Some("a"));
    let clause = eq(select.where_clause(), "a.x", 10).and();
    let select = eq(clause, "a.y", 20).end_where_block().ok().unwrap();
    assert_eq!(
        select.generate_query(false),
        "SELECT a.x AS x, a.y AS y FROM t AS a WHERE a.x = $1 AND a.y = $2"
    );
    assert_eq!(select.values(), &vec![10, 20]);
    assert_eq!(select.get_current_param_index(), 3);
}

#[test]
fn the_other_dialect_writes_colons() {
    let select = NvSelect::<i64>::new(DatabaseDialect::Oracle);
    let select = from_table(bare(select, "x"), "t", None);
    let clause = eq(select.where_clause(), "x", 1).or();
    let select = eq(clause, "y", 2).end_where_block().ok().unwrap();
    assert_eq!(select.generate_query(false), "SELECT x FROM t WHERE x = :1 OR y = :2");
    assert_eq!(select.dialect(), DatabaseDialect::Oracle);
}

#[test]
fn subquery_in_where_continues_the_numbering() {
    let select = NvSelect::<i64>::new(DatabaseDialect::PostgreSQL);
    let select = from_table(column(select, "x", "a", "x"), "t", Some("a"));
    let outer = eq(select.where_clause(), "a.x", 100).and();
    assert_eq!(outer.get_current_parameter_index(), 2);
    let nested = outer.add_subquery(st("a.id"), SqlOperator::In, st("sq"));
    assert_eq!(nested.get_current_param_index(), 2);
    assert_eq!(nested.get_block_level(), 2);
    assert_eq!(nested.table_alias(), "sq");
    let nested = from_table(column(nested, "id", "b", "id"), "u", Some("b"));
    let nested = eq(nested.where_clause(), "b.z", 200).end_where_block().ok().unwrap();
    assert_eq!(nested.get_current_param_index(), 3);
    let outer = nested.end_subquery_inside_where_condition().ok().unwrap();
    assert_eq!(outer.get_current_parameter_index(), 3);
    let outer = eq(outer.and(), "a.y", 300);
    assert_eq!(outer.get_current_parameter_index(), 4);
    assert_eq!(outer.values(), &vec![100, 200, 300]);
    let select = outer.end_where_block().ok().unwrap();
    assert_eq!(
        select.generate_query(false),
        "SELECT a.x AS x FROM t AS a WHERE a.x = $1 AND a.id IN (SELECT b.id AS id FROM u AS b \
         WHERE b.z = $2) AS sq  AND a.y = $3"
    );
    assert_eq!(select.values(), &vec![100, 200, 300]);
    assert_eq!(select.get_current_param_index(), 4);
}

#[test]
fn counter_is_one_plus_the_sum_of_the_arities() {
    let clause = NvSelect::<i64>::new(DatabaseDialect::PostgreSQL).where_clause();
    let clause = eq(clause, "a", 1).and();
    let clause = clause.add_condition_between(&st("b"), 2, 3).and();
    let clause = clause.add_condition_in(&st("c"), vec![4, 5, 6]).and();
    let clause = clause.add_condition_in(&st("d"), vec![]).and();
    let clause = clause
        .add_condition(&st("e"), &SqlOperator::Between, vec![7, 8])
        .ok()
        .unwrap();
    assert_eq!(clause.get_current_parameter_index(), 1 + 1 + 2 + 3 + 0 + 2);
    assert_eq!(clause.values().len(), 8);
    assert_eq!(clause.values(), &vec![1, 2, 3, 4, 5, 6, 7, 8]);
    assert_eq!(
        clause.generate_query(false, true),
        "WHERE a = $1 AND b BETWEEN $2 AND $3 AND c IN ($4, $5, $6) AND d IN () AND e BETWEEN $7 \
         AND $8"
    );
}

#[test]
fn in_without_values_binds_nothing() {
    let clause = NvSelect::<i64>::new(DatabaseDialect::PostgreSQL).where_clause();
    let clause = clause.add_condition_in(&st("a.x"), vec![]);
    assert_eq!(clause.generate_query(false, false), "a.x IN ()");
    assert_eq!(clause.get_current_parameter_index(), 1);
    assert!(clause.values().is_empty());
    let clause = eq(clause.and(), "a.y", 5);
    assert_eq!(clause.generate_query(false, false), "a.x IN () AND a.y = $1");
}

#[test]
fn between_binds_two_neighbours() {
    let clause = NvSelect::<i64>::new(DatabaseDialect::PostgreSQL).where_clause();
    let clause = eq(clause, "k", 0).and().add_condition_between(&st("field"), 10, 20);
    assert_eq!(clause.generate_query(false, false), "k = $1 AND field BETWEEN $2 AND $3");
    assert_eq!(clause.get_current_parameter_index(), 4);
    assert_eq!(clause.values(), &vec![0, 10, 20]);
    let other = NvSelect::<i64>::new(DatabaseDialect::Oracle).where_clause();
    let other = other.add_condition(&st("field"), &SqlOperator::Between, vec![1, 2]).ok().unwrap();
    assert_eq!(other.generate_query(false, false), "field BETWEEN :1 AND :2");
}

#[test]
fn wrong_number_of_values_is_turned_down() {
    let one = NvSelect::<i64>::new(DatabaseDialect::PostgreSQL).where_clause();
    assert_eq!(
        one.add_condition(&st("f"), &SqlOperator::Between, vec![1]).err().map(|e| e.error),
        Some(BuilderError::ArityMismatch)
    );
    let three = NvSelect::<i64>::new(DatabaseDialect::PostgreSQL).where_clause();
    assert_eq!(
        three.add_condition(&st("f"), &SqlOperator::Between, vec![1, 2, 3]).err().map(|e| e.error),
        Some(BuilderError::ArityMismatch)
    );
    let none = NvSelect::<i64>::new(DatabaseDialect::PostgreSQL).where_clause();
    assert_eq!(
        none.add_condition(&st("f"), &SqlOperator::Equal, vec![]).err().map(|e| e.error),
        Some(BuilderError::ArityMismatch)
    );
    let two = NvSelect::<i64>::new(DatabaseDialect::PostgreSQL).where_clause();
    assert_eq!(
        two.add_condition(&st("f"), &SqlOperator::Like, vec![1, 2]).err().map(|e| e.error),
        Some(BuilderError::ArityMismatch)
    );
    let list = NvSelect::<i64>::new(DatabaseDialect::PostgreSQL).where_clause();
    let list = list.add_condition(&st("f"), &SqlOperator::In, vec![]).ok().unwrap();
    assert_eq!(list.generate_query(false, false), "f IN ()");
}

#[test]
fn closing_without_parent_is_an_error() {
    let d = DatabaseDialect::PostgreSQL;
    assert_eq!(
        NvSelect::<i64>::new(d).end_subquery_inside_from().err().map(|e| e.error),
        Some(BuilderError::NoParent)
    );
    assert_eq!(
        NvSelect::<i64>::new(d).end_subquery_inside_where_condition().err().map(|e| e.error),
        Some(BuilderError::NoParent)
    );
    assert_eq!(
        WhereStatement::<i64>::new(d).end_where_block().err().map(|e| e.error),
        Some(BuilderError::NoParent)
    );
    assert_eq!(
        GroupByStatement::<i64>::new().end_group_by_block().err().map(|e| e.error),
        Some(BuilderError::NoParent)
    );
    assert_eq!(
        OrderByStatement::<i64>::new().end_order_by_block().err().map(|e| e.error),
        Some(BuilderError::NoParent)
    );
    let nested_in_from = NvSelect::<i64>::new(d).from().begin_subquery(st("q"));
    assert_eq!(
        nested_in_from.end_subquery_inside_where_condition().err().map(|e| e.error),
        Some(BuilderError::NoParent)
    );
    let nested_in_where =
        NvSelect::<i64>::new(d).where_clause().add_subquery(st("f"), SqlOperator::In, st("q"));
    assert_eq!(
        nested_in_where.end_subquery_inside_from().err().map(|e| e.error),
        Some(BuilderError::NoParent)
    );
}

#[test]
fn a_refused_condition_gives_clause_and_values_back() {
    let clause = eq(NvSelect::<i64>::new(DatabaseDialect::PostgreSQL).where_clause(), "a", 1);
    let refused = clause.add_condition(&st("b"), &SqlOperator::Between, vec![7]).err().unwrap();
    assert_eq!(refused.error, BuilderError::ArityMismatch);
    let (clause, values) = refused.handle;
    assert_eq!(values, vec![7]);
    assert_eq!(clause.generate_query(false, false), "a = $1");
    assert_eq!(clause.get_current_parameter_index(), 2);
    assert_eq!(clause.values(), &vec![1]);
    assert!(clause.has_parent());
    let clause = clause.and().add_condition_between(&st("b"), values[0], 9);
    let select = clause.end_where_block().ok().unwrap();
    assert_eq!(select.generate_query(false), "SELECT  WHERE a = $1 AND b BETWEEN $2 AND $3");
    assert_eq!(select.values(), &vec![1, 7, 9]);
}

#[test]
fn a_refused_closing_gives_the_handle_back() {
    let d = DatabaseDialect::PostgreSQL;
    let select = bare(NvSelect::<i64>::new(d), "x");
    assert!(!select.has_from_parent());
    assert!(!select.has_where_parent());
    let refused = select.end_subquery_inside_from().err().unwrap();
    assert_eq!(refused.error, BuilderError::NoParent);
    let refused = refused.handle.end_subquery_inside_where_condition().err().unwrap();
    assert_eq!(refused.error, BuilderError::NoParent);
    let select = refused.handle;
    assert_eq!(select.generate_query(false), "SELECT x");
    let clause = eq(WhereStatement::<i64>::new(d), "a", 5);
    assert!(!clause.has_parent());
    let clause = clause.end_where_block().err().unwrap().handle;
    assert_eq!(clause.generate_query(false, true), "WHERE a = $1");
    assert_eq!(clause.values(), &vec![5]);
    let group = GroupByStatement::<i64>::new().field(st("g"), None);
    assert!(!group.has_parent());
    let group = group.end_group_by_block().err().unwrap().handle;
    assert_eq!(group.generate_query(false), "g");
    let order = OrderByStatement::<i64>::new().asc(st("o"), None, true);
    assert!(!order.has_parent());
    let order = order.end_order_by_block().err().unwrap().handle;
    assert_eq!(order.generate_query(false), "o ASC");
}

#[test]
fn parent_links_are_reported() {
    let d = DatabaseDialect::PostgreSQL;
    let from = NvSelect::<i64>::new(d).from();
    assert!(from.has_parent());
    let nested = from.begin_subquery(st("q"));
    assert!(nested.has_from_parent());
    assert!(!nested.has_where_parent());
    let refused = nested.end_subquery_inside_where_condition().err().unwrap();
    assert_eq!(refused.error, BuilderError::NoParent);
    let from = refused.handle.end_subquery_inside_from().ok().unwrap();
    assert_eq!(from.generate_query(false), "(SELECT ) AS q");
    let select = from.end_from_table_block().ok().unwrap();
    let clause = select.where_clause();
    assert!(clause.has_parent());
    let nested = clause.add_subquery(st("f"), SqlOperator::In, st(""));
    assert!(nested.has_where_parent());
    assert!(!nested.has_from_parent());
    let select = nested
        .end_subquery_inside_where_condition()
        .ok()
        .unwrap()
        .end_where_block()
        .ok()
        .unwrap();
    let joins = select.join();
    assert!(joins.has_parent());
    let select = joins.end_join_block().ok().unwrap();
    assert!(select.group_by().has_parent());
}

#[test]
fn one_line_form_has_no_line_break() {
    let d = DatabaseDialect::PostgreSQL;
    let select = bare(NvSelect::<i64>::new(d), "x");
    let nested = from_table(bare(select.from().begin_subquery(st("q")), "y"), "u", None);
    let deeper = from_table(bare(nested.from().begin_subquery(st("r")), "z"), "v", None);
    let nested = deeper
        .end_subquery_inside_from()
        .ok()
        .unwrap()
        .end_from_table_block()
        .ok()
        .unwrap();
    let select = nested
        .end_subquery_inside_from()
        .ok()
        .unwrap()
        .end_from_table_block()
        .ok()
        .unwrap();
    let select = select
        .join()
        .inner_join(key("t", "id", "a"), key("u", "tid", "b"))
        .end_join_block()
        .ok()
        .unwrap();
    let clause = eq(select.where_clause(), "a", 1).and();
    let inner = bare(clause.add_subquery(st("b"), SqlOperator::In, st("s")), "k");
    let inner = eq(inner.where_clause(), "c", 2).end_where_block().ok().unwrap();
    let select = inner
        .end_subquery_inside_where_condition()
        .ok()
        .unwrap()
        .end_where_block()
        .ok()
        .unwrap();
    let select = select.group_by().field(st("g"), None).end_group_by_block().ok().unwrap();
    let select = select.order_by().asc(st("o"), None, true).end_order_by_block().ok().unwrap();
    let compact = select.generate_query(false);
    assert_eq!(
        compact,
        "SELECT x FROM (SELECT y FROM u, (SELECT z FROM v) AS r) AS q INNER JOIN u AS b ON a.id = \
         b.tid WHERE a = $1 AND b IN (SELECT k WHERE c = $2) AS s  GROUP BY g ORDER BY o ASC"
    );
    assert!(!compact.contains('\n'));
    assert!(select.generate_query(true).contains('\n'));
}

#[test]
fn rendering_twice_gives_the_same_text() {
    let select = NvSelect::<i64>::new(DatabaseDialect::PostgreSQL);
    let select = from_table(column(select, "x", "a", "x"), "t", Some("a"));
    let select = eq(select.where_clause(), "a.x", 1).end_where_block().ok().unwrap();
    let first = select.generate_query(false);
    let second = select.generate_query(false);
    assert_eq!(first, second);
    let third = select.generate_query(true);
    let fourth = select.generate_query(true);
    assert_eq!(third, fourth);
    assert_ne!(first, third);
}

#[test]
fn indented_form_of_a_flat_statement() {
    let select = NvSelect::<i64>::new(DatabaseDialect::PostgreSQL);
    let select = column(select, "field1", "t", "f1");
    let select = column(select, "field2", "t", "f2");
    let select = from_table(select, "table", Some("a"));
    let clause = eq(select.where_clause(), "a.field1", 1).or();
    let select = eq(clause, "a.field2", 2).end_where_block().ok().unwrap();
    assert_eq!(
        select.generate_query(true),
        "SELECT \n  t.field1 AS f1,\n  t.field2 AS f2\nFROM \n  table AS a\nWHERE\n  a.field1 = $1 \
         OR a.field2 = $2"
    );
}

#[test]
fn degenerate_statements_still_render() {
    let empty = NvSelect::<i64>::new(DatabaseDialect::PostgreSQL);
    assert_eq!(empty.generate_query(false), "SELECT ");
    assert_eq!(empty.generate_query(true), "SELECT \n");
    assert!(empty.values().is_empty());
    assert_eq!(empty.get_current_param_index(), 1);
    assert_eq!(empty.get_block_level(), 0);
    assert_eq!(empty.table_alias(), "");
    let empty_from = bare(NvSelect::<i64>::new(DatabaseDialect::PostgreSQL), "x")
        .from()
        .end_from_table_block()
        .ok()
        .unwrap();
    assert_eq!(empty_from.generate_query(false), "SELECT x");
    assert_eq!(empty_from.generate_query(true), "SELECT \n  x");
    let unbalanced = NvSelect::<i64>::new(DatabaseDialect::PostgreSQL)
        .where_clause()
        .end_group()
        .start_group()
        .start_group();
    assert_eq!(unbalanced.generate_query(false, true), "WHERE )((");
}

#[test]
fn groups_and_connectors() {
    let clause = NvSelect::<i64>::new(DatabaseDialect::PostgreSQL).where_clause().start_group();
    let clause = eq(clause, "a", 1).or();
    let clause = eq(clause, "b", 2).end_group().and();
    let clause = clause.add_condition(&st("c"), &SqlOperator::Greater, vec![3]).ok().unwrap();
    assert_eq!(clause.generate_query(false, false), "(a = $1 OR b = $2) AND c > $3");
}

#[test]
fn where_clause_is_reopened_with_the_counter_of_the_statement() {
    let select = NvSelect::<i64>::new(DatabaseDialect::PostgreSQL);
    let select = eq(select.where_clause(), "a", 1).end_where_block().ok().unwrap();
    let select = select.fn_dynamic(st("f"), st("v"), vec![2], vec![], None);
    assert_eq!(select.get_current_param_index(), 3);
    let clause = eq(select.where_clause().and(), "b", 3);
    assert_eq!(clause.get_current_parameter_index(), 4);
    let select = clause.end_where_block().ok().unwrap();
    assert_eq!(select.generate_query(false), "SELECT f($2) WHERE a = $1 AND b = $3");
    assert_eq!(select.values(), &vec![1, 2, 3]);
}

#[test]
fn function_fields() {
    let select = NvSelect::<i64>::new(DatabaseDialect::PostgreSQL);
    let select = select.fn_static(st("now"), vec![], Some(st("t")));
    let select = select.fn_dynamic(
        st("substr"),
        st("svv"),
        vec![1, 5, 99],
        vec![st("a.name")],
        Some(st("head")),
    );
    assert_eq!(select.get_current_param_index(), 3);
    assert_eq!(select.values(), &vec![1, 5]);
    let select = select.field(
        st("x"),
        Some(st("a")),
        None,
        SqlAggregateFunction::Count,
        false,
    );
    assert_eq!(
        select.generate_query(false),
        "SELECT now() AS t, substr(a.name, $1, $2) AS head, COUNT(a.x)"
    );
    let select = eq(select.where_clause(), "a.y", 7).end_where_block().ok().unwrap();
    assert_eq!(
        select.generate_query(false),
        "SELECT now() AS t, substr(a.name, $1, $2) AS head, COUNT(a.x) WHERE a.y = $3"
    );
    assert_eq!(select.values(), &vec![1, 5, 7]);
}

#[test]
fn subquery_in_from_continues_the_numbering() {
    let select = bare(NvSelect::<i64>::new(DatabaseDialect::PostgreSQL), "x");
    let select = eq(select.where_clause(), "x", 1).end_where_block().ok().unwrap();
    let from = select.from().add_table(FromTable::with_alias(st("t"), Some(st("a"))));
    assert!(!from.is_empty());
    assert_eq!(from.get_current_parameter_index(), 2);
    let nested = from.begin_subquery(st("sub"));
    assert_eq!(nested.get_block_level(), 1);
    assert_eq!(nested.get_current_param_index(), 2);
    let nested = from_table(bare(nested, "id"), "u", None);
    let nested = nested
        .where_clause()
        .add_condition(&st("id"), &SqlOperator::Greater, vec![2])
        .ok()
        .unwrap()
        .end_where_block()
        .ok()
        .unwrap();
    let from = nested.end_subquery_inside_from().ok().unwrap();
    assert_eq!(from.get_current_parameter_index(), 3);
    assert_eq!(from.generate_query(false), "t AS a, (SELECT id FROM u WHERE id > $2) AS sub");
    let from = from.add_table_with_alias(&st("v"), &None);
    let select = from.end_from_table_block().ok().unwrap();
    let select = eq(select.where_clause().and(), "y", 3).end_where_block().ok().unwrap();
    assert_eq!(
        select.generate_query(false),
        "SELECT x FROM t AS a, (SELECT id FROM u WHERE id > $2) AS sub, v WHERE x = $1 AND y = $3"
    );
    assert_eq!(select.values(), &vec![1, 2, 3]);
    assert_eq!(select.get_current_param_index(), 4);
}

#[test]
fn indented_form_of_a_nested_statement() {
    let select = bare(NvSelect::<i64>::new(DatabaseDialect::PostgreSQL), "x");
    let nested = select.from().begin_subquery(st(""));
    let nested = from_table(bare(nested, "id"), "u", None);
    let select = nested
        .end_subquery_inside_from()
        .ok()
        .unwrap()
        .end_from_table_block()
        .ok()
        .unwrap();
    assert_eq!(
        select.generate_query(true),
        "SELECT \n  x\nFROM \n  (\n  SELECT \n    id\n  FROM \n    u)"
    );
    assert_eq!(select.generate_query(false), "SELECT x FROM (SELECT id FROM u)");
}

#[test]
fn from_helpers_render_a_given_statement() {
    let d = DatabaseDialect::PostgreSQL;
    let from: FromTableStatement<i64> = NvSelect::new(d).from();
    let other = bare(NvSelect::<i64>::new(d).from().begin_subquery(st("q")), "k");
    assert_eq!(from.generate_select_block(&other), "SELECT k");
    assert_eq!(from.generate_select_query(&other, true), "  SELECT \n    k");
    assert_eq!(from.get_table_alias_from_parent(&other), "q");
    assert!(from.is_empty());
    assert_eq!(from.generate_query(false), "");
}

fn key(table: &str, field: &str, alias: &str) -> RecordKey {
    RecordKey::with_alias(st(table), st(field), Some(st(alias)))
}

#[test]
fn join_blocks_follow_the_from_clause() {
    let select = column(NvSelect::new(DatabaseDialect::PostgreSQL), "x", "a", "x");
    let select = from_table(select, "t", Some("a"));
    let joins: JoinStatement<i64> = select.join();
    assert!(joins.is_empty());
    let joins = joins
        .inner_join(key("t", "id", "a"), key("u", "tid", "b"))
        .left_join(key("t", "id", "a"), key("v", "tid", "c"));
    assert!(!joins.is_empty());
    assert_eq!(joins.get_join_clauses().len(), 2);
    assert_eq!(
        joins.generate_query(false),
        "INNER JOIN u AS b ON a.id = b.tid LEFT JOIN v AS c ON a.id = c.tid"
    );
    let select = joins.end_join_block().ok().unwrap();
    let select = eq(select.where_clause(), "a.x", 1).end_where_block().ok().unwrap();
    assert_eq!(
        select.generate_query(false),
        "SELECT a.x AS x FROM t AS a INNER JOIN u AS b ON a.id = b.tid LEFT JOIN v AS c ON a.id = \
         c.tid WHERE a.x = $1"
    );
    assert_eq!(
        select.generate_query(true),
        "SELECT \n  a.x AS x\nFROM \n  t AS a\nINNER JOIN\n  u AS b ON\n    a.id = b.tid\nLEFT \
         JOIN\n  v AS c ON\n    a.id = c.tid\nWHERE\n  a.x = $1"
    );
}

#[test]
fn several_join_blocks_are_separated_like_joins() {
    let select = bare(NvSelect::<i64>::new(DatabaseDialect::PostgreSQL), "x");
    let select = select
        .join()
        .right_join(key("t", "id", "a"), key("u", "tid", "b"))
        .end_join_block()
        .ok()
        .unwrap();
    let select = select
        .join()
        .inner_join_with_query(
            key("t", "id", "a"),
            st("SELECT k FROM w"),
            st("k"),
            Some(st("q")),
            SqlOperator::Equal,
        )
        .end_join_block()
        .ok()
        .unwrap();
    assert_eq!(
        select.generate_query(false),
        "SELECT x RIGHT JOIN u AS b ON a.id = b.tid INNER JOIN (SELECT k FROM w)  AS q ON a.id = \
         q.k"
    );
    assert_eq!(
        select.generate_query(true),
        "SELECT \n  x\nRIGHT JOIN u AS b ON a.id = b.tid\nINNER JOIN (SELECT k FROM w)  AS q ON \
         a.id = q.k"
    );
    assert_eq!(select.get_current_param_index(), 1);
}

#[test]
fn joins_with_a_statement_given_as_text() {
    let joins = NvSelect::<i64>::new(DatabaseDialect::PostgreSQL).join();
    let joins = joins.left_join_with_query(
        key("t", "id", "a"),
        st("SELECT k FROM w"),
        st("k"),
        st("q"),
        SqlOperator::Less,
    );
    assert_eq!(joins.generate_query(false), "LEFT JOIN (SELECT k FROM w)  AS q ON q.k < a.id");
    let joins = joins.right_join_with_query(
        key("t", "id", "a"),
        st("SELECT k FROM w"),
        st("k"),
        None,
        SqlOperator::NotEqual,
    );
    assert_eq!(
        joins.generate_query(true),
        "LEFT JOIN (SELECT k FROM w)  AS q ON q.k < a.id\nRIGHT JOIN (SELECT k FROM w)  ON a.id \
         != k"
    );
    let other = bare(NvSelect::<i64>::new(DatabaseDialect::PostgreSQL), "z");
    assert_eq!(joins.generate_select_block(&other), "SELECT z");
}

#[test]
fn group_by_and_order_by() {
    let select = column(NvSelect::new(DatabaseDialect::PostgreSQL), "x", "a", "x");
    let select = from_table(select, "t", Some("a"));
    let group = select.group_by().field(st("x"), Some(st("a"))).field(st("y"), None);
    assert_eq!(group.generate_query(false), "a.x, y");
    assert_eq!(group.current_parameter_index(), 1);
    let select = group.end_group_by_block().ok().unwrap();
    let order = select
        .order_by()
        .asc(st("x"), Some(st("a")), true)
        .desc(st("y"), None, true)
        .asc(st("z"), None, false)
        .sort_by(st("w"), Some(st("a")), SortType::Descending, false);
    assert_eq!(order.generate_query(true), "a.x ASC, y DESC, z, a.w");
    let select = order.end_order_by_block().ok().unwrap();
    assert_eq!(
        select.generate_query(false),
        "SELECT a.x AS x FROM t AS a GROUP BY a.x, y ORDER BY a.x ASC, y DESC, z, a.w"
    );
    assert_eq!(
        select.generate_query(true),
        "SELECT \n  a.x AS x\nFROM \n  t AS a\nGROUP BY\n  a.x, y\nORDER BY\n  a.x ASC, y DESC, z, \
         a.w"
    );
    let select = select.group_by().field(st("k"), None).end_group_by_block().ok().unwrap();
    assert_eq!(
        select.generate_query(false),
        "SELECT a.x AS x FROM t AS a GROUP BY a.x, y, k ORDER BY a.x ASC, y DESC, z, a.w"
    );
}

#[test]
fn statement_that_starts_at_a_given_index() {
    let select = NvSelect::<i64>::with_param_index(5, DatabaseDialect::PostgreSQL);
    let select = eq(select.where_clause(), "a", 1).end_where_block().ok().unwrap();
    assert_eq!(select.generate_query(false), "SELECT  WHERE a = $5");
    assert_eq!(select.get_current_param_index(), 6);
    assert_eq!(select.values(), &vec![1]);
    let carried = NvSelect::<i64>::new_subquery(vec![7, 8], 3, 1, DatabaseDialect::Oracle);
    let carried = eq(carried.where_clause(), "b", 9).end_where_block().ok().unwrap();
    assert_eq!(carried.generate_query(false), "SELECT  WHERE b = :3");
    assert_eq!(carried.values(), &vec![7, 8, 9]);
    assert_eq!(carried.get_block_level(), 1);
}

#[test]
fn counters_can_be_set_by_hand() {
    let mut select = NvSelect::<i64>::new(DatabaseDialect::PostgreSQL);
    select.update_current_param_index(40);
    assert_eq!(select.get_current_param_index(), 40);
    let mut clause = WhereStatement::<i64>::new(DatabaseDialect::PostgreSQL);
    assert_eq!(clause.get_current_parameter_index(), 1);
    clause.update_current_parameter_index(9);
    assert_eq!(clause.get_current_parameter_index(), 9);
    let mut from = NvSelect::<i64>::new(DatabaseDialect::PostgreSQL).from();
    from.update_current_parameter_index(3);
    assert_eq!(from.get_current_parameter_index(), 3);
}

#[test]
fn nested_twice() {
    let outer = eq(NvSelect::<i64>::new(DatabaseDialect::PostgreSQL).where_clause(), "a", 1).and();
    let middle = outer.add_subquery(st("b"), SqlOperator::In, st(""));
    let middle_clause = eq(bare(middle, "m").where_clause(), "c", 2).and();
    let inner = middle_clause.add_subquery(st("d"), SqlOperator::Equal, st("i"));
    assert_eq!(inner.get_block_level(), 4);
    let inner = eq(bare(inner, "n").where_clause(), "e", 3).end_where_block().ok().unwrap();
    let middle_clause = inner.end_subquery_inside_where_condition().ok().unwrap();
    let middle = eq(middle_clause.and(), "f", 4).end_where_block().ok().unwrap();
    let outer = middle.end_subquery_inside_where_condition().ok().unwrap();
    let outer = eq(outer.and(), "g", 5);
    assert_eq!(outer.values(), &vec![1, 2, 3, 4, 5]);
    assert_eq!(
        outer.generate_query(false, false),
        "a = $1 AND b IN (SELECT m WHERE c = $2 AND d = (SELECT n WHERE e = $3) AS i  AND f = $4)  \
         AND g = $5"
    );
}
