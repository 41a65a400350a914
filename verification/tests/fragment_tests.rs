use nvcore::sqlbuilder::{
    Condition, ConditionMode, DatabaseDialect, FieldDef, FieldDefMode, FromTable, GroupByClause,
    GroupByMode, JoinDef, JoinDefMode, LogicOperator, BuilderError, NvSelect, OrderByClause,
    RecordKey, SortType, SqlAggregateFunction, SqlJoinType, SqlOperator,
};

fn txt(text: &str) -> String {
    text.to_string()
}

fn plain(
    aggregate: SqlAggregateFunction,
    table_alias: Option<&str>,
    alias: Option<&str>,
) -> FieldDef {
    FieldDef::new_field_def(
        DatabaseDialect::PostgreSQL,
        txt("x"),
        table_alias.map(txt),
        false,
        aggregate,
        alias.map(txt),
        0,
        FieldDefMode::FieldRaw,
    )
}

#[test]
fn plain_field_texts() {
    assert_eq!(plain(SqlAggregateFunction::NoAggregate, None, None).generate_query(), "x");
    assert_eq!(plain(SqlAggregateFunction::NoAggregate, Some("a"), None).generate_query(), "a.x");
    assert_eq!(
        plain(SqlAggregateFunction::NoAggregate, Some("a"), Some("y")).generate_query(),
        "a.x AS y"
    );
}

#[test]
fn aggregate_field_texts() {
    assert_eq!(
        plain(SqlAggregateFunction::Distinct, Some("a"), Some("y")).generate_query(),
        "DISTINCT a.x AS y"
    );
    assert_eq!(plain(SqlAggregateFunction::Count, Some("a"), None).generate_query(), "COUNT(a.x)");
    assert_eq!(plain(SqlAggregateFunction::Avg, None, Some("m")).generate_query(), "AVG(x) AS m");
    assert_eq!(plain(SqlAggregateFunction::Sum, None, None).generate_query(), "SUM(x)");
    assert_eq!(plain(SqlAggregateFunction::ToUpper, None, None).generate_query(), "TO_UPPER(x)");
    assert_eq!(plain(SqlAggregateFunction::ToLower, None, None).generate_query(), "TO_LOWER(x)");
    assert_eq!(plain(SqlAggregateFunction::ToIso8601Date, None, None).generate_query(), "(x)");
}

#[test]
fn plain_field_getters() {
    let f = FieldDef::new_field_def(
        DatabaseDialect::Oracle,
        txt("x"),
        Some(txt("a")),
        true,
        SqlAggregateFunction::Count,
        Some(txt("n")),
        2,
        FieldDefMode::FieldWType,
    );
    assert_eq!(f.mode(), FieldDefMode::FieldWType);
    assert_eq!(f.field(), "x");
    assert_eq!(f.table_alias(), &Some(txt("a")));
    assert_eq!(f.field_alias(), &Some(txt("n")));
    assert!(f.enclose_field_name());
    assert_eq!(f.aggregate_function(), SqlAggregateFunction::Count);
    assert_eq!(f.function_name(), "");
    assert!(f.static_parameter_values().is_empty());
    assert_eq!(f.get_current_parameter_index(), 0);
}

#[test]
fn static_function_texts() {
    let d = DatabaseDialect::PostgreSQL;
    let none = FieldDef::new_static_function(d, txt("now"), vec![], 0, None);
    assert_eq!(none.generate_query(), "now()");
    assert_eq!(none.mode(), FieldDefMode::FnStaticParameter);
    let two = FieldDef::new_static_function(
        DatabaseDialect::PostgreSQL,
        txt("coalesce"),
        vec![txt("a.x"), txt("0")],
        0,
        Some(txt("v")),
    );
    assert_eq!(two.generate_query(), "coalesce(a.x, 0) AS v");
    assert_eq!(two.function_name(), "coalesce");
    assert_eq!(two.static_parameter_values(), &vec![txt("a.x"), txt("0")]);
}

fn call(format: &str, value_count: usize, statics: Vec<&str>, start: u32) -> FieldDef {
    FieldDef::new_dynamic_function(
        DatabaseDialect::PostgreSQL,
        txt("f"),
        txt(format),
        value_count,
        statics.into_iter().map(txt).collect(),
        start,
        0,
        None,
    )
}

#[test]
fn dynamic_function_binds_in_format_order() {
    let f = call("svv", 2, vec!["a.name"], 3);
    assert_eq!(f.generate_query(), "f(a.name, $3, $4)");
    assert_eq!(f.get_current_parameter_index(), 5);
    assert_eq!(f.mode(), FieldDefMode::FnParameterizedValues);
    let g = call("vsvs", 2, vec!["'a'", "'b'"], 1);
    assert_eq!(g.generate_query(), "f($1, 'a', $2, 'b')");
    assert_eq!(g.get_current_parameter_index(), 3);
}

#[test]
fn dynamic_function_passes_over_what_finds_no_value() {
    let more_marks = call("vvv", 1, vec![], 7);
    assert_eq!(more_marks.generate_query(), "f($7)");
    assert_eq!(more_marks.get_current_parameter_index(), 8);
    let more_values = call("v", 3, vec![], 7);
    assert_eq!(more_values.generate_query(), "f($7)");
    assert_eq!(more_values.get_current_parameter_index(), 8);
    let missing_static = call("svs", 1, vec!["1"], 2);
    assert_eq!(missing_static.generate_query(), "f(1, $2)");
    let leading_gap = call("sv", 1, vec![], 2);
    assert_eq!(leading_gap.generate_query(), "f($2)");
    let other_marks = call("s,v;x", 1, vec!["1"], 2);
    assert_eq!(other_marks.generate_query(), "f(1, $2)");
    let nothing = call("", 2, vec!["1"], 2);
    assert_eq!(nothing.generate_query(), "f()");
    assert_eq!(nothing.get_current_parameter_index(), 2);
}

#[test]
fn dynamic_function_in_the_other_dialect_and_with_alias() {
    let f = FieldDef::new_dynamic_function(
        DatabaseDialect::Oracle,
        txt("nvl"),
        txt("vs"),
        1,
        vec![txt("0")],
        12,
        0,
        Some(txt("r")),
    );
    assert_eq!(f.generate_query(), "nvl(:12, 0) AS r");
}

#[test]
fn bound_value_count_is_the_smaller_number() {
    assert_eq!(FieldDef::bound_value_count("vsv", 5), 2);
    assert_eq!(FieldDef::bound_value_count("vvvv", 3), 3);
    assert_eq!(FieldDef::bound_value_count("sss", 3), 0);
    assert_eq!(FieldDef::bound_value_count("", 3), 0);
    assert_eq!(FieldDef::process_function_parameter_index(10, "vxv", 2), 12);
    assert_eq!(FieldDef::process_function_parameter_index(10, "", 2), 10);
}

#[test]
fn from_table_texts() {
    assert_eq!(FromTable::new().build_table_name(), "");
    assert_eq!(FromTable::with_alias(txt("t"), None).build_table_name(), "t");
    assert_eq!(FromTable::with_alias(txt("t"), Some(txt("a"))).build_table_name(), "t AS a");
}

#[test]
fn record_key_texts() {
    let bare = RecordKey::new();
    assert_eq!(bare.build_field(), ".");
    assert_eq!(bare.build_table_name(), "");
    let plain = RecordKey::with_alias(txt("t"), txt("id"), None);
    assert_eq!(plain.build_field(), "t.id");
    assert_eq!(plain.build_table_name(), "t");
    let aliased = RecordKey::with_alias(txt("t"), txt("id"), Some(txt("a")));
    assert_eq!(aliased.build_field(), "a.id");
    assert_eq!(aliased.build_table_name(), "t AS a");
}

#[test]
fn group_by_clause_texts() {
    let c = GroupByClause::new(txt("x"), Some(txt("a")), GroupByMode::Field, 4, 1);
    assert_eq!(c.generate_query(), "a.x");
    assert_eq!(c.build_fieldname(), "a.x");
    assert_eq!(c.next_parameter_index(), 4);
    assert_eq!(c.field_name(), "x");
    assert_eq!(c.table_alias(), &Some(txt("a")));
    let d = GroupByClause::new(txt("y"), None, GroupByMode::Field, 4, 1);
    assert_eq!(d.generate_query(), "y");
    assert_eq!(GroupByClause::process_next_parameter_index(GroupByMode::RawString, 9), 9);
}

#[test]
fn order_by_clause_texts() {
    let plain = OrderByClause::new(txt("x"), SortType::Ascending, false, 0);
    assert_eq!(plain.generate_query(), "x");
    let up = OrderByClause::new(txt("x"), SortType::Ascending, true, 0);
    assert_eq!(up.generate_query(), "x ASC");
    let down = OrderByClause::new(txt("x"), SortType::Descending, true, 0);
    assert_eq!(down.generate_query(), "x DESC");
    let q = OrderByClause::new_with_alias(txt("x"), Some(txt("a")), SortType::Descending, true, 0);
    assert_eq!(q.generate_query(), "a.x DESC");
    assert_eq!(q.build_fieldname(), "a.x");
    let r = OrderByClause::new_with_alias(txt("x"), Some(txt("a")), SortType::Descending, false, 0);
    assert_eq!(r.generate_query(), "a.x");
}

fn left() -> RecordKey {
    RecordKey::with_alias(txt("t"), txt("id"), Some(txt("a")))
}

fn right() -> RecordKey {
    RecordKey::with_alias(txt("u"), txt("tid"), Some(txt("b")))
}

#[test]
fn record_key_joins_on_one_line() {
    let d = DatabaseDialect::PostgreSQL;
    let inner = JoinDef::<i64>::new_record_key_both(left(), right(), SqlJoinType::InnerJoin, 0, d);
    assert_eq!(inner.generate_query(false), "INNER JOIN u AS b ON a.id = b.tid");
    let l = JoinDef::<i64>::new_record_key_both(left(), right(), SqlJoinType::LeftJoin, 0, d);
    assert_eq!(l.generate_query(false), "LEFT JOIN u AS b ON a.id = b.tid");
    let r = JoinDef::<i64>::new_record_key_both(left(), right(), SqlJoinType::RightJoin, 0, d);
    assert_eq!(r.generate_query(false), "RIGHT JOIN u AS b ON a.id = b.tid");
    let n = JoinDef::<i64>::new_record_key_both(left(), right(), SqlJoinType::NoJoin, 0, d);
    assert_eq!(n.generate_query(false), "");
    assert_eq!(n.generate_query(true), "");
}

#[test]
fn record_key_joins_on_indented_lines() {
    let d = DatabaseDialect::PostgreSQL;
    let inner = JoinDef::<i64>::new_record_key_both(left(), right(), SqlJoinType::InnerJoin, 0, d);
    assert_eq!(inner.generate_query(true), "INNER JOIN\n  u AS b ON\n    a.id = b.tid");
    let l = JoinDef::<i64>::new_record_key_both(left(), right(), SqlJoinType::LeftJoin, 1, d);
    assert_eq!(l.generate_query(true), "  LEFT JOIN\n    u AS b ON\n      a.id = b.tid");
    let r = JoinDef::<i64>::new_record_key_both(left(), right(), SqlJoinType::RightJoin, 1, d);
    assert_eq!(r.generate_query(true), "RIGHT JOIN u AS b ON a.id = b.tid");
}

fn text_join(join: SqlJoinType, alias: &str) -> JoinDef<i64> {
    JoinDef::new_subquery_select_string(
        left(),
        join,
        txt("SELECT k FROM v"),
        txt("k"),
        txt(alias),
        0,
        DatabaseDialect::PostgreSQL,
    )
}

#[test]
fn text_joins() {
    assert_eq!(
        text_join(SqlJoinType::InnerJoin, "q").generate_query(false),
        "INNER JOIN (SELECT k FROM v)  AS q ON a.id = q.k"
    );
    assert_eq!(
        text_join(SqlJoinType::RightJoin, "q").generate_query(false),
        "RIGHT JOIN (SELECT k FROM v)  AS q ON a.id = q.k"
    );
    assert_eq!(
        text_join(SqlJoinType::LeftJoin, "q").generate_query(false),
        "LEFT JOIN (SELECT k FROM v)  AS q ON q.k = a.id"
    );
    assert_eq!(
        text_join(SqlJoinType::InnerJoin, "").generate_query(true),
        "INNER JOIN (SELECT k FROM v)  ON a.id = k"
    );
    assert_eq!(
        text_join(SqlJoinType::LeftJoin, "").generate_query(false),
        "LEFT JOIN (SELECT k FROM v)  ON k = a.id"
    );
    assert_eq!(text_join(SqlJoinType::NoJoin, "q").generate_query(false), "");
}

#[test]
fn text_join_with_another_comparator() {
    let j = text_join(SqlJoinType::InnerJoin, "q").with_operator(SqlOperator::GreaterOrEqual);
    assert_eq!(j.generate_query(false), "INNER JOIN (SELECT k FROM v)  AS q ON a.id >= q.k");
}

#[test]
fn join_def_getters() {
    let j = text_join(SqlJoinType::LeftJoin, "q");
    assert_eq!(j.join_type(), SqlJoinType::LeftJoin);
    assert_eq!(j.mode(), JoinDefMode::SubquerySelectString);
    assert_eq!(j.left_table().build_field(), "a.id");
    assert_eq!(j.right_table().build_field(), ".");
    assert!(!j.has_subquery_object());
    assert_eq!(j.subquery_string(), "SELECT k FROM v");
    assert_eq!(j.subquery_alias_string(), "q");
    assert_eq!(j.generate_join_record_subquery_object(), "");
}

#[test]
fn join_with_a_statement() {
    let nested = NvSelect::<i64>::new(DatabaseDialect::PostgreSQL).f(
        txt("k"),
        None,
        None,
        SqlAggregateFunction::NoAggregate,
        false,
    );
    let j = JoinDef::new_subquery_select_object(
        left(),
        nested,
        SqlJoinType::InnerJoin,
        0,
        DatabaseDialect::PostgreSQL,
    );
    assert!(j.has_subquery_object());
    assert_eq!(j.mode(), JoinDefMode::SubquerySelectObject);
    assert_eq!(j.subquery().generate_query(false), "SELECT k");
    assert_eq!(j.generate_query(true), "SELECT k");
    assert_eq!(j.generate_join_record_subquery_object(), "SELECT k");
    let other = NvSelect::<i64>::new(DatabaseDialect::PostgreSQL).f(
        txt("k"),
        None,
        None,
        SqlAggregateFunction::NoAggregate,
        false,
    );
    let none = JoinDef::new_subquery_select_object(
        left(),
        other,
        SqlJoinType::NoJoin,
        0,
        DatabaseDialect::PostgreSQL,
    );
    assert_eq!(none.generate_query(false), "");
    assert_eq!(none.generate_join_record_subquery_object(), "SELECT k");
}

fn comparator(op: SqlOperator, count: u32, start: u32) -> Result<Condition<i64>, BuilderError> {
    Condition::new_comparator(&txt("a.x"), &op, count, start, 1, DatabaseDialect::PostgreSQL)
}

#[test]
fn comparator_texts() {
    let eq = comparator(SqlOperator::Equal, 1, 4).ok().unwrap();
    assert_eq!(eq.generate_query(false), "a.x = $4");
    assert_eq!(eq.start_parameter_index(), 4);
    assert_eq!(eq.next_parameter_index(), 5);
    let like = comparator(SqlOperator::Like, 1, 1).ok().unwrap();
    assert_eq!(like.generate_query(true), "a.x LIKE $1");
    let ne = comparator(SqlOperator::NotEqual, 1, 10).ok().unwrap();
    assert_eq!(ne.generate_query(false), "a.x != $10");
}

#[test]
fn between_takes_two_indices() {
    let c = comparator(SqlOperator::Between, 2, 5).ok().unwrap();
    assert_eq!(c.generate_query(false), "a.x BETWEEN $5 AND $6");
    assert_eq!(c.start_parameter_index(), 5);
    assert_eq!(c.next_parameter_index(), 7);
}

#[test]
fn in_takes_one_index_for_each_value() {
    let three = comparator(SqlOperator::In, 3, 9).ok().unwrap();
    assert_eq!(three.generate_query(false), "a.x IN ($9, $10, $11)");
    assert_eq!(three.next_parameter_index(), 12);
    let one = comparator(SqlOperator::In, 1, 2).ok().unwrap();
    assert_eq!(one.generate_query(false), "a.x IN ($2)");
    let none = comparator(SqlOperator::In, 0, 2).ok().unwrap();
    assert_eq!(none.generate_query(false), "a.x IN ()");
    assert_eq!(none.next_parameter_index(), 2);
}

#[test]
fn comparator_turns_down_a_wrong_number_of_values() {
    assert_eq!(comparator(SqlOperator::Between, 1, 1).err(), Some(BuilderError::ArityMismatch));
    assert_eq!(comparator(SqlOperator::Between, 3, 1).err(), Some(BuilderError::ArityMismatch));
    assert_eq!(comparator(SqlOperator::Between, 0, 1).err(), Some(BuilderError::ArityMismatch));
    assert_eq!(comparator(SqlOperator::Equal, 0, 1).err(), Some(BuilderError::ArityMismatch));
    assert_eq!(comparator(SqlOperator::Less, 2, 1).err(), Some(BuilderError::ArityMismatch));
    assert!(Condition::<i64>::accepts(&SqlOperator::In, 0));
    assert!(Condition::<i64>::accepts(&SqlOperator::Between, 2));
    assert!(!Condition::<i64>::accepts(&SqlOperator::Greater, 2));
    assert_eq!(Condition::<i64>::process(3, &SqlOperator::In, 4), 7);
    assert_eq!(Condition::<i64>::process(3, &SqlOperator::Between, 2), 5);
    assert_eq!(Condition::<i64>::process(3, &SqlOperator::Like, 1), 4);
}

#[test]
fn connector_and_group_texts() {
    let d = DatabaseDialect::PostgreSQL;
    let and = Condition::<i64>::new_logic(LogicOperator::And, ConditionMode::LogicalOperator, 0, d);
    assert_eq!(and.generate_query(false), " AND ");
    let or = Condition::<i64>::new_logic(LogicOperator::Or, ConditionMode::LogicalOperator, 0, d);
    assert_eq!(or.generate_query(false), " OR ");
    let open = Condition::<i64>::new_logic(LogicOperator::Or, ConditionMode::StartGroup, 0, d);
    assert_eq!(open.generate_query(false), "(");
    let close = Condition::<i64>::new_logic(LogicOperator::Or, ConditionMode::EndGroup, 0, d);
    assert_eq!(close.generate_query(false), ")");
    assert_eq!(close.next_parameter_index(), 0);
}

#[test]
fn subquery_condition_before_its_statement() {
    let c = Condition::<i64>::new_subquery(
        txt("a.id"),
        txt("sq"),
        SqlOperator::In,
        3,
        1,
        DatabaseDialect::PostgreSQL,
    );
    assert_eq!(c.generate_query_from_subquery(false), "");
    assert_eq!(c.generate_query(false), "a.id IN () AS sq ");
    assert_eq!(c.subquery_table_alias(), "sq");
    assert_eq!(c.start_parameter_index(), 3);
    assert_eq!(c.next_parameter_index(), 3);
}
