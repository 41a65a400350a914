//! The one-line form stays on one line: where no text that the caller
//! handed in holds a line break, the one-line text of a statement holds
//! none.

use crate::sqlbuilder::def::{
    aggregate_keyword, placeholder_text, DatabaseDialect, JoinDefMode, LogicOperator,
    SqlAggregateFunction, SqlOperator,
};
use crate::sqlbuilder::field::FieldDefMode;
use crate::sqlbuilder::model::{
    alias_suffix, count_char, field_texts, group_texts, joined_key_text, name_suffix, order_texts,
    placeholder_list, qualified_text, ConditionView, FieldDefView, FromEntryView,
    FromTableStatementView, FromTableView, GroupByClauseView, GroupByStatementView, JoinDefView,
    JoinStatementView, NvSelectView, OrderByClauseView, OrderByStatementView, RecordKeyView,
    WhereStatementView,
};
use crate::sqlbuilder::where_statement::ConditionMode;
use crate::utils::strings::{decimal_text, join_texts};
use vstd::prelude::*;

verus! {

/// The text holds no line break.
pub open spec fn one_line(text: Seq<char>) -> bool {
    forall|k: int| 0 <= k < text.len() ==> #[trigger] text[k] != '\n'
}

/// The text, if there is one, holds no line break.
pub open spec fn one_line_if_any(text: Option<Seq<char>>) -> bool {
    match text {
        Some(t) => one_line(t),
        None => true,
    }
}

/// Every text of the list holds no line break.
pub open spec fn all_one_line(texts: Seq<Seq<char>>) -> bool {
    forall|k: int| 0 <= k < texts.len() ==> one_line(#[trigger] texts[k])
}

impl FieldDefView {
    /// No text of the field holds a line break.
    pub open spec fn single_line(self) -> bool {
        &&& one_line(self.field)
        &&& one_line_if_any(self.table_alias)
        &&& one_line_if_any(self.field_alias)
        &&& one_line(self.function_name)
        &&& all_one_line(self.static_param_values)
    }
}

impl FromTableView {
    /// No text of the table holds a line break.
    pub open spec fn single_line(self) -> bool {
        one_line(self.table) && one_line_if_any(self.table_alias)
    }
}

impl RecordKeyView {
    /// No text of the key holds a line break.
    pub open spec fn single_line(self) -> bool {
        one_line(self.table) && one_line(self.field) && one_line_if_any(self.table_alias)
    }
}

impl GroupByClauseView {
    /// No text of the key holds a line break.
    pub open spec fn single_line(self) -> bool {
        one_line(self.field_name) && one_line_if_any(self.table_alias)
    }
}

impl OrderByClauseView {
    /// No text of the key holds a line break.
    pub open spec fn single_line(self) -> bool {
        one_line(self.field_name) && one_line_if_any(self.table_alias)
    }
}

impl<T> FromEntryView<T> {
    /// No text of the entry, or of what is nested in it, holds a line break.
    pub open spec fn single_line(self) -> bool
        decreases self, 0nat,
    {
        match self {
            FromEntryView::Table(t) => t.single_line(),
            FromEntryView::Subquery(s) => s.single_line(),
        }
    }
}

impl<T> FromTableStatementView<T> {
    /// No text of the clause, or of what is nested in it, holds a line
    /// break.
    pub open spec fn single_line(self) -> bool
        decreases self, 0nat,
    {
        forall|k: int| 0 <= k < self.entries.len() ==> (#[trigger] self.entries[k]).single_line()
    }
}

impl<T> ConditionView<T> {
    /// No text of the condition, or of what is nested in it, holds a line
    /// break.
    pub open spec fn single_line(self) -> bool
        decreases self, 0nat,
    {
        &&& one_line(self.field_name)
        &&& one_line(self.table_alias)
        &&& match self.subquery {
            Some(s) => s.single_line(),
            None => true,
        }
    }
}

impl<T> WhereStatementView<T> {
    /// No text of the clause, or of what is nested in it, holds a line
    /// break.
    pub open spec fn single_line(self) -> bool
        decreases self, 0nat,
    {
        forall|k: int|
            0 <= k < self.conditions.len() ==> (#[trigger] self.conditions[k]).single_line()
    }
}

impl<T> JoinDefView<T> {
    /// No text of the join, or of what is nested in it, holds a line break.
    pub open spec fn single_line(self) -> bool
        decreases self, 0nat,
    {
        &&& one_line(self.subquery_str)
        &&& one_line(self.subquery_str_alias)
        &&& one_line(self.subquery_field_key)
        &&& self.left_table.single_line()
        &&& self.right_table.single_line()
        &&& match self.subquery_obj {
            Some(s) => s.single_line(),
            None => true,
        }
    }
}

impl<T> JoinStatementView<T> {
    /// No text of the block, or of what is nested in it, holds a line
    /// break.
    pub open spec fn single_line(self) -> bool
        decreases self, 0nat,
    {
        forall|k: int| 0 <= k < self.joins.len() ==> (#[trigger] self.joins[k]).single_line()
    }
}

impl<T> GroupByStatementView<T> {
    /// No text of the clause holds a line break.
    pub open spec fn single_line(self) -> bool {
        forall|k: int| 0 <= k < self.sorts.len() ==> (#[trigger] self.sorts[k]).single_line()
    }
}

impl<T> OrderByStatementView<T> {
    /// No text of the clause holds a line break.
    pub open spec fn single_line(self) -> bool {
        forall|k: int| 0 <= k < self.sorts.len() ==> (#[trigger] self.sorts[k]).single_line()
    }
}

impl<T> NvSelectView<T> {
    /// No text of the statement, of its fields and clauses or of what is
    /// nested in them holds a line break.
    pub open spec fn single_line(self) -> bool
        decreases self, 1nat,
    {
        &&& one_line(self.table_alias)
        &&& forall|k: int| 0 <= k < self.fields.len() ==> (#[trigger] self.fields[k]).single_line()
        &&& match self.from_statement {
            Some(f) => f.single_line(),
            None => true,
        }
        &&& forall|k: int| 0 <= k < self.joins.len() ==> (#[trigger] self.joins[k]).single_line()
        &&& match self.where_statement {
            Some(w) => w.single_line(),
            None => true,
        }
        &&& match self.group_by {
            Some(g) => g.single_line(),
            None => true,
        }
        &&& match self.order_by {
            Some(o) => o.single_line(),
            None => true,
        }
    }
}

/// The texts joined by a separator hold no line break when neither the
/// texts nor the separator hold one.
pub proof fn lemma_join_one_line(parts: Seq<Seq<char>>, sep: Seq<char>)
    requires
        all_one_line(parts),
        one_line(sep),
    ensures
        one_line(join_texts(parts, sep)),
    decreases parts.len(),
{
    if parts.len() > 1 {
        let earlier = parts.drop_last();
        assert(all_one_line(earlier)) by {
            assert forall|k: int| 0 <= k < earlier.len() implies one_line(
                #[trigger] earlier[k],
            ) by {
                assert(earlier[k] == parts[k]);
            }
        }
        lemma_join_one_line(earlier, sep);
        assert(one_line(parts.last()));
    } else if parts.len() == 1 {
        assert(one_line(parts[0]));
    }
}

/// Decimal notation holds no line break.
pub proof fn lemma_decimal_one_line(n: nat)
    ensures
        one_line(decimal_text(n)),
    decreases n,
{
    if n >= 10 {
        lemma_decimal_one_line(n / 10);
    }
}

/// A placeholder holds no line break.
pub proof fn lemma_placeholder_one_line(dialect: DatabaseDialect, index: nat)
    ensures
        one_line(placeholder_text(dialect, index)),
{
    lemma_decimal_one_line(index);
}

/// The keywords and signs of the one-line form hold no line break.
pub proof fn lemma_keywords_one_line()
    ensures
        one_line(""@),
        one_line(" "@),
        one_line(", "@),
        one_line("."@),
        one_line("("@),
        one_line(")"@),
        one_line(" ("@),
        one_line(") "@),
        one_line(" AS "@),
        one_line(" ON "@),
        one_line(" = "@),
        one_line(" AND "@),
        one_line(" BETWEEN "@),
        one_line(" IN ("@),
        one_line("SELECT "@),
        one_line(" FROM "@),
        one_line(" WHERE "@),
        one_line("WHERE "@),
        one_line(" GROUP BY "@),
        one_line(" ORDER BY "@),
        one_line(" ASC"@),
        one_line(" DESC"@),
        one_line("INNER JOIN"@),
        one_line("LEFT JOIN"@),
        one_line("RIGHT JOIN"@),
{
    reveal_strlit("");
    reveal_strlit(" ");
    reveal_strlit(", ");
    reveal_strlit(".");
    reveal_strlit("(");
    reveal_strlit(")");
    reveal_strlit(" (");
    reveal_strlit(") ");
    reveal_strlit(" AS ");
    reveal_strlit(" ON ");
    reveal_strlit(" = ");
    reveal_strlit(" AND ");
    reveal_strlit(" BETWEEN ");
    reveal_strlit(" IN (");
    reveal_strlit("SELECT ");
    reveal_strlit(" FROM ");
    reveal_strlit(" WHERE ");
    reveal_strlit("WHERE ");
    reveal_strlit(" GROUP BY ");
    reveal_strlit(" ORDER BY ");
    reveal_strlit(" ASC");
    reveal_strlit(" DESC");
    reveal_strlit("INNER JOIN");
    reveal_strlit("LEFT JOIN");
    reveal_strlit("RIGHT JOIN");
}

/// The labels of comparators and connectors and the keywords of aggregates
/// hold no line break.
pub proof fn lemma_labels_one_line(op: SqlOperator, logic: LogicOperator, f: SqlAggregateFunction)
    ensures
        one_line(op.label()),
        one_line(logic.label()),
        one_line(aggregate_keyword(f)),
{
    reveal_strlit("=");
    reveal_strlit("!=");
    reveal_strlit("<");
    reveal_strlit("<=");
    reveal_strlit(">");
    reveal_strlit(">=");
    reveal_strlit("LIKE");
    reveal_strlit("BETWEEN");
    reveal_strlit("IN");
    reveal_strlit("AND");
    reveal_strlit("OR");
    reveal_strlit("DISTINCT");
    reveal_strlit("COUNT");
    reveal_strlit("AVG");
    reveal_strlit("SUM");
    reveal_strlit("TO_UPPER");
    reveal_strlit("TO_LOWER");
    reveal_strlit("");
}

/// The small parts of a text hold no line break when what they are made of
/// holds none.
pub proof fn lemma_parts_one_line(
    alias: Option<Seq<char>>,
    name: Seq<char>,
    qualifier: Option<Seq<char>>,
    field_name: Seq<char>,
)
    ensures
        one_line_if_any(alias) ==> one_line(alias_suffix(alias)),
        one_line(name) ==> one_line(name_suffix(name)),
        one_line_if_any(qualifier) && one_line(field_name) ==> one_line(
            qualified_text(qualifier, field_name),
        ),
        one_line(name) && one_line(field_name) ==> one_line(joined_key_text(name, field_name)),
{
    lemma_keywords_one_line();
}

/// The arguments of a function call hold no line break when its literal
/// arguments hold none.
pub proof fn lemma_call_arguments_one_line(f: FieldDefView, n: nat)
    requires
        all_one_line(f.static_param_values),
    ensures
        all_one_line(f.call_arguments(n)),
    decreases n,
{
    if n == 0 || n > f.parameter_format.len() {
    } else {
        lemma_call_arguments_one_line(f, (n - 1) as nat);
        let earlier = f.call_arguments((n - 1) as nat);
        let now = f.call_arguments(n);
        assert forall|k: int| 0 <= k < now.len() implies one_line(#[trigger] now[k]) by {
            if k < earlier.len() {
                assert(now[k] == earlier[k]);
            } else {
                let before = f.parameter_format.take(n - 1);
                if f.parameter_format[n - 1] == 's' {
                    assert(one_line(f.static_param_values[count_char(before, 's') as int]));
                } else {
                    lemma_placeholder_one_line(
                        f.dialect,
                        (f.start_parameter_index + count_char(before, 'v')) as nat,
                    );
                }
            }
        }
    }
}

/// The text of a field holds no line break when the field's own texts hold
/// none.
pub proof fn lemma_field_one_line(f: FieldDefView)
    requires
        f.single_line(),
    ensures
        one_line(f.query_text()),
{
    lemma_keywords_one_line();
    lemma_labels_one_line(SqlOperator::Equal, LogicOperator::And, f.aggregate_fn);
    lemma_parts_one_line(f.field_alias, f.field, f.table_alias, f.field);
    match f.mode {
        FieldDefMode::FnStaticParameter => {
            lemma_join_one_line(f.static_param_values, ", "@);
        },
        FieldDefMode::FnParameterizedValues => {
            lemma_call_arguments_one_line(f, f.parameter_format.len());
            lemma_join_one_line(f.call_arguments(f.parameter_format.len()), ", "@);
        },
        _ => {},
    }
}

/// The texts of a table and of a join key hold no line break when their own
/// texts hold none.
pub proof fn lemma_table_one_line(t: FromTableView, key: RecordKeyView)
    ensures
        t.single_line() ==> one_line(t.table_text()),
        key.single_line() ==> one_line(key.table_text()) && one_line(key.field_text()),
{
    lemma_keywords_one_line();
    lemma_parts_one_line(t.table_alias, t.table, key.table_alias, key.field);
}

/// The text of a `GROUP BY` clause holds no line break when its keys hold
/// none.
pub proof fn lemma_group_by_one_line<T>(g: GroupByStatementView<T>)
    requires
        g.single_line(),
    ensures
        one_line(g.query_text()),
{
    lemma_keywords_one_line();
    let texts = group_texts(g.sorts);
    assert forall|k: int| 0 <= k < texts.len() implies one_line(#[trigger] texts[k]) by {
        assert(g.sorts[k].single_line());
        lemma_parts_one_line(None, Seq::empty(), g.sorts[k].table_alias, g.sorts[k].field_name);
    }
    lemma_join_one_line(texts, ", "@);
}

/// The text of an `ORDER BY` clause holds no line break when its keys hold
/// none.
pub proof fn lemma_order_by_one_line<T>(o: OrderByStatementView<T>)
    requires
        o.single_line(),
    ensures
        one_line(o.query_text()),
{
    lemma_keywords_one_line();
    let texts = order_texts(o.sorts);
    assert forall|k: int| 0 <= k < texts.len() implies one_line(#[trigger] texts[k]) by {
        assert(o.sorts[k].single_line());
        lemma_parts_one_line(None, Seq::empty(), o.sorts[k].table_alias, o.sorts[k].field_name);
    }
    lemma_join_one_line(texts, ", "@);
}

/// The one-line text of a condition holds no line break when no text of
/// the condition, or of what is nested in it, holds one.
pub proof fn lemma_condition_one_line<T>(c: ConditionView<T>)
    requires
        c.single_line(),
    ensures
        one_line(c.query_text(false)),
    decreases c, 1nat,
{
    lemma_keywords_one_line();
    lemma_labels_one_line(c.operation, c.logic_operator, SqlAggregateFunction::NoAggregate);
    lemma_parts_one_line(None, c.table_alias, None, c.field_name);
    match c.mode {
        ConditionMode::Comparator => {
            lemma_placeholder_one_line(c.dialect, c.start_index as nat);
            lemma_placeholder_one_line(c.dialect, (c.start_index + 1) as nat);
            let list = placeholder_list(c.dialect, c.start_index as nat, c.value_size as nat);
            assert forall|k: int| 0 <= k < list.len() implies one_line(#[trigger] list[k]) by {
                lemma_placeholder_one_line(c.dialect, (c.start_index as nat + k) as nat);
            }
            lemma_join_one_line(list, ", "@);
        },
        ConditionMode::Subquery => {
            match c.subquery {
                Some(s) => {
                    lemma_statement_one_line(*s);
                },
                None => {},
            }
            assert(one_line(c.subquery_text(false)));
        },
        _ => {},
    }
}

/// The one-line text of a `WHERE` clause holds no line break when no text of
/// the clause, or of what is nested in it, holds one.
pub proof fn lemma_where_one_line<T>(w: WhereStatementView<T>, append_where_keyword: bool)
    requires
        w.single_line(),
    ensures
        one_line(w.query_text(false, append_where_keyword)),
    decreases w, 2nat,
{
    lemma_keywords_one_line();
    let texts = w.condition_texts(false);
    assert forall|k: int| 0 <= k < texts.len() implies one_line(#[trigger] texts[k]) by {
        assert(w.conditions[k].single_line());
        lemma_condition_one_line(w.conditions[k]);
    }
    lemma_join_one_line(texts, Seq::empty());
}

/// The one-line text of an entry of a `FROM` clause holds no line break when
/// no text of the entry, or of what is nested in it, holds one.
pub proof fn lemma_entry_one_line<T>(e: FromEntryView<T>)
    requires
        e.single_line(),
    ensures
        one_line(e.entry_text(false)),
    decreases e, 0nat,
{
    lemma_keywords_one_line();
    match e {
        FromEntryView::Table(t) => {
            lemma_table_one_line(
                t,
                RecordKeyView {
                    table: Seq::empty(),
                    field: Seq::empty(),
                    table_alias: None,
                    initialize: false,
                },
            );
        },
        FromEntryView::Subquery(s) => {
            lemma_statement_one_line(*s);
            lemma_parts_one_line(None, s.table_alias, None, Seq::empty());
        },
    }
}

/// The one-line text of a `FROM` clause holds no line break when no text of
/// the clause, or of what is nested in it, holds one.
pub proof fn lemma_from_one_line<T>(f: FromTableStatementView<T>)
    requires
        f.single_line(),
    ensures
        one_line(f.query_text(false)),
    decreases f, 1nat,
{
    lemma_keywords_one_line();
    let texts = f.entry_texts(false);
    assert forall|k: int| 0 <= k < texts.len() implies one_line(#[trigger] texts[k]) by {
        assert(f.entries[k].single_line());
        lemma_entry_one_line(f.entries[k]);
    }
    lemma_join_one_line(texts, ", "@);
}

/// The one-line text of a join holds no line break when no text of the
/// join, or of what is nested in it, holds one.
pub proof fn lemma_join_def_one_line<T>(j: JoinDefView<T>)
    requires
        j.single_line(),
    ensures
        one_line(j.query_text(false)),
    decreases j, 1nat,
{
    lemma_keywords_one_line();
    lemma_labels_one_line(j.operator, LogicOperator::And, SqlAggregateFunction::NoAggregate);
    lemma_table_one_line(
        FromTableView { table: Seq::empty(), table_alias: None },
        j.left_table,
    );
    lemma_table_one_line(
        FromTableView { table: Seq::empty(), table_alias: None },
        j.right_table,
    );
    lemma_parts_one_line(None, j.subquery_str_alias, None, j.subquery_field_key);
    match j.join_mode {
        JoinDefMode::SubquerySelectObject => {
            match j.subquery_obj {
                Some(s) => {
                    lemma_statement_one_line(*s);
                },
                None => {},
            }
            assert(one_line(j.object_join_text()));
        },
        JoinDefMode::RecordKeyBoth => {
            assert(one_line(j.record_join_text(false)));
        },
        JoinDefMode::SubquerySelectString => {
            assert(one_line(j.text_join_text()));
        },
        JoinDefMode::SubqueryRawString => {},
    }
}

/// The one-line text of a block of joins holds no line break when no text
/// of the block, or of what is nested in it, holds one.
pub proof fn lemma_join_block_one_line<T>(b: JoinStatementView<T>)
    requires
        b.single_line(),
    ensures
        one_line(b.query_text(false)),
    decreases b, 2nat,
{
    lemma_keywords_one_line();
    let texts = b.join_def_texts(false);
    assert forall|k: int| 0 <= k < texts.len() implies one_line(#[trigger] texts[k]) by {
        assert(b.joins[k].single_line());
        lemma_join_def_one_line(b.joins[k]);
    }
    lemma_join_one_line(texts, " "@);
}

/// The one-line text of a statement holds no line break when no text of the
/// statement, of its fields and clauses or of what is nested in them holds
/// one.
pub proof fn lemma_statement_one_line<T>(s: NvSelectView<T>)
    requires
        s.single_line(),
    ensures
        one_line(s.query_text(false)),
    decreases s, 3nat,
{
    lemma_keywords_one_line();
    let fields = field_texts(s.fields, s.level, false);
    assert forall|k: int| 0 <= k < fields.len() implies one_line(#[trigger] fields[k]) by {
        assert(s.fields[k].single_line());
        lemma_field_one_line(s.fields[k]);
    }
    lemma_join_one_line(fields, ", "@);
    assert(one_line(s.select_text(false)));
    match s.from_statement {
        Some(f) => {
            lemma_from_one_line(f);
        },
        None => {},
    }
    assert(one_line(s.from_text(false)));
    let blocks = s.join_block_texts(false);
    assert forall|k: int| 0 <= k < blocks.len() implies one_line(#[trigger] blocks[k]) by {
        assert(s.joins[k].single_line());
        lemma_join_block_one_line(s.joins[k]);
    }
    lemma_join_one_line(blocks, " "@);
    assert(one_line(s.join_text(false)));
    match s.where_statement {
        Some(w) => {
            lemma_where_one_line(w, false);
        },
        None => {},
    }
    assert(one_line(s.where_text(false)));
    match s.group_by {
        Some(g) => {
            lemma_group_by_one_line(g);
        },
        None => {},
    }
    assert(one_line(s.group_by_text(false)));
    match s.order_by {
        Some(o) => {
            lemma_order_by_one_line(o);
        },
        None => {},
    }
    assert(one_line(s.order_by_text(false)));
}

} // verus!
