//! The mathematical model of a statement tree: one view type per builder
//! type, with texts as character sequences and collections as sequences, and
//! the text that each of them renders to.

use crate::sqlbuilder::def::{
    aggregate_keyword, placeholder_text, DatabaseDialect, JoinDefMode, LogicOperator, SortType,
    SqlAggregateFunction, SqlJoinType, SqlOperator,
};
use crate::sqlbuilder::field::FieldDefMode;
use crate::sqlbuilder::group_by::GroupByMode;
use crate::sqlbuilder::where_statement::ConditionMode;
use crate::utils::strings::{concat_texts, indent_text, join_texts};
use vstd::prelude::*;

verus! {

/// The view of an optional text.
pub open spec fn option_text(o: Option<String>) -> Option<Seq<char>> {
    match o {
        Some(s) => Some(s@),
        None => None,
    }
}

/// The views of a list of texts.
pub open spec fn text_list(v: Seq<String>) -> Seq<Seq<char>> {
    Seq::new(v.len(), |i: int| v[i]@)
}

/// The text, or the empty text where there is none.
pub open spec fn text_or_empty(o: Option<Seq<char>>) -> Seq<char> {
    match o {
        Some(s) => s,
        None => Seq::empty(),
    }
}

/// ` AS ` and the alias, where there is one.
pub open spec fn alias_suffix(alias: Option<Seq<char>>) -> Seq<char> {
    match alias {
        Some(a) => " AS "@ + a,
        None => Seq::empty(),
    }
}

/// ` AS ` and the alias, unless the alias is empty.
pub open spec fn name_suffix(alias: Seq<char>) -> Seq<char> {
    if alias.len() == 0 {
        Seq::empty()
    } else {
        " AS "@ + alias
    }
}

/// The field name with its qualifier, where there is one.
pub open spec fn qualified_text(table_alias: Option<Seq<char>>, field_name: Seq<char>) -> Seq<
    char,
> {
    match table_alias {
        Some(a) => a + "."@ + field_name,
        None => field_name,
    }
}

/// How often `c` occurs in `s`.
pub open spec fn count_char(s: Seq<char>, c: char) -> nat
    decreases s.len(),
{
    if s.len() == 0 {
        0
    } else {
        count_char(s.drop_last(), c) + if s.last() == c {
            1nat
        } else {
            0nat
        }
    }
}

/// The number of bind parameters that a comparator with `value_size` values
/// takes.
pub open spec fn comparator_arity(op: SqlOperator, value_size: nat) -> nat {
    match op {
        SqlOperator::Between => 2,
        SqlOperator::In => value_size,
        _ => 1,
    }
}

/// Whether a comparator accepts `value_size` values.
pub open spec fn arity_accepted(op: SqlOperator, value_size: nat) -> bool {
    match op {
        SqlOperator::Between => value_size == 2,
        SqlOperator::In => true,
        _ => value_size == 1,
    }
}

/// The placeholders of `count` consecutive bind parameters from `start` on.
pub open spec fn placeholder_list(dialect: DatabaseDialect, start: nat, count: nat) -> Seq<
    Seq<char>,
> {
    Seq::new(count, |k: int| placeholder_text(dialect, (start + k) as nat))
}

/// 1 if `i` lies in `lo..hi`, else 0.
pub open spec fn in_range(lo: int, hi: int, i: int) -> nat {
    if lo <= i < hi {
        1
    } else {
        0
    }
}

// ---------------------------------------------------------------------------
// Fragments without a nested statement
// ---------------------------------------------------------------------------
/// The model of a selected field.
pub struct FieldDefView {
    /// The name of the column; empty in a function call.
    pub field: Seq<char>,
    /// The qualifier of the column.
    pub table_alias: Option<Seq<char>>,
    /// The literal arguments of a function call.
    pub static_param_values: Seq<Seq<char>>,
    /// The name of the called function; empty in a plain field.
    pub function_name: Seq<char>,
    /// The order of the arguments of a function call: `s` for a literal, `v`
    /// for a bound value.
    pub parameter_format: Seq<char>,
    /// The number of values offered to a function call.
    pub value_count: nat,
    /// Whether the name was asked to be enclosed.
    pub enclose_field_name: bool,
    /// The aggregate around the column.
    pub aggregate_fn: SqlAggregateFunction,
    /// The alias under which the field is selected.
    pub field_alias: Option<Seq<char>>,
    /// The first bind parameter of a function call.
    pub start_parameter_index: u32,
    /// The first free bind parameter behind a function call.
    pub current_parameter_index: u32,
    /// The nesting level of the statement.
    pub level: u32,
    /// The kind of the field.
    pub mode: FieldDefMode,
    /// The dialect in which placeholders are written.
    pub dialect: DatabaseDialect,
}

impl FieldDefView {
    /// A plain field.
    pub open spec fn plain(
        dialect: DatabaseDialect,
        field: Seq<char>,
        table_alias: Option<Seq<char>>,
        enclose_field_name: bool,
        aggregate_fn: SqlAggregateFunction,
        field_alias: Option<Seq<char>>,
        level: u32,
        mode: FieldDefMode,
    ) -> Self {
        FieldDefView {
            field,
            table_alias,
            static_param_values: Seq::empty(),
            function_name: Seq::empty(),
            parameter_format: Seq::empty(),
            value_count: 0,
            enclose_field_name,
            aggregate_fn,
            field_alias,
            start_parameter_index: 0,
            current_parameter_index: 0,
            level,
            mode,
            dialect,
        }
    }

    /// A function call whose arguments are all literal.
    pub open spec fn static_call(
        dialect: DatabaseDialect,
        function_name: Seq<char>,
        static_param_values: Seq<Seq<char>>,
        level: u32,
        field_alias: Option<Seq<char>>,
    ) -> Self {
        FieldDefView {
            field: Seq::empty(),
            table_alias: None,
            static_param_values,
            function_name,
            parameter_format: Seq::empty(),
            value_count: 0,
            enclose_field_name: false,
            aggregate_fn: SqlAggregateFunction::NoAggregate,
            field_alias,
            start_parameter_index: 0,
            current_parameter_index: 0,
            level,
            mode: FieldDefMode::FnStaticParameter,
            dialect,
        }
    }

    /// A function call with literal and bound arguments, which is offered
    /// `value_count` values and binds from `start` on.
    pub open spec fn dynamic_call(
        dialect: DatabaseDialect,
        function_name: Seq<char>,
        parameter_format: Seq<char>,
        value_count: nat,
        static_param_values: Seq<Seq<char>>,
        start: u32,
        level: u32,
        field_alias: Option<Seq<char>>,
    ) -> Self {
        FieldDefView {
            field: Seq::empty(),
            table_alias: None,
            static_param_values,
            function_name,
            parameter_format,
            value_count,
            enclose_field_name: false,
            aggregate_fn: SqlAggregateFunction::NoAggregate,
            field_alias,
            start_parameter_index: start,
            current_parameter_index: (start + Self::call_arity(parameter_format, value_count))
                as u32,
            level,
            mode: FieldDefMode::FnParameterizedValues,
            dialect,
        }
    }

    /// The number of bind parameters of a function call: one for each `v` of
    /// the format that still finds a value.
    pub open spec fn call_arity(format: Seq<char>, value_count: nat) -> nat {
        if count_char(format, 'v') <= value_count {
            count_char(format, 'v')
        } else {
            value_count
        }
    }

    /// The number of bind parameters that the field takes.
    pub open spec fn arity(self) -> nat {
        if self.mode == FieldDefMode::FnParameterizedValues {
            Self::call_arity(self.parameter_format, self.value_count)
        } else {
            0
        }
    }

    /// How often the field writes the placeholder of bind parameter `i`.
    pub open spec fn uses(self, i: int) -> nat {
        in_range(self.start_parameter_index as int, self.start_parameter_index + self.arity(), i)
    }

    /// A plain field: the aggregate's opening, the qualifier, the name, the
    /// aggregate's closing and the alias.
    pub open spec fn field_text(self) -> Seq<char> {
        let opening = if self.aggregate_fn == SqlAggregateFunction::Distinct {
            aggregate_keyword(self.aggregate_fn) + " "@
        } else if self.aggregate_fn != SqlAggregateFunction::NoAggregate {
            aggregate_keyword(self.aggregate_fn) + "("@
        } else {
            Seq::empty()
        };
        let closing = if self.aggregate_fn != SqlAggregateFunction::Distinct && self.aggregate_fn
            != SqlAggregateFunction::NoAggregate {
            ")"@
        } else {
            Seq::empty()
        };
        opening + qualified_text(self.table_alias, self.field) + closing + alias_suffix(
            self.field_alias,
        )
    }

    /// A function call whose arguments are all literal.
    pub open spec fn static_call_text(self) -> Seq<char> {
        self.function_name + "("@ + join_texts(self.static_param_values, ", "@) + ")"@
            + alias_suffix(self.field_alias)
    }

    /// The arguments that the first `n` characters of the format write: the
    /// k-th `s` writes the k-th literal, the k-th `v` the placeholder of the
    /// k-th bound value, and a character that finds neither writes nothing.
    pub open spec fn call_arguments(self, n: nat) -> Seq<Seq<char>>
        decreases n,
    {
        if n == 0 || n > self.parameter_format.len() {
            Seq::empty()
        } else {
            let before = self.parameter_format.take(n - 1);
            let c = self.parameter_format[n - 1];
            let statics_before = count_char(before, 's');
            let values_before = count_char(before, 'v');
            let earlier = self.call_arguments((n - 1) as nat);
            if c == 's' && statics_before < self.static_param_values.len() {
                earlier.push(self.static_param_values[statics_before as int])
            } else if c == 'v' && values_before < self.value_count {
                earlier.push(
                    placeholder_text(
                        self.dialect,
                        (self.start_parameter_index + values_before) as nat,
                    ),
                )
            } else {
                earlier
            }
        }
    }

    /// A function call with literal and bound arguments.
    pub open spec fn dynamic_call_text(self) -> Seq<char> {
        self.function_name + "("@ + join_texts(
            self.call_arguments(self.parameter_format.len()),
            ", "@,
        ) + ")"@ + alias_suffix(self.field_alias)
    }

    /// The text of the field in a `SELECT` list.
    pub open spec fn query_text(self) -> Seq<char> {
        match self.mode {
            FieldDefMode::FieldRaw => self.field_text(),
            FieldDefMode::FieldWType => self.field_text(),
            FieldDefMode::FnStaticParameter => self.static_call_text(),
            FieldDefMode::FnParameterizedValues => self.dynamic_call_text(),
        }
    }
}

/// The model of a table in a `FROM` clause.
pub struct FromTableView {
    /// The name of the table.
    pub table: Seq<char>,
    /// The alias of the table.
    pub table_alias: Option<Seq<char>>,
}

impl FromTableView {
    /// The table's name, and its alias where it has one.
    pub open spec fn table_text(self) -> Seq<char> {
        self.table + alias_suffix(self.table_alias)
    }
}

/// The model of one side of a join: a table, its alias and the join field.
pub struct RecordKeyView {
    /// The name of the table.
    pub table: Seq<char>,
    /// The join field.
    pub field: Seq<char>,
    /// The alias of the table.
    pub table_alias: Option<Seq<char>>,
    /// Whether the key was given a table and a field.
    pub initialize: bool,
}

impl RecordKeyView {
    /// The join field, qualified by the alias or else by the table.
    pub open spec fn field_text(self) -> Seq<char> {
        match self.table_alias {
            Some(a) => a + "."@ + self.field,
            None => self.table + "."@ + self.field,
        }
    }

    /// The table's name, and its alias where it has one.
    pub open spec fn table_text(self) -> Seq<char> {
        self.table + alias_suffix(self.table_alias)
    }
}

/// The model of a grouping key.
pub struct GroupByClauseView {
    /// The name of the column.
    pub field_name: Seq<char>,
    /// The qualifier of the column.
    pub table_alias: Option<Seq<char>>,
    /// The counter at which the key was added.
    pub start_parameter_index: u32,
    /// The first free bind parameter behind the key.
    pub parameter_index: u32,
    /// The nesting level of the statement.
    pub level: u32,
    /// The kind of the key.
    pub mode: GroupByMode,
}

impl GroupByClauseView {
    /// The text of the key: the column behind its qualifier.
    pub open spec fn query_text(self) -> Seq<char> {
        qualified_text(self.table_alias, self.field_name)
    }
}

/// The model of a sort key.
pub struct OrderByClauseView {
    /// The name of the column.
    pub field_name: Seq<char>,
    /// The qualifier of the column.
    pub table_alias: Option<Seq<char>>,
    /// The nesting level of the statement.
    pub level: u32,
    /// The direction.
    pub sort_type: SortType,
    /// Whether the direction is written.
    pub define_sort_type: bool,
}

impl OrderByClauseView {
    /// The direction, where the key asks for it to be written.
    pub open spec fn direction_text(self) -> Seq<char> {
        if self.define_sort_type {
            match self.sort_type {
                SortType::Ascending => " ASC"@,
                SortType::Descending => " DESC"@,
            }
        } else {
            Seq::empty()
        }
    }

    /// The text of the key: the column behind its qualifier, and the
    /// direction.
    pub open spec fn query_text(self) -> Seq<char> {
        qualified_text(self.table_alias, self.field_name) + self.direction_text()
    }
}

/// The texts of the grouping keys, in order.
pub open spec fn group_texts(sorts: Seq<GroupByClauseView>) -> Seq<Seq<char>> {
    Seq::new(sorts.len(), |k: int| sorts[k].query_text())
}

/// The texts of the sort keys, in order.
pub open spec fn order_texts(sorts: Seq<OrderByClauseView>) -> Seq<Seq<char>> {
    Seq::new(sorts.len(), |k: int| sorts[k].query_text())
}

/// The texts of the selected fields, in order; in the indented form each
/// stands behind the indentation of `level + 1`.
pub open spec fn field_texts(fields: Seq<FieldDefView>, level: u32, pretty: bool) -> Seq<
    Seq<char>,
> {
    Seq::new(
        fields.len(),
        |k: int|
            if pretty {
                indent_text((level + 1) as nat) + fields[k].query_text()
            } else {
                fields[k].query_text()
            },
    )
}

/// How often the fields write the placeholder of bind parameter `i`.
pub open spec fn fields_uses(fields: Seq<FieldDefView>, i: int) -> nat
    decreases fields.len(),
{
    if fields.len() == 0 {
        0
    } else {
        fields_uses(fields.drop_last(), i) + fields.last().uses(i)
    }
}

// ---------------------------------------------------------------------------
// The statement tree
// ---------------------------------------------------------------------------
/// One entry of a `FROM` clause.
pub enum FromEntryView<T> {
    Table(FromTableView),
    Subquery(Box<NvSelectView<T>>),
}

/// The model of a `FROM` clause.
pub struct FromTableStatementView<T> {
    /// The statement that waits for the clause; absent once the clause
    /// stands in its statement.
    pub parent: Option<Box<NvSelectView<T>>>,
    /// The tables and nested statements, in order.
    pub entries: Seq<FromEntryView<T>>,
    /// The bound values, in the order of their bind parameters; empty while
    /// another part of the tree is at hand.
    pub parameter_values: Seq<T>,
    /// The first free bind parameter.
    pub current_parameter_index: u32,
    /// The bind parameter to which the first bound value belongs.
    pub base_parameter_index: u32,
    /// The nesting level of the statement.
    pub level: u32,
    /// The dialect in which placeholders are written.
    pub dialect: DatabaseDialect,
}

/// The model of a condition.
pub struct ConditionView<T> {
    /// The compared field; empty in a connector or group delimiter.
    pub field_name: Seq<char>,
    /// The nested statement of a comparison with one, once it is finished.
    pub subquery: Option<Box<NvSelectView<T>>>,
    /// The comparator.
    pub operation: SqlOperator,
    /// The number of values of a comparator.
    pub value_size: u32,
    /// The first bind parameter of the condition.
    pub start_index: u32,
    /// The first free bind parameter behind the condition.
    pub param_index: u32,
    /// The nesting level of the condition.
    pub level: u32,
    /// The connector, where the condition is one.
    pub logic_operator: LogicOperator,
    /// The kind of the condition.
    pub mode: ConditionMode,
    /// The name of the nested statement; empty where there is none.
    pub table_alias: Seq<char>,
    /// The dialect in which placeholders are written.
    pub dialect: DatabaseDialect,
}

/// The model of a `WHERE` clause.
pub struct WhereStatementView<T> {
    /// The statement that waits for the clause; absent once the clause
    /// stands in its statement.
    pub parent: Option<Box<NvSelectView<T>>>,
    /// The bound values, in the order of their bind parameters; empty while
    /// another part of the tree is at hand.
    pub parameter_values: Seq<T>,
    /// The fragments, in order.
    pub conditions: Seq<ConditionView<T>>,
    /// The nesting level of the statement.
    pub level: u32,
    /// The first free bind parameter.
    pub current_param_index: u32,
    /// The bind parameter to which the first bound value belongs.
    pub base_param_index: u32,
    /// The dialect in which placeholders are written.
    pub dialect: DatabaseDialect,
}

/// The model of a join.
pub struct JoinDefView<T> {
    /// The joined statement as text.
    pub subquery_str: Seq<char>,
    /// The alias of the joined text; empty where it has none.
    pub subquery_str_alias: Seq<char>,
    /// The join field of the joined text.
    pub subquery_field_key: Seq<char>,
    /// The joined statement, where the join carries one.
    pub subquery_obj: Option<Box<NvSelectView<T>>>,
    /// The side that the statement already has.
    pub left_table: RecordKeyView,
    /// The joined table, where the join is one of two tables.
    pub right_table: RecordKeyView,
    /// The kind of the join.
    pub join_type: SqlJoinType,
    /// How the two sides are given.
    pub join_mode: JoinDefMode,
    /// The comparator of a join with a text.
    pub operator: SqlOperator,
    /// The nesting level of the statement.
    pub level: u32,
    /// The dialect of the statement.
    pub dialect: DatabaseDialect,
}

/// The model of a block of joins.
pub struct JoinStatementView<T> {
    /// The statement that waits for the block; absent once the block stands
    /// in its statement.
    pub parent: Option<Box<NvSelectView<T>>>,
    /// The joins, in order.
    pub joins: Seq<JoinDefView<T>>,
    /// The counter of the statement when the block was started.
    pub current_parameter_index: u32,
    /// The nesting level of the statement.
    pub level: u32,
    /// The dialect of the statement.
    pub dialect: DatabaseDialect,
}

/// The model of a `GROUP BY` clause.
pub struct GroupByStatementView<T> {
    /// The statement that waits for the clause; absent once the clause
    /// stands in its statement.
    pub parent: Option<Box<NvSelectView<T>>>,
    /// The keys, in order.
    pub sorts: Seq<GroupByClauseView>,
    /// The nesting level of the statement.
    pub level: u32,
    /// The counter of the statement when the clause was started.
    pub param_index: u32,
}

/// The model of an `ORDER BY` clause.
pub struct OrderByStatementView<T> {
    /// The statement that waits for the clause; absent once the clause
    /// stands in its statement.
    pub parent: Option<Box<NvSelectView<T>>>,
    /// The keys, in order.
    pub sorts: Seq<OrderByClauseView>,
    /// The nesting level of the statement.
    pub level: u32,
}

/// The model of a statement: one `SELECT`, top-level or nested.
pub struct NvSelectView<T> {
    /// The first free bind parameter.
    pub current_param_index: u32,
    /// The counter with which the statement was started.
    pub first_param_index: u32,
    /// The bind parameter to which the first bound value belongs.
    pub base_param_index: u32,
    /// The blocks of joins, in the order in which they were closed.
    pub joins: Seq<JoinStatementView<T>>,
    /// The `FROM` clause; absent until it is first closed, and while it is at
    /// hand.
    pub from_statement: Option<FromTableStatementView<T>>,
    /// The selected fields, in order.
    pub fields: Seq<FieldDefView>,
    /// The bound values, in the order of their bind parameters; empty while
    /// another part of the tree is at hand.
    pub parameter_values: Seq<T>,
    /// The `FROM` clause that waits for this statement, if it was started
    /// there.
    pub subquery_from_parent: Option<Box<FromTableStatementView<T>>>,
    /// The `WHERE` clause; absent until it is first closed, and while it is
    /// at hand.
    pub where_statement: Option<WhereStatementView<T>>,
    /// The `ORDER BY` clause; absent until it is first closed, and while it
    /// is at hand.
    pub order_by: Option<OrderByStatementView<T>>,
    /// The `GROUP BY` clause; absent until it is first closed, and while it
    /// is at hand.
    pub group_by: Option<GroupByStatementView<T>>,
    /// The `WHERE` clause that waits for this statement, if it was started
    /// there.
    pub subquery_where_parent: Option<Box<WhereStatementView<T>>>,
    /// The name under which the statement stands in its parent; empty at
    /// the top.
    pub table_alias: Seq<char>,
    /// The nesting level; 0 at the top.
    pub level: u32,
    /// The dialect in which placeholders are written.
    pub dialect: DatabaseDialect,
}

/// Every field writes its placeholders in `dialect`.
pub open spec fn fields_speak(fields: Seq<FieldDefView>, dialect: DatabaseDialect) -> bool {
    forall|k: int| 0 <= k < fields.len() ==> (#[trigger] fields[k]).dialect == dialect
}

/// Every entry writes its placeholders in `dialect`.
pub open spec fn entries_speak<T>(entries: Seq<FromEntryView<T>>, dialect: DatabaseDialect) -> bool
    decreases entries, 0nat,
{
    if entries.len() == 0 {
        true
    } else {
        entries_speak(entries.drop_last(), dialect) && entries.last().speaks(dialect)
    }
}

/// Every condition writes its placeholders in `dialect`.
pub open spec fn conditions_speak<T>(
    conditions: Seq<ConditionView<T>>,
    dialect: DatabaseDialect,
) -> bool
    decreases conditions, 0nat,
{
    if conditions.len() == 0 {
        true
    } else {
        conditions_speak(conditions.drop_last(), dialect) && conditions.last().speaks(dialect)
    }
}

/// How often the entries write the placeholder of bind parameter `i`.
pub open spec fn entries_uses<T>(entries: Seq<FromEntryView<T>>, i: int) -> nat
    decreases entries, 0nat,
{
    if entries.len() == 0 {
        0
    } else {
        entries_uses(entries.drop_last(), i) + entries.last().uses(i)
    }
}

/// How often the conditions write the placeholder of bind parameter `i`.
pub open spec fn conditions_uses<T>(conditions: Seq<ConditionView<T>>, i: int) -> nat
    decreases conditions, 0nat,
{
    if conditions.len() == 0 {
        0
    } else {
        conditions_uses(conditions.drop_last(), i) + conditions.last().uses(i)
    }
}

impl<T> GroupByStatementView<T> {
    /// The keys, separated by `, `.
    pub open spec fn query_text(self) -> Seq<char> {
        join_texts(group_texts(self.sorts), ", "@)
    }
}

impl<T> OrderByStatementView<T> {
    /// The keys, separated by `, `.
    pub open spec fn query_text(self) -> Seq<char> {
        join_texts(order_texts(self.sorts), ", "@)
    }
}

impl<T> FromEntryView<T> {
    /// A table by its name and alias; a nested statement in parentheses,
    /// followed by its alias.  In the indented form the nested statement
    /// starts on a line of its own; in the one-line form it follows the
    /// opening bracket at once.
    pub open spec fn entry_text(self, pretty: bool) -> Seq<char>
        decreases self,
    {
        match self {
            FromEntryView::Table(t) => t.table_text(),
            FromEntryView::Subquery(s) => (if pretty {
                "(\n"@
            } else {
                "("@
            }) + s.query_text(pretty) + ")"@ + name_suffix(s.table_alias),
        }
    }

    /// The entry writes its placeholders in `dialect`: a table writes
    /// none, a nested statement must be of that dialect throughout.
    pub open spec fn speaks(self, dialect: DatabaseDialect) -> bool
        decreases self, 0nat,
    {
        match self {
            FromEntryView::Table(t) => true,
            FromEntryView::Subquery(s) => s.speaks(dialect),
        }
    }

    /// How often the entry writes the placeholder of bind parameter `i`.
    pub open spec fn uses(self, i: int) -> nat
        decreases self, 0nat,
    {
        match self {
            FromEntryView::Table(t) => 0,
            FromEntryView::Subquery(s) => s.uses(i),
        }
    }
}

impl<T> FromTableStatementView<T> {
    /// The texts of the entries, in order; in the indented form each stands
    /// behind the indentation of `level + 1`.
    pub open spec fn entry_texts(self, pretty: bool) -> Seq<Seq<char>>
        decreases self, 0nat,
    {
        Seq::new(
            self.entries.len(),
            |k: int|
                if 0 <= k < self.entries.len() {
                    if pretty {
                        indent_text((self.level + 1) as nat) + self.entries[k].entry_text(pretty)
                    } else {
                        self.entries[k].entry_text(pretty)
                    }
                } else {
                    Seq::empty()
                },
        )
    }

    /// The entries, separated by a comma and a space, or in the indented form
    /// by a comma and a line break.
    pub open spec fn query_text(self, pretty: bool) -> Seq<char>
        decreases self, 1nat,
    {
        join_texts(
            self.entry_texts(pretty),
            if pretty {
                ",\n"@
            } else {
                ", "@
            },
        )
    }

    /// The clause and all that is nested in it are of `dialect`.
    pub open spec fn speaks(self, dialect: DatabaseDialect) -> bool
        decreases self, 0nat,
    {
        self.dialect == dialect && entries_speak(self.entries, dialect)
    }

    /// How often the clause writes the placeholder of bind parameter `i`.
    pub open spec fn uses(self, i: int) -> nat
        decreases self, 0nat,
    {
        entries_uses(self.entries, i)
    }
}

impl<T> ConditionView<T> {
    /// The number of bind parameters that the condition itself takes.
    pub open spec fn arity(self) -> nat {
        if self.mode == ConditionMode::Comparator {
            comparator_arity(self.operation, self.value_size as nat)
        } else {
            0
        }
    }

    /// A comparator: `BETWEEN` with its two placeholders, `IN` with its list,
    /// any other with its one placeholder.
    pub open spec fn comparator_text(self) -> Seq<char> {
        match self.operation {
            SqlOperator::Between => self.field_name + " BETWEEN "@ + placeholder_text(
                self.dialect,
                self.start_index as nat,
            ) + " AND "@ + placeholder_text(self.dialect, (self.start_index + 1) as nat),
            SqlOperator::In => self.field_name + " IN ("@ + join_texts(
                placeholder_list(self.dialect, self.start_index as nat, self.value_size as nat),
                ", "@,
            ) + ")"@,
            _ => self.field_name + " "@ + self.operation.label() + " "@ + placeholder_text(
                self.dialect,
                self.start_index as nat,
            ),
        }
    }

    /// The text of the nested statement; empty while there is none.
    pub open spec fn subquery_text(self, pretty: bool) -> Seq<char>
        decreases self, 0nat,
    {
        match self.subquery {
            Some(s) => s.query_text(pretty),
            None => Seq::empty(),
        }
    }

    /// The text of the condition.
    pub open spec fn query_text(self, pretty: bool) -> Seq<char>
        decreases self, 1nat,
    {
        match self.mode {
            ConditionMode::StartGroup => "("@,
            ConditionMode::EndGroup => ")"@,
            ConditionMode::LogicalOperator => " "@ + self.logic_operator.label() + " "@,
            ConditionMode::Comparator => self.comparator_text(),
            ConditionMode::Subquery => self.field_name + " "@ + self.operation.label() + " ("@
                + self.subquery_text(pretty) + ")"@ + name_suffix(self.table_alias) + " "@,
        }
    }

    /// The condition and the statement nested in it are of `dialect`.
    pub open spec fn speaks(self, dialect: DatabaseDialect) -> bool
        decreases self, 0nat,
    {
        self.dialect == dialect && match self.subquery {
            Some(s) => s.speaks(dialect),
            None => true,
        }
    }

    /// How often the condition writes the placeholder of bind parameter `i`.
    pub open spec fn uses(self, i: int) -> nat
        decreases self, 0nat,
    {
        match self.mode {
            ConditionMode::Comparator => in_range(
                self.start_index as int,
                self.start_index + self.arity(),
                i,
            ),
            ConditionMode::Subquery => match self.subquery {
                Some(s) => s.uses(i),
                None => 0,
            },
            _ => 0,
        }
    }
}

impl<T> WhereStatementView<T> {
    /// The texts of the conditions, in order.
    pub open spec fn condition_texts(self, pretty: bool) -> Seq<Seq<char>>
        decreases self, 0nat,
    {
        Seq::new(
            self.conditions.len(),
            |k: int|
                if 0 <= k < self.conditions.len() {
                    self.conditions[k].query_text(pretty)
                } else {
                    Seq::empty()
                },
        )
    }

    /// The conditions one after another, behind `WHERE ` where that is asked
    /// for.
    pub open spec fn query_text(self, pretty: bool, append_where_keyword: bool) -> Seq<char>
        decreases self, 1nat,
    {
        (if append_where_keyword {
            "WHERE "@
        } else {
            Seq::empty()
        }) + concat_texts(self.condition_texts(pretty))
    }

    /// The clause and all that is nested in it are of `dialect`.
    pub open spec fn speaks(self, dialect: DatabaseDialect) -> bool
        decreases self, 0nat,
    {
        self.dialect == dialect && conditions_speak(self.conditions, dialect)
    }

    /// How often the clause writes the placeholder of bind parameter `i`.
    pub open spec fn uses(self, i: int) -> nat
        decreases self, 0nat,
    {
        conditions_uses(self.conditions, i)
    }
}

/// A join of two tables on one line: the keyword, the joined table, and the
/// equality of the two join fields.
pub open spec fn record_join_line(
    keyword: Seq<char>,
    left: RecordKeyView,
    right: RecordKeyView,
) -> Seq<char> {
    keyword + " "@ + right.table_text() + " ON "@ + left.field_text() + " = "@
        + right.field_text()
}

/// A join of two tables on three lines: the keyword at `level`, the joined
/// table one level deeper, the equality of the join fields two levels deeper.
pub open spec fn record_join_block(
    keyword: Seq<char>,
    level: u32,
    left: RecordKeyView,
    right: RecordKeyView,
) -> Seq<char> {
    indent_text(level as nat) + keyword + "\n"@ + indent_text((level + 1) as nat)
        + right.table_text() + " ON\n"@ + indent_text((level + 2) as nat) + left.field_text()
        + " = "@ + right.field_text()
}

/// The key of a joined text, qualified by the alias unless that is empty.
pub open spec fn joined_key_text(alias: Seq<char>, key: Seq<char>) -> Seq<char> {
    if alias.len() == 0 {
        key
    } else {
        alias + "."@ + key
    }
}

/// A join with a statement given as text: the keyword, the text in
/// parentheses, its alias, and the comparison of the two operands.
pub open spec fn text_join_line(
    keyword: Seq<char>,
    text: Seq<char>,
    alias: Seq<char>,
    first: Seq<char>,
    op: SqlOperator,
    second: Seq<char>,
) -> Seq<char> {
    keyword + " ("@ + text + ") "@ + name_suffix(alias) + " ON "@ + first + " "@ + op.label()
        + " "@ + second
}

impl<T> JoinDefView<T> {
    /// A join of two tables.  An inner or a left join has an indented form;
    /// a right join is always written on one line.
    pub open spec fn record_join_text(self, pretty: bool) -> Seq<char> {
        match self.join_type {
            SqlJoinType::NoJoin => Seq::empty(),
            SqlJoinType::RightJoin => record_join_line(
                "RIGHT JOIN"@,
                self.left_table,
                self.right_table,
            ),
            SqlJoinType::InnerJoin => if pretty {
                record_join_block("INNER JOIN"@, self.level, self.left_table, self.right_table)
            } else {
                record_join_line("INNER JOIN"@, self.left_table, self.right_table)
            },
            SqlJoinType::LeftJoin => if pretty {
                record_join_block("LEFT JOIN"@, self.level, self.left_table, self.right_table)
            } else {
                record_join_line("LEFT JOIN"@, self.left_table, self.right_table)
            },
        }
    }

    /// A join of a table with a statement given as text.  A left join names
    /// the text's key first, the others the table's field.
    pub open spec fn text_join_text(self) -> Seq<char> {
        let key = joined_key_text(self.subquery_str_alias, self.subquery_field_key);
        let field = self.left_table.field_text();
        match self.join_type {
            SqlJoinType::NoJoin => Seq::empty(),
            SqlJoinType::LeftJoin => text_join_line(
                "LEFT JOIN"@,
                self.subquery_str,
                self.subquery_str_alias,
                key,
                self.operator,
                field,
            ),
            SqlJoinType::InnerJoin => text_join_line(
                "INNER JOIN"@,
                self.subquery_str,
                self.subquery_str_alias,
                field,
                self.operator,
                key,
            ),
            SqlJoinType::RightJoin => text_join_line(
                "RIGHT JOIN"@,
                self.subquery_str,
                self.subquery_str_alias,
                field,
                self.operator,
                key,
            ),
        }
    }

    /// The one-line text of the joined statement; empty where there is none.
    pub open spec fn object_join_text(self) -> Seq<char>
        decreases self, 0nat,
    {
        match self.subquery_obj {
            Some(s) => s.query_text(false),
            None => Seq::empty(),
        }
    }

    /// The text of the join.  A join of no kind writes nothing, however its
    /// sides are given.
    pub open spec fn query_text(self, pretty: bool) -> Seq<char>
        decreases self, 1nat,
    {
        match self.join_mode {
            JoinDefMode::RecordKeyBoth => self.record_join_text(pretty),
            JoinDefMode::SubquerySelectString => self.text_join_text(),
            JoinDefMode::SubquerySelectObject => if self.join_type == SqlJoinType::NoJoin {
                Seq::empty()
            } else {
                self.object_join_text()
            },
            JoinDefMode::SubqueryRawString => Seq::empty(),
        }
    }
}

impl<T> JoinStatementView<T> {
    /// The texts of the joins, in order.
    pub open spec fn join_def_texts(self, pretty: bool) -> Seq<Seq<char>>
        decreases self, 0nat,
    {
        Seq::new(
            self.joins.len(),
            |k: int|
                if 0 <= k < self.joins.len() {
                    self.joins[k].query_text(pretty)
                } else {
                    Seq::empty()
                },
        )
    }

    /// The joins, separated by a space, or in the indented form by a line
    /// break.
    pub open spec fn query_text(self, pretty: bool) -> Seq<char>
        decreases self, 1nat,
    {
        join_texts(
            self.join_def_texts(pretty),
            if pretty {
                "\n"@
            } else {
                " "@
            },
        )
    }

    /// The block and its joins are of `dialect`.
    pub open spec fn speaks(self, dialect: DatabaseDialect) -> bool {
        &&& self.dialect == dialect
        &&& forall|k: int|
            0 <= k < self.joins.len() ==> (#[trigger] self.joins[k]).dialect == dialect
    }

    /// No join of the block carries a nested statement.
    pub open spec fn binds_nothing(self) -> bool {
        forall|k: int| 0 <= k < self.joins.len() ==> (#[trigger] self.joins[k]).subquery_obj is None
    }
}

impl<T> NvSelectView<T> {
    /// The `SELECT` keyword and the field list.
    pub open spec fn select_text(self, pretty: bool) -> Seq<char> {
        if pretty {
            indent_text(self.level as nat) + "SELECT \n"@ + join_texts(
                field_texts(self.fields, self.level, true),
                ",\n"@,
            )
        } else {
            "SELECT "@ + join_texts(field_texts(self.fields, self.level, false), ", "@)
        }
    }

    /// The `FROM` section; empty while the clause is absent or has no entry.
    pub open spec fn from_text(self, pretty: bool) -> Seq<char>
        decreases self, 0nat,
    {
        match self.from_statement {
            Some(f) => if f.entries.len() == 0 {
                Seq::empty()
            } else if pretty {
                "\n"@ + indent_text(self.level as nat) + "FROM \n"@ + f.query_text(true)
            } else {
                " FROM "@ + f.query_text(false)
            },
            None => Seq::empty(),
        }
    }

    /// The texts of the join blocks, in order.
    pub open spec fn join_block_texts(self, pretty: bool) -> Seq<Seq<char>>
        decreases self, 0nat,
    {
        Seq::new(
            self.joins.len(),
            |k: int|
                if 0 <= k < self.joins.len() {
                    self.joins[k].query_text(pretty)
                } else {
                    Seq::empty()
                },
        )
    }

    /// The join section: a space, or in the indented form a line break, in
    /// front of each block; empty while there is no block.
    pub open spec fn join_text(self, pretty: bool) -> Seq<char>
        decreases self, 1nat,
    {
        let sep = if pretty {
            "\n"@
        } else {
            " "@
        };
        if self.joins.len() == 0 {
            Seq::empty()
        } else {
            sep + join_texts(self.join_block_texts(pretty), sep)
        }
    }

    /// The `WHERE` section; empty while the clause is absent.
    pub open spec fn where_text(self, pretty: bool) -> Seq<char>
        decreases self, 0nat,
    {
        match self.where_statement {
            Some(w) => if pretty {
                "\n"@ + indent_text(self.level as nat) + "WHERE\n"@ + indent_text(
                    (self.level + 1) as nat,
                ) + w.query_text(true, false)
            } else {
                " WHERE "@ + w.query_text(false, false)
            },
            None => Seq::empty(),
        }
    }

    /// The `GROUP BY` section; empty while the clause is absent.
    pub open spec fn group_by_text(self, pretty: bool) -> Seq<char> {
        match self.group_by {
            Some(g) => if pretty {
                "\n"@ + indent_text(self.level as nat) + "GROUP BY\n"@ + indent_text(
                    (self.level + 1) as nat,
                ) + g.query_text()
            } else {
                " GROUP BY "@ + g.query_text()
            },
            None => Seq::empty(),
        }
    }

    /// The `ORDER BY` section; empty while the clause is absent.
    pub open spec fn order_by_text(self, pretty: bool) -> Seq<char> {
        match self.order_by {
            Some(o) => if pretty {
                "\n"@ + indent_text(self.level as nat) + "ORDER BY\n"@ + indent_text(
                    (self.level + 1) as nat,
                ) + o.query_text()
            } else {
                " ORDER BY "@ + o.query_text()
            },
            None => Seq::empty(),
        }
    }

    /// The text of the statement: the sections in their fixed order.
    pub open spec fn query_text(self, pretty: bool) -> Seq<char>
        decreases self, 2nat,
    {
        self.select_text(pretty) + self.from_text(pretty) + self.join_text(pretty)
            + self.where_text(pretty) + self.group_by_text(pretty) + self.order_by_text(pretty)
    }

    /// The `FROM` clause, if there is one, is of `dialect` throughout.
    pub open spec fn from_speaks(self, dialect: DatabaseDialect) -> bool
        decreases self, 0nat,
    {
        match self.from_statement {
            Some(f) => f.speaks(dialect),
            None => true,
        }
    }

    /// The `WHERE` clause, if there is one, is of `dialect` throughout.
    pub open spec fn where_speaks(self, dialect: DatabaseDialect) -> bool
        decreases self, 0nat,
    {
        match self.where_statement {
            Some(w) => w.speaks(dialect),
            None => true,
        }
    }

    /// The statement, its fields, its `FROM` and its `WHERE` clause and all
    /// that is nested in them are of `dialect`.
    pub open spec fn speaks(self, dialect: DatabaseDialect) -> bool
        decreases self, 1nat,
    {
        &&& self.dialect == dialect
        &&& fields_speak(self.fields, dialect)
        &&& self.from_speaks(dialect)
        &&& self.where_speaks(dialect)
    }

    /// How often the `FROM` clause writes the placeholder of bind parameter
    /// `i`.
    pub open spec fn from_uses(self, i: int) -> nat
        decreases self, 0nat,
    {
        match self.from_statement {
            Some(f) => f.uses(i),
            None => 0,
        }
    }

    /// How often the `WHERE` clause writes the placeholder of bind parameter
    /// `i`.
    pub open spec fn where_uses(self, i: int) -> nat
        decreases self, 0nat,
    {
        match self.where_statement {
            Some(w) => w.uses(i),
            None => 0,
        }
    }

    /// How often the statement, with all that is nested in its fields, its
    /// `FROM` and its `WHERE` clause, writes the placeholder of bind
    /// parameter `i`.
    pub open spec fn uses(self, i: int) -> nat
        decreases self, 1nat,
    {
        fields_uses(self.fields, i) + self.from_uses(i) + self.where_uses(i)
    }
}

} // verus!
