//! The allocation of bind parameters: when a statement tree is well formed,
//! what each step of the builder does to the model, and that every step
//! keeps the tree well formed.
//!
//! A handle owns the part of the tree that it is working on and, through its
//! parent link, the parts that wait for it.  The counter and the list of
//! bound values travel with the handle.  A tree is well formed when the
//! fragments of the statement at hand, together with the clause being
//! filled, write each bind parameter between the statement's first index and
//! the counter exactly once, and the same holds of every statement that
//! waits further up.

use crate::sqlbuilder::def::{DatabaseDialect, JoinDefMode, LogicOperator, SqlJoinType, SqlOperator};
use crate::sqlbuilder::model::{
    arity_accepted, comparator_arity, conditions_speak, conditions_uses, entries_speak,
    entries_uses, fields_uses, in_range, ConditionView, FieldDefView, FromEntryView,
    FromTableStatementView, FromTableView, GroupByClauseView, GroupByStatementView, JoinDefView,
    JoinStatementView, NvSelectView, OrderByClauseView, OrderByStatementView, RecordKeyView,
    WhereStatementView,
};
use crate::sqlbuilder::where_statement::ConditionMode;
use vstd::prelude::*;

verus! {

/// Whether a nesting level leaves room for the levels of what may be nested
/// directly in a statement or clause that stands at it.
pub open spec fn level_fits(level: u32) -> bool {
    level + 2 <= u32::MAX
}

// ---------------------------------------------------------------------------
// Well-formedness
// ---------------------------------------------------------------------------
impl<T> NvSelectView<T> {
    /// No join block of the statement carries a nested statement.
    pub open spec fn joins_bind_nothing(self) -> bool {
        forall|k: int| 0 <= k < self.joins.len() ==> (#[trigger] self.joins[k]).binds_nothing()
    }

    /// Every join block of the statement is of the statement's dialect.
    pub open spec fn joins_speak(self) -> bool {
        forall|k: int| 0 <= k < self.joins.len() ==> (#[trigger] self.joins[k]).speaks(self.dialect)
    }

    /// The statement writes each bind parameter from its first index up to
    /// its counter exactly once, and no other.
    pub open spec fn covers(self) -> bool {
        forall|i: int|
            #[trigger] self.uses(i) == in_range(
                self.first_param_index as int,
                self.current_param_index as int,
                i,
            )
    }

    /// What must hold in and around the statement apart from the numbering
    /// of what it holds: its level leaves room for what may be nested in
    /// it; it is of one dialect throughout, with all that is nested in it;
    /// its join blocks carry no nested statement; and the clause that waits
    /// for it, if one does, is of the same dialect, is consistent as it was
    /// left, was left at this statement's first index, and, being a `WHERE`
    /// clause, ends in the condition that waits for this statement.
    pub open spec fn context_ok(self) -> bool
        decreases self, 0nat,
    {
        &&& level_fits(self.level)
        &&& self.base_param_index <= self.first_param_index
        &&& self.speaks(self.dialect)
        &&& self.joins_speak()
        &&& self.joins_bind_nothing()
        &&& match (self.subquery_where_parent, self.subquery_from_parent) {
            (None, None) => true,
            (Some(w), None) => {
                &&& w.frame_ok()
                &&& w.awaits_subquery()
                &&& w.dialect == self.dialect
                &&& w.current_param_index == self.first_param_index
                &&& w.base_param_index == self.base_param_index
            },
            (None, Some(f)) => {
                &&& f.frame_ok()
                &&& f.dialect == self.dialect
                &&& f.current_parameter_index == self.first_param_index
                &&& f.base_parameter_index == self.base_param_index
            },
            (Some(_), Some(_)) => false,
        }
    }

    /// The statement and all that waits for it are consistent.
    pub open spec fn frame_ok(self) -> bool
        decreases self, 1nat,
    {
        &&& self.first_param_index <= self.current_param_index
        &&& self.covers()
        &&& self.context_ok()
    }

    /// The statement is well formed as the part at hand: it is consistent,
    /// and it holds one bound value for each bind parameter from the base
    /// index up to the counter.
    pub open spec fn wf(self) -> bool {
        &&& self.frame_ok()
        &&& self.base_param_index + self.parameter_values.len() == self.current_param_index
    }
}

impl<T> WhereStatementView<T> {
    /// The clause ends in a comparison with a nested statement that is still
    /// to come.
    pub open spec fn awaits_subquery(self) -> bool {
        &&& self.conditions.len() > 0
        &&& self.conditions.last().mode == ConditionMode::Subquery
        &&& self.conditions.last().subquery is None
    }

    /// The first bind parameter of the statement that the clause belongs to.
    pub open spec fn region_start(self) -> int {
        match self.parent {
            Some(p) => p.first_param_index as int,
            None => self.base_param_index as int,
        }
    }

    /// How often the rest of the statement writes the placeholder of bind
    /// parameter `i`.
    pub open spec fn outer_uses(self, i: int) -> nat {
        match self.parent {
            Some(p) => p.uses(i),
            None => 0,
        }
    }

    /// How often the clause and the rest of its statement together write
    /// the placeholder of bind parameter `i`.
    pub open spec fn statement_uses(self, i: int) -> nat {
        self.uses(i) + self.outer_uses(i)
    }

    /// The clause and the rest of its statement together write each bind
    /// parameter from the statement's first index up to the counter exactly
    /// once, and no other.
    pub open spec fn covers(self) -> bool {
        forall|i: int|
            #[trigger] self.statement_uses(i) == in_range(
                self.region_start(),
                self.current_param_index as int,
                i,
            )
    }

    /// The clause and all that waits for it are consistent.
    pub open spec fn frame_ok(self) -> bool
        decreases self, 0nat,
    {
        &&& level_fits(self.level)
        &&& self.region_start() <= self.current_param_index
        &&& self.covers()
        &&& self.speaks(self.dialect)
        &&& match self.parent {
            Some(p) => {
                &&& p.where_statement is None
                &&& p.dialect == self.dialect
                &&& p.base_param_index == self.base_param_index
                &&& p.context_ok()
            },
            None => true,
        }
    }

    /// The clause is well formed as the part at hand.
    pub open spec fn wf(self) -> bool {
        &&& self.frame_ok()
        &&& self.base_param_index + self.parameter_values.len() == self.current_param_index
    }
}

impl<T> FromTableStatementView<T> {
    /// The first bind parameter of the statement that the clause belongs to.
    pub open spec fn region_start(self) -> int {
        match self.parent {
            Some(p) => p.first_param_index as int,
            None => self.base_parameter_index as int,
        }
    }

    /// How often the rest of the statement writes the placeholder of bind
    /// parameter `i`.
    pub open spec fn outer_uses(self, i: int) -> nat {
        match self.parent {
            Some(p) => p.uses(i),
            None => 0,
        }
    }

    /// How often the clause and the rest of its statement together write
    /// the placeholder of bind parameter `i`.
    pub open spec fn statement_uses(self, i: int) -> nat {
        self.uses(i) + self.outer_uses(i)
    }

    /// The clause and the rest of its statement together write each bind
    /// parameter from the statement's first index up to the counter exactly
    /// once, and no other.
    pub open spec fn covers(self) -> bool {
        forall|i: int|
            #[trigger] self.statement_uses(i) == in_range(
                self.region_start(),
                self.current_parameter_index as int,
                i,
            )
    }

    /// The clause and all that waits for it are consistent.
    pub open spec fn frame_ok(self) -> bool
        decreases self, 0nat,
    {
        &&& level_fits(self.level)
        &&& self.region_start() <= self.current_parameter_index
        &&& self.covers()
        &&& self.speaks(self.dialect)
        &&& match self.parent {
            Some(p) => {
                &&& p.from_statement is None
                &&& p.dialect == self.dialect
                &&& p.base_param_index == self.base_parameter_index
                &&& p.context_ok()
            },
            None => true,
        }
    }

    /// The clause is well formed as the part at hand.
    pub open spec fn wf(self) -> bool {
        &&& self.frame_ok()
        &&& self.base_parameter_index + self.parameter_values.len()
            == self.current_parameter_index
    }
}

impl<T> JoinStatementView<T> {
    /// The block carries no nested statement and is of one dialect, and the
    /// statement that waits for it is well formed and of the same dialect.
    pub open spec fn wf(self) -> bool {
        &&& self.binds_nothing()
        &&& self.speaks(self.dialect)
        &&& match self.parent {
            Some(p) => p.wf() && p.dialect == self.dialect,
            None => true,
        }
    }
}

impl<T> GroupByStatementView<T> {
    /// The statement that waits for the clause is well formed.
    pub open spec fn wf(self) -> bool {
        match self.parent {
            Some(p) => p.wf(),
            None => true,
        }
    }
}

impl<T> OrderByStatementView<T> {
    /// The statement that waits for the clause is well formed.
    pub open spec fn wf(self) -> bool {
        match self.parent {
            Some(p) => p.wf(),
            None => true,
        }
    }
}

// ---------------------------------------------------------------------------
// The steps of the builder, on the model
// ---------------------------------------------------------------------------
impl<T> ConditionView<T> {
    /// A comparator on `field_name` that binds its values from `start` on.
    pub open spec fn comparator(
        field_name: Seq<char>,
        op: SqlOperator,
        value_size: u32,
        start: u32,
        level: u32,
        dialect: DatabaseDialect,
    ) -> Self {
        ConditionView {
            field_name,
            subquery: None,
            operation: op,
            value_size,
            start_index: start,
            param_index: (start + comparator_arity(op, value_size as nat)) as u32,
            level,
            logic_operator: LogicOperator::And,
            mode: ConditionMode::Comparator,
            table_alias: Seq::empty(),
            dialect,
        }
    }

    /// A connector or a group delimiter.
    pub open spec fn connector(
        logic_operator: LogicOperator,
        mode: ConditionMode,
        level: u32,
        dialect: DatabaseDialect,
    ) -> Self {
        ConditionView {
            field_name: Seq::empty(),
            subquery: None,
            operation: SqlOperator::Equal,
            value_size: 0,
            start_index: 0,
            param_index: 0,
            level,
            logic_operator,
            mode,
            table_alias: Seq::empty(),
            dialect,
        }
    }

    /// A comparison with a nested statement that is still to come.
    pub open spec fn open_subquery(
        field_name: Seq<char>,
        subquery_name: Seq<char>,
        op: SqlOperator,
        start: u32,
        level: u32,
        dialect: DatabaseDialect,
    ) -> Self {
        ConditionView {
            field_name,
            subquery: None,
            operation: op,
            value_size: 0,
            start_index: start,
            param_index: start,
            level,
            logic_operator: LogicOperator::And,
            mode: ConditionMode::Subquery,
            table_alias: subquery_name,
            dialect,
        }
    }

    /// The condition with `s` as its finished nested statement.
    pub open spec fn closed_with(self, s: NvSelectView<T>) -> Self {
        ConditionView {
            subquery: Some(Box::new(s.detached())),
            param_index: s.current_param_index,
            ..self
        }
    }
}

impl<T> NvSelectView<T> {
    /// A statement without fields and clauses.
    pub open spec fn fresh(
        dialect: DatabaseDialect,
        first: u32,
        base: u32,
        values: Seq<T>,
        level: u32,
        table_alias: Seq<char>,
    ) -> Self {
        NvSelectView {
            current_param_index: first,
            first_param_index: first,
            base_param_index: base,
            joins: Seq::empty(),
            from_statement: None,
            fields: Seq::empty(),
            parameter_values: values,
            subquery_from_parent: None,
            where_statement: None,
            order_by: None,
            group_by: None,
            subquery_where_parent: None,
            table_alias,
            level,
            dialect,
        }
    }

    /// The statement as it stands inside its parent once it is finished:
    /// without parent link and without the list of values.
    pub open spec fn detached(self) -> Self {
        NvSelectView {
            subquery_where_parent: None,
            subquery_from_parent: None,
            parameter_values: Seq::empty(),
            ..self
        }
    }

    /// The statement with one more field that binds nothing.
    pub open spec fn with_field(self, f: FieldDefView) -> Self {
        NvSelectView { fields: self.fields.push(f), ..self }
    }

    /// The statement with one more function call, which binds `bound`.
    pub open spec fn with_call(self, f: FieldDefView, bound: Seq<T>) -> Self {
        NvSelectView {
            fields: self.fields.push(f),
            current_param_index: f.current_parameter_index,
            parameter_values: self.parameter_values + bound,
            ..self
        }
    }

    /// The `WHERE` clause at hand, with the statement waiting for it: the
    /// clause that the statement had, or an empty one.
    pub open spec fn open_where(self) -> WhereStatementView<T> {
        let waiting = NvSelectView {
            where_statement: None,
            parameter_values: Seq::empty(),
            ..self
        };
        match self.where_statement {
            Some(w) => WhereStatementView {
                parent: Some(Box::new(waiting)),
                parameter_values: self.parameter_values,
                level: self.level,
                current_param_index: self.current_param_index,
                base_param_index: self.base_param_index,
                ..w
            },
            None => WhereStatementView {
                parent: Some(Box::new(waiting)),
                parameter_values: self.parameter_values,
                conditions: Seq::empty(),
                level: self.level,
                current_param_index: self.current_param_index,
                base_param_index: self.base_param_index,
                dialect: self.dialect,
            },
        }
    }

    /// The `FROM` clause at hand, with the statement waiting for it: the
    /// clause that the statement had, or an empty one.
    pub open spec fn open_from(self) -> FromTableStatementView<T> {
        let waiting = NvSelectView {
            from_statement: None,
            parameter_values: Seq::empty(),
            ..self
        };
        match self.from_statement {
            Some(f) => FromTableStatementView {
                parent: Some(Box::new(waiting)),
                parameter_values: self.parameter_values,
                current_parameter_index: self.current_param_index,
                base_parameter_index: self.base_param_index,
                level: self.level,
                ..f
            },
            None => FromTableStatementView {
                parent: Some(Box::new(waiting)),
                entries: Seq::empty(),
                parameter_values: self.parameter_values,
                current_parameter_index: self.current_param_index,
                base_parameter_index: self.base_param_index,
                level: self.level,
                dialect: self.dialect,
            },
        }
    }

    /// A new block of joins, with the statement waiting for it.
    pub open spec fn open_join(self) -> JoinStatementView<T> {
        JoinStatementView {
            parent: Some(Box::new(self)),
            joins: Seq::empty(),
            current_parameter_index: self.current_param_index,
            level: self.level,
            dialect: self.dialect,
        }
    }

    /// The `GROUP BY` clause at hand, with the statement waiting for it.
    pub open spec fn open_group_by(self) -> GroupByStatementView<T> {
        let waiting = NvSelectView { group_by: None, ..self };
        match self.group_by {
            Some(g) => GroupByStatementView { parent: Some(Box::new(waiting)), ..g },
            None => GroupByStatementView {
                parent: Some(Box::new(waiting)),
                sorts: Seq::empty(),
                level: self.level,
                param_index: self.current_param_index,
            },
        }
    }

    /// The `ORDER BY` clause at hand, with the statement waiting for it.
    pub open spec fn open_order_by(self) -> OrderByStatementView<T> {
        let waiting = NvSelectView { order_by: None, ..self };
        match self.order_by {
            Some(o) => OrderByStatementView { parent: Some(Box::new(waiting)), ..o },
            None => OrderByStatementView {
                parent: Some(Box::new(waiting)),
                sorts: Seq::empty(),
                level: self.level,
            },
        }
    }

    /// The `WHERE` clause that waited for this statement, with the statement
    /// in its last condition and the counter taken over.
    pub open spec fn leave_where(self) -> WhereStatementView<T>
        recommends
            self.subquery_where_parent is Some,
    {
        let w = *self.subquery_where_parent->0;
        WhereStatementView {
            conditions: w.conditions.drop_last().push(w.conditions.last().closed_with(self)),
            current_param_index: self.current_param_index,
            parameter_values: self.parameter_values,
            ..w
        }
    }

    /// The `FROM` clause that waited for this statement, with the statement
    /// as its last entry and the counter taken over.
    pub open spec fn leave_from(self) -> FromTableStatementView<T>
        recommends
            self.subquery_from_parent is Some,
    {
        let f = *self.subquery_from_parent->0;
        FromTableStatementView {
            entries: f.entries.push(FromEntryView::Subquery(Box::new(self.detached()))),
            current_parameter_index: self.current_param_index,
            parameter_values: self.parameter_values,
            ..f
        }
    }
}

impl<T> WhereStatementView<T> {
    /// The clause as it stands inside its statement: without parent link and
    /// without the list of values.
    pub open spec fn detached(self) -> Self {
        WhereStatementView { parent: None, parameter_values: Seq::empty(), ..self }
    }

    /// The clause with one more fragment.
    pub open spec fn with_condition(self, c: ConditionView<T>) -> Self {
        WhereStatementView { conditions: self.conditions.push(c), ..self }
    }

    /// The clause with one more connector or group delimiter.
    pub open spec fn with_connector(
        self,
        logic_operator: LogicOperator,
        mode: ConditionMode,
    ) -> Self {
        self.with_condition(
            ConditionView::connector(logic_operator, mode, self.level, self.dialect),
        )
    }

    /// The clause with one more comparator, which binds `values` from the
    /// counter on.
    pub open spec fn bind(self, field_name: Seq<char>, op: SqlOperator, values: Seq<T>) -> Self {
        WhereStatementView {
            conditions: self.conditions.push(
                ConditionView::comparator(
                    field_name,
                    op,
                    values.len() as u32,
                    self.current_param_index,
                    (self.level + 1) as u32,
                    self.dialect,
                ),
            ),
            current_param_index: (self.current_param_index + comparator_arity(op, values.len()))
                as u32,
            parameter_values: self.parameter_values + values,
            ..self
        }
    }

    /// The nested statement at hand, with the clause waiting for it: the
    /// clause ends in the condition that the statement will fill, and the
    /// statement starts at the clause's counter.
    pub open spec fn enter_subquery(
        self,
        field_name: Seq<char>,
        op: SqlOperator,
        subquery_name: Seq<char>,
    ) -> NvSelectView<T> {
        let waiting = WhereStatementView {
            conditions: self.conditions.push(
                ConditionView::open_subquery(
                    field_name,
                    subquery_name,
                    op,
                    self.current_param_index,
                    (self.level + 1) as u32,
                    self.dialect,
                ),
            ),
            parameter_values: Seq::empty(),
            ..self
        };
        NvSelectView {
            subquery_where_parent: Some(Box::new(waiting)),
            ..NvSelectView::fresh(
                self.dialect,
                self.current_param_index,
                self.base_param_index,
                self.parameter_values,
                (self.level + 2) as u32,
                subquery_name,
            )
        }
    }

    /// The statement that waited for this clause, with the clause in place
    /// and the counter and the values taken over.
    pub open spec fn close(self) -> NvSelectView<T>
        recommends
            self.parent is Some,
    {
        NvSelectView {
            where_statement: Some(self.detached()),
            current_param_index: self.current_param_index,
            parameter_values: self.parameter_values,
            ..*self.parent->0
        }
    }
}

impl<T> FromTableStatementView<T> {
    /// The clause as it stands inside its statement: without parent link and
    /// without the list of values.
    pub open spec fn detached(self) -> Self {
        FromTableStatementView { parent: None, parameter_values: Seq::empty(), ..self }
    }

    /// The clause with one more table.
    pub open spec fn with_table(self, t: FromTableView) -> Self {
        FromTableStatementView { entries: self.entries.push(FromEntryView::Table(t)), ..self }
    }

    /// The nested statement at hand, with the clause waiting for it.
    pub open spec fn enter_subquery(self, table_alias: Seq<char>) -> NvSelectView<T> {
        let waiting = FromTableStatementView { parameter_values: Seq::empty(), ..self };
        NvSelectView {
            subquery_from_parent: Some(Box::new(waiting)),
            ..NvSelectView::fresh(
                self.dialect,
                self.current_parameter_index,
                self.base_parameter_index,
                self.parameter_values,
                (self.level + 1) as u32,
                table_alias,
            )
        }
    }

    /// The statement that waited for this clause, with the clause in place
    /// and the counter and the values taken over.
    pub open spec fn close(self) -> NvSelectView<T>
        recommends
            self.parent is Some,
    {
        NvSelectView {
            from_statement: Some(self.detached()),
            current_param_index: self.current_parameter_index,
            parameter_values: self.parameter_values,
            ..*self.parent->0
        }
    }
}

impl<T> JoinDefView<T> {
    /// A join of two tables.
    pub open spec fn record_keys(
        left_table: RecordKeyView,
        right_table: RecordKeyView,
        join_type: SqlJoinType,
        level: u32,
        dialect: DatabaseDialect,
    ) -> Self {
        JoinDefView {
            subquery_str: Seq::empty(),
            subquery_str_alias: Seq::empty(),
            subquery_field_key: Seq::empty(),
            subquery_obj: None,
            left_table,
            right_table,
            join_type,
            join_mode: JoinDefMode::RecordKeyBoth,
            operator: SqlOperator::Equal,
            level,
            dialect,
        }
    }

    /// A join of a table with a statement given as text.
    pub open spec fn joined_text(
        left_table: RecordKeyView,
        join_type: SqlJoinType,
        text: Seq<char>,
        key: Seq<char>,
        alias: Seq<char>,
        op: SqlOperator,
        level: u32,
        dialect: DatabaseDialect,
    ) -> Self {
        JoinDefView {
            subquery_str: text,
            subquery_str_alias: alias,
            subquery_field_key: key,
            subquery_obj: None,
            left_table,
            right_table: RecordKeyView {
                table: Seq::empty(),
                field: Seq::empty(),
                table_alias: None,
                initialize: false,
            },
            join_type,
            join_mode: JoinDefMode::SubquerySelectString,
            operator: op,
            level,
            dialect,
        }
    }
}

impl<T> JoinDefView<T> {
    /// A join of a table with a finished statement.
    pub open spec fn joined_statement(
        existing_table: RecordKeyView,
        subquery: NvSelectView<T>,
        join_type: SqlJoinType,
        level: u32,
        dialect: DatabaseDialect,
    ) -> Self {
        JoinDefView {
            subquery_str: Seq::empty(),
            subquery_str_alias: Seq::empty(),
            subquery_field_key: Seq::empty(),
            subquery_obj: Some(Box::new(subquery)),
            left_table: existing_table,
            right_table: RecordKeyView {
                table: Seq::empty(),
                field: Seq::empty(),
                table_alias: None,
                initialize: false,
            },
            join_type,
            join_mode: JoinDefMode::SubquerySelectObject,
            operator: SqlOperator::Equal,
            level,
            dialect,
        }
    }
}

impl<T> JoinStatementView<T> {
    /// The block with one more join.
    pub open spec fn with_join(self, j: JoinDefView<T>) -> Self {
        JoinStatementView { joins: self.joins.push(j), ..self }
    }

    /// The statement that waited for this block, with the block as its last.
    pub open spec fn close(self) -> NvSelectView<T>
        recommends
            self.parent is Some,
    {
        let p = *self.parent->0;
        NvSelectView { joins: p.joins.push(JoinStatementView { parent: None, ..self }), ..p }
    }
}

impl<T> GroupByStatementView<T> {
    /// The clause with one more key.
    pub open spec fn with_key(self, k: GroupByClauseView) -> Self {
        GroupByStatementView { sorts: self.sorts.push(k), ..self }
    }

    /// The statement that waited for this clause, with the clause in place.
    pub open spec fn close(self) -> NvSelectView<T>
        recommends
            self.parent is Some,
    {
        NvSelectView {
            group_by: Some(GroupByStatementView { parent: None, ..self }),
            ..*self.parent->0
        }
    }
}

impl<T> OrderByStatementView<T> {
    /// The clause with one more key.
    pub open spec fn with_key(self, k: OrderByClauseView) -> Self {
        OrderByStatementView { sorts: self.sorts.push(k), ..self }
    }

    /// The statement that waited for this clause, with the clause in place.
    pub open spec fn close(self) -> NvSelectView<T>
        recommends
            self.parent is Some,
    {
        NvSelectView {
            order_by: Some(OrderByStatementView { parent: None, ..self }),
            ..*self.parent->0
        }
    }
}

// ---------------------------------------------------------------------------
// Every step keeps the tree well formed
// ---------------------------------------------------------------------------
/// One more field adds its own placeholders to those of the list.
pub proof fn lemma_fields_uses_push(fields: Seq<FieldDefView>, f: FieldDefView, i: int)
    ensures
        fields_uses(fields.push(f), i) == fields_uses(fields, i) + f.uses(i),
{
    assert(fields.push(f).drop_last() =~= fields);
}

/// One more condition adds its own placeholders to those of the list.
pub proof fn lemma_conditions_uses_push<T>(
    conditions: Seq<ConditionView<T>>,
    c: ConditionView<T>,
    i: int,
)
    ensures
        conditions_uses(conditions.push(c), i) == conditions_uses(conditions, i) + c.uses(i),
{
    assert(conditions.push(c).drop_last() =~= conditions);
}

/// One more entry adds its own placeholders to those of the list.
pub proof fn lemma_entries_uses_push<T>(entries: Seq<FromEntryView<T>>, e: FromEntryView<T>, i: int)
    ensures
        entries_uses(entries.push(e), i) == entries_uses(entries, i) + e.uses(i),
{
    assert(entries.push(e).drop_last() =~= entries);
}

/// One more condition is of a dialect when the list is and the condition is.
pub proof fn lemma_conditions_speak_push<T>(
    conditions: Seq<ConditionView<T>>,
    c: ConditionView<T>,
    dialect: DatabaseDialect,
)
    ensures
        conditions_speak(conditions.push(c), dialect) == (conditions_speak(conditions, dialect)
            && c.speaks(dialect)),
{
    assert(conditions.push(c).drop_last() =~= conditions);
}

/// One more entry is of a dialect when the list is and the entry is.
pub proof fn lemma_entries_speak_push<T>(
    entries: Seq<FromEntryView<T>>,
    e: FromEntryView<T>,
    dialect: DatabaseDialect,
)
    ensures
        entries_speak(entries.push(e), dialect) == (entries_speak(entries, dialect) && e.speaks(
            dialect,
        )),
{
    assert(entries.push(e).drop_last() =~= entries);
}

/// Whether a statement is of a dialect depends on its dialect, its fields
/// and its `FROM` and `WHERE` clause alone.
pub proof fn lemma_speaks_by_parts<T>(
    a: NvSelectView<T>,
    b: NvSelectView<T>,
    dialect: DatabaseDialect,
)
    requires
        a.dialect == b.dialect,
        a.fields == b.fields,
        a.from_statement == b.from_statement,
        a.where_statement == b.where_statement,
    ensures
        a.speaks(dialect) == b.speaks(dialect),
{
    assert(a.from_speaks(dialect) == b.from_speaks(dialect));
    assert(a.where_speaks(dialect) == b.where_speaks(dialect));
}

/// A statement without fields, clauses and parent is well formed when it
/// holds one value for each bind parameter from its base index up to its
/// first.
pub proof fn lemma_fresh_wf<T>(
    dialect: DatabaseDialect,
    first: u32,
    base: u32,
    values: Seq<T>,
    level: u32,
    table_alias: Seq<char>,
)
    requires
        level_fits(level),
        base + values.len() == first,
    ensures
        NvSelectView::<T>::fresh(dialect, first, base, values, level, table_alias).wf(),
{
    let s = NvSelectView::<T>::fresh(dialect, first, base, values, level, table_alias);
    assert forall|i: int| #[trigger] s.uses(i) == 0 by {
        assert(s.from_uses(i) == 0);
        assert(s.where_uses(i) == 0);
    }
    assert(s.from_speaks(dialect));
    assert(s.where_speaks(dialect));
}

/// A field that binds nothing keeps the statement well formed.
pub proof fn lemma_with_field_wf<T>(s: NvSelectView<T>, f: FieldDefView)
    requires
        s.wf(),
        f.arity() == 0,
        f.dialect == s.dialect,
    ensures
        s.with_field(f).wf(),
{
    let r = s.with_field(f);
    assert forall|i: int| #[trigger] r.uses(i) == s.uses(i) by {
        lemma_fields_uses_push(s.fields, f, i);
        assert(r.from_uses(i) == s.from_uses(i));
        assert(r.where_uses(i) == s.where_uses(i));
    }
    assert(s.context_ok());
    assert(r.from_speaks(s.dialect) == s.from_speaks(s.dialect));
    assert(r.where_speaks(s.dialect) == s.where_speaks(s.dialect));
    assert(r.context_ok());
}

/// A function call that starts at the counter and binds as many values as
/// it takes parameters keeps the statement well formed.
pub proof fn lemma_with_call_wf<T>(s: NvSelectView<T>, f: FieldDefView, bound: Seq<T>)
    requires
        s.wf(),
        f.start_parameter_index == s.current_param_index,
        f.current_parameter_index == f.start_parameter_index + f.arity(),
        bound.len() == f.arity(),
        f.dialect == s.dialect,
    ensures
        s.with_call(f, bound).wf(),
{
    let r = s.with_call(f, bound);
    assert forall|i: int| #[trigger] r.uses(i) == s.uses(i) + f.uses(i) by {
        lemma_fields_uses_push(s.fields, f, i);
        assert(r.from_uses(i) == s.from_uses(i));
        assert(r.where_uses(i) == s.where_uses(i));
    }
    assert(s.context_ok());
    assert(r.from_speaks(s.dialect) == s.from_speaks(s.dialect));
    assert(r.where_speaks(s.dialect) == s.where_speaks(s.dialect));
    assert(r.context_ok());
}

/// Turning to the `WHERE` clause keeps the tree well formed.
pub proof fn lemma_open_where_wf<T>(s: NvSelectView<T>)
    requires
        s.wf(),
    ensures
        s.open_where().wf(),
{
    let w = s.open_where();
    let p = *w.parent->0;
    let d = s.dialect;
    assert(s.context_ok());
    assert(s.where_speaks(d));
    assert(p.from_speaks(d) == s.from_speaks(d));
    assert(p.where_speaks(d));
    assert(w.speaks(d));
    assert(p.context_ok());
    assert forall|i: int| #[trigger] w.statement_uses(i) == s.uses(i) by {
        assert(p.where_uses(i) == 0);
        assert(p.from_uses(i) == s.from_uses(i));
        assert(w.uses(i) == s.where_uses(i));
    }
}

/// Closing the `WHERE` clause keeps the tree well formed.
pub proof fn lemma_where_close_wf<T>(w: WhereStatementView<T>)
    requires
        w.wf(),
        w.parent is Some,
    ensures
        w.close().wf(),
{
    let s = w.close();
    let p = *w.parent->0;
    let d = w.dialect;
    assert(p.context_ok());
    assert(s.from_speaks(d) == p.from_speaks(d));
    assert(w.detached().speaks(d));
    assert(s.where_speaks(d));
    assert(s.context_ok());
    assert forall|i: int| #[trigger] s.uses(i) == w.statement_uses(i) by {
        assert(p.where_uses(i) == 0);
        assert(s.from_uses(i) == p.from_uses(i));
        assert(s.where_uses(i) == w.detached().uses(i));
    }
}

/// A comparator with an accepted number of values keeps the clause well
/// formed.
pub proof fn lemma_bind_wf<T>(
    w: WhereStatementView<T>,
    field_name: Seq<char>,
    op: SqlOperator,
    values: Seq<T>,
)
    requires
        w.wf(),
        arity_accepted(op, values.len()),
        w.current_param_index + values.len() <= u32::MAX,
    ensures
        w.bind(field_name, op, values).wf(),
{
    let r = w.bind(field_name, op, values);
    let c = r.conditions.last();
    assert forall|i: int| #[trigger] r.statement_uses(i) == w.statement_uses(i) + c.uses(i) by {
        lemma_conditions_uses_push(w.conditions, c, i);
    }
    lemma_conditions_speak_push(w.conditions, c, w.dialect);
}

/// A connector or a group delimiter keeps the clause well formed.
pub proof fn lemma_with_connector_wf<T>(
    w: WhereStatementView<T>,
    logic_operator: LogicOperator,
    mode: ConditionMode,
)
    requires
        w.wf(),
        mode != ConditionMode::Comparator,
        mode != ConditionMode::Subquery,
    ensures
        w.with_connector(logic_operator, mode).wf(),
{
    let r = w.with_connector(logic_operator, mode);
    let c = r.conditions.last();
    assert forall|i: int| #[trigger] r.statement_uses(i) == w.statement_uses(i) by {
        lemma_conditions_uses_push(w.conditions, c, i);
    }
    lemma_conditions_speak_push(w.conditions, c, w.dialect);
}

/// Entering a nested statement from a `WHERE` clause keeps the tree well
/// formed.
pub proof fn lemma_where_enter_subquery_wf<T>(
    w: WhereStatementView<T>,
    field_name: Seq<char>,
    op: SqlOperator,
    subquery_name: Seq<char>,
)
    requires
        w.wf(),
        w.level + 4 <= u32::MAX,
    ensures
        w.enter_subquery(field_name, op, subquery_name).wf(),
{
    let s = w.enter_subquery(field_name, op, subquery_name);
    let waiting = *s.subquery_where_parent->0;
    let c = waiting.conditions.last();
    assert forall|i: int| #[trigger] waiting.statement_uses(i) == w.statement_uses(i) by {
        lemma_conditions_uses_push(w.conditions, c, i);
    }
    lemma_conditions_speak_push(w.conditions, c, w.dialect);
    assert(waiting.frame_ok());
    assert forall|i: int| #[trigger] s.uses(i) == 0 by {
        assert(s.from_uses(i) == 0);
        assert(s.where_uses(i) == 0);
    }
    assert(s.from_speaks(w.dialect));
    assert(s.where_speaks(w.dialect));
    assert(s.context_ok());
}

/// Leaving a nested statement for the `WHERE` clause that waited for it
/// keeps the tree well formed.
pub proof fn lemma_leave_where_wf<T>(s: NvSelectView<T>)
    requires
        s.wf(),
        s.subquery_where_parent is Some,
    ensures
        s.leave_where().wf(),
{
    let w = *s.subquery_where_parent->0;
    let r = s.leave_where();
    let c = w.conditions.last().closed_with(s);
    let d = w.dialect;
    assert(s.context_ok());
    assert(w.frame_ok());
    assert(conditions_speak(w.conditions.drop_last(), d) && w.conditions.last().speaks(d));
    lemma_speaks_by_parts(s.detached(), s, d);
    assert(c.speaks(d));
    lemma_conditions_speak_push(w.conditions.drop_last(), c, d);
    assert forall|i: int| #[trigger] r.statement_uses(i) == w.statement_uses(i) + s.uses(i) by {
        lemma_conditions_uses_push(w.conditions.drop_last(), c, i);
        assert(w.conditions.last().uses(i) == 0);
        assert(s.detached().from_uses(i) == s.from_uses(i));
        assert(s.detached().where_uses(i) == s.where_uses(i));
        assert(s.detached().uses(i) == s.uses(i));
        assert(c.uses(i) == s.uses(i));
    }
    assert forall|i: int| #[trigger] r.statement_uses(i) == in_range(
        r.region_start(),
        r.current_param_index as int,
        i,
    ) by {
        assert(w.statement_uses(i) == in_range(w.region_start(), w.current_param_index as int, i));
        assert(s.uses(i) == in_range(
            s.first_param_index as int,
            s.current_param_index as int,
            i,
        ));
    }
}

/// Turning to the `FROM` clause keeps the tree well formed.
pub proof fn lemma_open_from_wf<T>(s: NvSelectView<T>)
    requires
        s.wf(),
    ensures
        s.open_from().wf(),
{
    let f = s.open_from();
    let p = *f.parent->0;
    let d = s.dialect;
    assert(s.context_ok());
    assert(s.from_speaks(d));
    assert(p.where_speaks(d) == s.where_speaks(d));
    assert(p.from_speaks(d));
    assert(f.speaks(d));
    assert(p.context_ok());
    assert forall|i: int| #[trigger] f.statement_uses(i) == s.uses(i) by {
        assert(p.from_uses(i) == 0);
        assert(p.where_uses(i) == s.where_uses(i));
        assert(f.uses(i) == s.from_uses(i));
    }
}

/// Closing the `FROM` clause keeps the tree well formed.
pub proof fn lemma_from_close_wf<T>(f: FromTableStatementView<T>)
    requires
        f.wf(),
        f.parent is Some,
    ensures
        f.close().wf(),
{
    let s = f.close();
    let p = *f.parent->0;
    let d = f.dialect;
    assert(p.context_ok());
    assert(s.where_speaks(d) == p.where_speaks(d));
    assert(f.detached().speaks(d));
    assert(s.from_speaks(d));
    assert(s.context_ok());
    assert forall|i: int| #[trigger] s.uses(i) == f.statement_uses(i) by {
        assert(p.from_uses(i) == 0);
        assert(s.where_uses(i) == p.where_uses(i));
        assert(s.from_uses(i) == f.detached().uses(i));
    }
}

/// A table keeps the clause well formed.
pub proof fn lemma_with_table_wf<T>(f: FromTableStatementView<T>, t: FromTableView)
    requires
        f.wf(),
    ensures
        f.with_table(t).wf(),
{
    let r = f.with_table(t);
    let e = FromEntryView::<T>::Table(t);
    assert forall|i: int| #[trigger] r.statement_uses(i) == f.statement_uses(i) by {
        lemma_entries_uses_push(f.entries, e, i);
    }
    lemma_entries_speak_push(f.entries, e, f.dialect);
}

/// Entering a nested statement from a `FROM` clause keeps the tree well
/// formed.
pub proof fn lemma_from_enter_subquery_wf<T>(f: FromTableStatementView<T>, table_alias: Seq<char>)
    requires
        f.wf(),
        f.level + 3 <= u32::MAX,
    ensures
        f.enter_subquery(table_alias).wf(),
{
    let s = f.enter_subquery(table_alias);
    let waiting = *s.subquery_from_parent->0;
    assert forall|i: int| #[trigger] waiting.statement_uses(i) == f.statement_uses(i) by {
    }
    assert(waiting.frame_ok());
    assert forall|i: int| #[trigger] s.uses(i) == 0 by {
        assert(s.from_uses(i) == 0);
        assert(s.where_uses(i) == 0);
    }
    assert(s.from_speaks(f.dialect));
    assert(s.where_speaks(f.dialect));
    assert(s.context_ok());
}

/// Leaving a nested statement for the `FROM` clause that waited for it keeps
/// the tree well formed.
pub proof fn lemma_leave_from_wf<T>(s: NvSelectView<T>)
    requires
        s.wf(),
        s.subquery_from_parent is Some,
    ensures
        s.leave_from().wf(),
{
    let f = *s.subquery_from_parent->0;
    let r = s.leave_from();
    let e = FromEntryView::Subquery(Box::new(s.detached()));
    let d = f.dialect;
    assert(s.context_ok());
    assert(f.frame_ok());
    lemma_speaks_by_parts(s.detached(), s, d);
    assert(e.speaks(d));
    lemma_entries_speak_push(f.entries, e, d);
    assert forall|i: int| #[trigger] r.statement_uses(i) == f.statement_uses(i) + s.uses(i) by {
        lemma_entries_uses_push(f.entries, e, i);
        assert(s.detached().from_uses(i) == s.from_uses(i));
        assert(s.detached().where_uses(i) == s.where_uses(i));
        assert(s.detached().uses(i) == s.uses(i));
        assert(e.uses(i) == s.uses(i));
    }
    assert forall|i: int| #[trigger] r.statement_uses(i) == in_range(
        r.region_start(),
        r.current_parameter_index as int,
        i,
    ) by {
        assert(f.statement_uses(i) == in_range(
            f.region_start(),
            f.current_parameter_index as int,
            i,
        ));
        assert(s.uses(i) == in_range(
            s.first_param_index as int,
            s.current_param_index as int,
            i,
        ));
    }
}

/// A statement stays well formed when a block of joins of its dialect and
/// without nested statements is added to it, or its `GROUP BY` or
/// `ORDER BY` clause is set or taken out.
pub proof fn lemma_side_clauses_wf<T>(s: NvSelectView<T>, r: NvSelectView<T>)
    requires
        s.wf(),
        r.joins_bind_nothing(),
        r.joins_speak(),
        r == (NvSelectView { joins: r.joins, group_by: r.group_by, order_by: r.order_by, ..s }),
    ensures
        r.wf(),
{
    lemma_speaks_by_parts(r, s, s.dialect);
    assert forall|i: int| #[trigger] r.uses(i) == s.uses(i) by {
        assert(r.from_uses(i) == s.from_uses(i));
        assert(r.where_uses(i) == s.where_uses(i));
    }
    assert(s.context_ok());
    assert(r.context_ok());
}

} // verus!
