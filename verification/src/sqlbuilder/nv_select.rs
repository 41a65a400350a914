//! The statement node: one `SELECT`, top-level or nested, with its clauses
//! and the counter of bind parameters.

use crate::sqlbuilder::def::{BuilderError, DatabaseDialect, Refused, SqlAggregateFunction};
use crate::sqlbuilder::field::{field_views, FieldDef, FieldDefMode};
use crate::sqlbuilder::from_statement::FromTableStatement;
use crate::sqlbuilder::group_by::GroupByStatement;
use crate::sqlbuilder::join_statement::JoinStatement;
use crate::sqlbuilder::model::{field_texts, option_text, text_list, FieldDefView, NvSelectView};
use crate::sqlbuilder::order_by::OrderByStatement;
use crate::sqlbuilder::protocol::{
    lemma_fresh_wf, lemma_leave_from_wf, lemma_leave_where_wf, lemma_open_from_wf,
    lemma_open_where_wf, lemma_side_clauses_wf, lemma_with_call_wf, lemma_with_field_wf, level_fits,
};
use crate::sqlbuilder::where_statement::WhereStatement;
use crate::sqlbuilder::writer::{lemma_parts_bounds, push_part};
use crate::utils::strings::{indent_text, join_texts, push_indent};
use vstd::prelude::*;
use vstd::string::*;

verus! {

/// One `SELECT` statement under construction or finished.
pub struct NvSelect<T> {
    /// The first free bind parameter.
    current_param_index: u32,
    /// The counter with which the statement was started.
    first_param_index: u32,
    /// The bind parameter to which the first bound value belongs.
    base_param_index: u32,
    /// The blocks of joins, in the order in which they were closed.
    joins: Vec<JoinStatement<T>>,
    /// The `FROM` clause; absent until it is first closed, and while it is at
    /// hand.
    from_statement: Option<FromTableStatement<T>>,
    /// The selected fields, in order.
    fields: Vec<FieldDef>,
    /// The bound values, in the order of their bind parameters; empty while
    /// another part of the tree is at hand.
    parameter_values: Vec<T>,
    /// The `FROM` clause that waits for this statement, if it was started
    /// there.
    subquery_from_parent: Option<Box<FromTableStatement<T>>>,
    /// The `WHERE` clause; absent until it is first closed, and while it is
    /// at hand.
    where_statement: Option<WhereStatement<T>>,
    /// The `ORDER BY` clause; absent until it is first closed, and while it
    /// is at hand.
    order_by: Option<OrderByStatement<T>>,
    /// The `GROUP BY` clause; absent until it is first closed, and while it
    /// is at hand.
    group_by: Option<GroupByStatement<T>>,
    /// The `WHERE` clause that waits for this statement, if it was started
    /// there.
    subquery_where_parent: Option<Box<WhereStatement<T>>>,
    /// The name under which the statement stands in its parent; empty at
    /// the top.
    table_alias: String,
    /// The nesting level; 0 at the top.
    level: u32,
    /// The dialect in which placeholders are written.
    dialect: DatabaseDialect,
}

impl<T> NvSelect<T> {
    /// The model of the statement, with all that is nested in it and all that
    /// waits for it.
    pub closed spec fn view(&self) -> NvSelectView<T>
        decreases self,
    {
        NvSelectView {
            current_param_index: self.current_param_index,
            first_param_index: self.first_param_index,
            base_param_index: self.base_param_index,
            joins: Seq::new(
                self.joins@.len(),
                |k: int|
                    if 0 <= k < self.joins@.len() {
                        self.joins@[k].view()
                    } else {
                        arbitrary()
                    },
            ),
            from_statement: match self.from_statement {
                Some(f) => Some(f.view()),
                None => None,
            },
            fields: field_views(self.fields@),
            parameter_values: self.parameter_values@,
            subquery_from_parent: match self.subquery_from_parent {
                Some(f) => Some(Box::new(f.view())),
                None => None,
            },
            where_statement: match self.where_statement {
                Some(w) => Some(w.view()),
                None => None,
            },
            order_by: match self.order_by {
                Some(o) => Some(o.view()),
                None => None,
            },
            group_by: match self.group_by {
                Some(g) => Some(g.view()),
                None => None,
            },
            subquery_where_parent: match self.subquery_where_parent {
                Some(w) => Some(Box::new(w.view())),
                None => None,
            },
            table_alias: self.table_alias@,
            level: self.level,
            dialect: self.dialect,
        }
    }
}

impl<T> NvSelect<T> {
    /// Whether the statement is well formed as the part at hand.
    pub open spec fn wf(&self) -> bool {
        self@.wf()
    }

    /// A top-level statement, which counts its bind parameters from 1.
    pub fn new(dialect: DatabaseDialect) -> (r: Self)
        ensures
            r@ == NvSelectView::<T>::fresh(dialect, 1, 1, Seq::empty(), 0, Seq::empty()),
            r.wf(),
    {
        Self::with_param_index(1, dialect)
    }

    /// A top-level statement, which counts its bind parameters from
    /// `current_param_index`.
    pub fn with_param_index(current_param_index: u32, dialect: DatabaseDialect) -> (r: Self)
        ensures
            r@ == NvSelectView::<T>::fresh(
                dialect,
                current_param_index,
                current_param_index,
                Seq::empty(),
                0,
                Seq::empty(),
            ),
            r.wf(),
    {
        let r = Self {
            current_param_index,
            first_param_index: current_param_index,
            base_param_index: current_param_index,
            joins: Vec::new(),
            from_statement: None,
            fields: Vec::new(),
            parameter_values: Vec::new(),
            subquery_from_parent: None,
            where_statement: None,
            order_by: None,
            group_by: None,
            subquery_where_parent: None,
            table_alias: String::new(),
            level: 0,
            dialect,
        };
        proof {
            assert(r@.joins =~= Seq::empty());
            assert(r@.fields =~= Seq::empty());
            lemma_fresh_wf::<T>(
                dialect,
                current_param_index,
                current_param_index,
                Seq::empty(),
                0,
                Seq::empty(),
            );
        }
        r
    }

    /// The bind parameter of the first of `count` values when the counter
    /// stands at `current_param_index`; 0 where there are more values than
    /// the counter allows.
    pub open spec fn base_of(current_param_index: u32, count: nat) -> u32 {
        if count <= current_param_index {
            (current_param_index - count) as u32
        } else {
            0
        }
    }

    /// A statement without parent that goes on with a list of values bound
    /// elsewhere: it counts on from `current_param_index`, at nesting level
    /// `level`.  It is well formed when the list holds no more values than
    /// the counter allows and the level leaves room for what may be nested.
    pub fn new_subquery(
        values: Vec<T>,
        current_param_index: u32,
        level: u32,
        dialect: DatabaseDialect,
    ) -> (r: Self)
        ensures
            r@ == NvSelectView::<T>::fresh(
                dialect,
                current_param_index,
                Self::base_of(current_param_index, values@.len()),
                values@,
                level,
                Seq::empty(),
            ),
            values@.len() <= current_param_index && level_fits(level) ==> r.wf(),
    {
        let count = values.len();
        let base: u32 = if count <= current_param_index as usize {
            current_param_index - (count as u32)
        } else {
            0
        };
        let r = Self {
            current_param_index,
            first_param_index: current_param_index,
            base_param_index: base,
            joins: Vec::new(),
            from_statement: None,
            fields: Vec::new(),
            parameter_values: values,
            subquery_from_parent: None,
            where_statement: None,
            order_by: None,
            group_by: None,
            subquery_where_parent: None,
            table_alias: String::new(),
            level,
            dialect,
        };
        proof {
            assert(r@.joins =~= Seq::empty());
            assert(r@.fields =~= Seq::empty());
            if values@.len() <= current_param_index && level_fits(level) {
                lemma_fresh_wf::<T>(
                    dialect,
                    current_param_index,
                    base,
                    values@,
                    level,
                    Seq::empty(),
                );
            }
        }
        r
    }

    /// A statement nested in the `FROM` clause `from_obj`, which waits for
    /// it.  The statement takes over the list of values and counts on from
    /// `current_param_index`.  It is well formed when the clause is
    /// consistent, is of `dialect` and was left at that counter, the list
    /// holds one value for each bind parameter given out so far, and the
    /// level leaves room for what may be nested.
    pub fn new_subquery_from(
        values: Vec<T>,
        current_param_index: u32,
        level: u32,
        from_obj: FromTableStatement<T>,
        table_alias: String,
        dialect: DatabaseDialect,
    ) -> (r: Self)
        ensures
            r@ == (NvSelectView {
                subquery_from_parent: Some(Box::new(from_obj@)),
                ..NvSelectView::fresh(
                    dialect,
                    current_param_index,
                    from_obj@.base_parameter_index,
                    values@,
                    level,
                    table_alias@,
                )
            }),
            from_obj@.frame_ok() && from_obj@.dialect == dialect
                && from_obj@.current_parameter_index == current_param_index
                && from_obj@.base_parameter_index + values@.len() == current_param_index
                && level_fits(level) ==> r.wf(),
    {
        let base = from_obj.base_parameter_index();
        let r = Self {
            current_param_index,
            first_param_index: current_param_index,
            base_param_index: base,
            joins: Vec::new(),
            from_statement: None,
            fields: Vec::new(),
            parameter_values: values,
            subquery_from_parent: Some(Box::new(from_obj)),
            where_statement: None,
            order_by: None,
            group_by: None,
            subquery_where_parent: None,
            table_alias,
            level,
            dialect,
        };
        proof {
            assert(r@.joins =~= Seq::empty());
            assert(r@.fields =~= Seq::empty());
            assert forall|i: int| #[trigger] r@.uses(i) == 0 by {
                assert(r@.from_uses(i) == 0);
                assert(r@.where_uses(i) == 0);
            }
        }
        r
    }

    /// A statement nested in the `WHERE` clause `where_obj`, which waits for
    /// it.  The statement takes over the list of values and counts on from
    /// `current_param_index`.  It is well formed when the clause is
    /// consistent, is of `dialect`, ends in a comparison that waits for its
    /// statement and was left at that counter, the list holds one value for
    /// each bind parameter given out so far, and the level leaves room for
    /// what may be nested.
    pub fn new_subquery_where(
        values: Vec<T>,
        where_obj: WhereStatement<T>,
        current_param_index: u32,
        level: u32,
        table_alias: String,
        dialect: DatabaseDialect,
    ) -> (r: Self)
        ensures
            r@ == (NvSelectView {
                subquery_where_parent: Some(Box::new(where_obj@)),
                ..NvSelectView::fresh(
                    dialect,
                    current_param_index,
                    where_obj@.base_param_index,
                    values@,
                    level,
                    table_alias@,
                )
            }),
            where_obj@.frame_ok() && where_obj@.awaits_subquery() && where_obj@.dialect == dialect
                && where_obj@.current_param_index == current_param_index
                && where_obj@.base_param_index + values@.len() == current_param_index
                && level_fits(level) ==> r.wf(),
    {
        let base = where_obj.base_param_index();
        let r = Self {
            current_param_index,
            first_param_index: current_param_index,
            base_param_index: base,
            joins: Vec::new(),
            from_statement: None,
            fields: Vec::new(),
            parameter_values: values,
            subquery_from_parent: None,
            where_statement: None,
            order_by: None,
            group_by: None,
            subquery_where_parent: Some(Box::new(where_obj)),
            table_alias,
            level,
            dialect,
        };
        proof {
            assert(r@.joins =~= Seq::empty());
            assert(r@.fields =~= Seq::empty());
            assert forall|i: int| #[trigger] r@.uses(i) == 0 by {
                assert(r@.from_uses(i) == 0);
                assert(r@.where_uses(i) == 0);
            }
        }
        r
    }

    /// The bind parameter to which the first bound value belongs.
    pub fn base_param_index(&self) -> (r: u32)
        ensures
            r == self@.base_param_index,
    {
        self.base_param_index
    }

    /// The counter with which the statement was started.
    pub fn first_param_index(&self) -> (r: u32)
        ensures
            r == self@.first_param_index,
    {
        self.first_param_index
    }

    /// The statement with `clause` as its `WHERE` clause, `current` as its
    /// counter and `values` as its bound values.
    pub(crate) fn put_where(
        self,
        clause: WhereStatement<T>,
        current: u32,
        values: Vec<T>,
    ) -> (r: Self)
        ensures
            r@ == (NvSelectView {
                where_statement: Some(clause@),
                current_param_index: current,
                parameter_values: values@,
                ..self@
            }),
    {
        let mut s = self;
        s.where_statement = Some(clause);
        s.current_param_index = current;
        s.parameter_values = values;
        proof {
            assert(s@.joins =~= self@.joins);
        }
        s
    }

    /// The statement with `clause` as its `FROM` clause, `current` as its
    /// counter and `values` as its bound values.
    pub(crate) fn put_from(
        self,
        clause: FromTableStatement<T>,
        current: u32,
        values: Vec<T>,
    ) -> (r: Self)
        ensures
            r@ == (NvSelectView {
                from_statement: Some(clause@),
                current_param_index: current,
                parameter_values: values@,
                ..self@
            }),
    {
        let mut s = self;
        s.from_statement = Some(clause);
        s.current_param_index = current;
        s.parameter_values = values;
        proof {
            assert(s@.joins =~= self@.joins);
        }
        s
    }

    /// The statement with `block` behind its blocks of joins.
    pub(crate) fn put_join(self, block: JoinStatement<T>) -> (r: Self)
        ensures
            r@ == (NvSelectView { joins: self@.joins.push(block@), ..self@ }),
    {
        let mut s = self;
        s.joins.push(block);
        proof {
            assert(s@.joins =~= self@.joins.push(block@));
        }
        s
    }

    /// The statement with `clause` as its `GROUP BY` clause.
    pub(crate) fn put_group_by(self, clause: GroupByStatement<T>) -> (r: Self)
        ensures
            r@ == (NvSelectView { group_by: Some(clause@), ..self@ }),
    {
        let mut s = self;
        s.group_by = Some(clause);
        proof {
            assert(s@.joins =~= self@.joins);
        }
        s
    }

    /// The statement with `clause` as its `ORDER BY` clause.
    pub(crate) fn put_order_by(self, clause: OrderByStatement<T>) -> (r: Self)
        ensures
            r@ == (NvSelectView { order_by: Some(clause@), ..self@ }),
    {
        let mut s = self;
        s.order_by = Some(clause);
        proof {
            assert(s@.joins =~= self@.joins);
        }
        s
    }

    /// The dialect in which the statement writes its placeholders.
    pub fn dialect(&self) -> (r: DatabaseDialect)
        ensures
            r == self@.dialect,
    {
        self.dialect
    }

    /// The first free bind parameter.
    pub fn get_current_param_index(&self) -> (r: u32)
        ensures
            r == self@.current_param_index,
    {
        self.current_param_index
    }

    /// Sets the counter and leaves the rest as it is.  No step of the
    /// builder needs this: a well-formed statement stays well formed only if
    /// the counter is left where it stands.
    pub fn update_current_param_index(&mut self, current_param_index: u32)
        ensures
            final(self)@ == (NvSelectView { current_param_index, ..old(self)@ }),
            old(self).wf() ==> (final(self).wf() <==> current_param_index
                == old(self)@.current_param_index),
    {
        self.current_param_index = current_param_index;
        proof {
            assert(self@.joins =~= old(self)@.joins);
        }
    }

    /// The alias under which the statement stands in its parent.
    pub fn table_alias(&self) -> (r: &str)
        ensures
            r@ == self@.table_alias,
    {
        self.table_alias.as_str()
    }

    /// The nesting level of the statement; 0 at the top.
    pub fn get_block_level(&self) -> (r: u32)
        ensures
            r == self@.level,
    {
        self.level
    }

    /// The bound values, in the order of their bind parameters.
    pub fn values(&self) -> (r: &Vec<T>)
        ensures
            r@ == self@.parameter_values,
    {
        &self.parameter_values
    }

    fn push_field(self, field: FieldDef) -> (r: Self)
        requires
            self.wf(),
            field@.arity() == 0,
            field@.dialect == self@.dialect,
        ensures
            r@ == self@.with_field(field@),
            r.wf(),
    {
        let mut s = self;
        s.fields.push(field);
        proof {
            assert(s@.fields =~= self@.fields.push(field@));
            assert(s@.joins =~= self@.joins);
            lemma_with_field_wf(self@, field@);
        }
        s
    }

    /// Adds a typed field behind the fields that are there.
    pub fn field(
        self,
        field: String,
        table_alias: Option<String>,
        field_alias: Option<String>,
        aggregate_fn: SqlAggregateFunction,
        enclose_field_name: bool,
    ) -> (r: Self)
        requires
            self.wf(),
        ensures
            r@ == self@.with_field(
                FieldDefView::plain(
                    self@.dialect,
                    field@,
                    option_text(table_alias),
                    enclose_field_name,
                    aggregate_fn,
                    option_text(field_alias),
                    self@.level,
                    FieldDefMode::FieldWType,
                ),
            ),
            r.wf(),
    {
        let made = FieldDef::new_field_def(
            self.dialect,
            field,
            table_alias,
            enclose_field_name,
            aggregate_fn,
            field_alias,
            self.level,
            FieldDefMode::FieldWType,
        );
        self.push_field(made)
    }

    /// Adds a raw field behind the fields that are there.
    pub fn f(
        self,
        field: String,
        table_alias: Option<String>,
        field_alias: Option<String>,
        aggregate_fn: SqlAggregateFunction,
        enclose_field_name: bool,
    ) -> (r: Self)
        requires
            self.wf(),
        ensures
            r@ == self@.with_field(
                FieldDefView::plain(
                    self@.dialect,
                    field@,
                    option_text(table_alias),
                    enclose_field_name,
                    aggregate_fn,
                    option_text(field_alias),
                    self@.level,
                    FieldDefMode::FieldRaw,
                ),
            ),
            r.wf(),
    {
        let made = FieldDef::new_field_def(
            self.dialect,
            field,
            table_alias,
            enclose_field_name,
            aggregate_fn,
            field_alias,
            self.level,
            FieldDefMode::FieldRaw,
        );
        self.push_field(made)
    }

    /// Adds a function call whose arguments are all literal.
    pub fn fn_static(
        self,
        fn_name: String,
        param_values: Vec<String>,
        field_alias: Option<String>,
    ) -> (r: Self)
        requires
            self.wf(),
        ensures
            r@ == self@.with_field(
                FieldDefView::static_call(
                    self@.dialect,
                    fn_name@,
                    text_list(param_values@),
                    self@.level,
                    option_text(field_alias),
                ),
            ),
            r.wf(),
    {
        let made = FieldDef::new_static_function(
            self.dialect,
            fn_name,
            param_values,
            self.level,
            field_alias,
        );
        self.push_field(made)
    }

    /// Adds a function call with literal and bound arguments.  Each `s` of
    /// `parameter_list_format` stands for the next of
    /// `static_param_values`, each `v` for the next of `param_values`; a
    /// character that finds no value is passed over.  The values that a `v`
    /// found are bound from the counter on, in their order; the others are
    /// dropped.
    pub fn fn_dynamic(
        self,
        fn_name: String,
        parameter_list_format: String,
        param_values: Vec<T>,
        static_param_values: Vec<String>,
        field_alias: Option<String>,
    ) -> (r: Self)
        requires
            self.wf(),
            self@.current_param_index + FieldDefView::call_arity(
                parameter_list_format@,
                param_values@.len(),
            ) <= u32::MAX,
        ensures
            r@ == self@.with_call(
                FieldDefView::dynamic_call(
                    self@.dialect,
                    fn_name@,
                    parameter_list_format@,
                    param_values@.len(),
                    text_list(static_param_values@),
                    self@.current_param_index,
                    self@.level,
                    option_text(field_alias),
                ),
                param_values@.take(
                    FieldDefView::call_arity(parameter_list_format@, param_values@.len()) as int,
                ),
            ),
            r.wf(),
    {
        let mut s = self;
        let mut bound = param_values;
        let offered = bound.len();
        let taken = FieldDef::bound_value_count(parameter_list_format.as_str(), offered);
        let made = FieldDef::new_dynamic_function(
            s.dialect,
            fn_name,
            parameter_list_format,
            offered,
            static_param_values,
            s.current_param_index,
            s.level,
            field_alias,
        );
        bound.truncate(taken);
        s.current_param_index = made.get_current_parameter_index();
        s.fields.push(made);
        s.parameter_values.append(&mut bound);
        proof {
            let kept = param_values@.take(taken as int);
            assert(s@.fields =~= self@.fields.push(made@));
            assert(s@.joins =~= self@.joins);
            assert(s@ == self@.with_call(made@, kept));
            lemma_with_call_wf(self@, made@, kept);
        }
        s
    }

    /// Turns to the `FROM` clause: the clause that the statement has, or an
    /// empty one.  The statement waits until the clause is closed; the
    /// clause takes over the counter and the list of values.
    pub fn from(self) -> (r: FromTableStatement<T>)
        requires
            self.wf(),
        ensures
            r@ == self@.open_from(),
            r.wf(),
    {
        let mut s = self;
        let existing = s.from_statement.take();
        let values = s.parameter_values;
        s.parameter_values = Vec::new();
        let current = s.current_param_index;
        let base = s.base_param_index;
        let level = s.level;
        let dialect = s.dialect;
        proof {
            assert(s@.joins =~= self@.joins);
            assert(s@ == (NvSelectView {
                from_statement: None,
                parameter_values: Seq::empty(),
                ..self@
            }));
            lemma_open_from_wf(self@);
        }
        match existing {
            Some(clause) => clause.resume(s, values, current, base, level),
            None => FromTableStatement::new(values, s, current, level, dialect),
        }
    }

    /// Turns to the `WHERE` clause: the clause that the statement has, or an
    /// empty one.  The statement waits until the clause is closed; the
    /// clause takes over the counter and the list of values.
    pub fn where_clause(self) -> (r: WhereStatement<T>)
        requires
            self.wf(),
        ensures
            r@ == self@.open_where(),
            r.wf(),
    {
        let mut s = self;
        let existing = s.where_statement.take();
        let values = s.parameter_values;
        s.parameter_values = Vec::new();
        let current = s.current_param_index;
        let base = s.base_param_index;
        let level = s.level;
        let dialect = s.dialect;
        proof {
            assert(s@.joins =~= self@.joins);
            assert(s@ == (NvSelectView {
                where_statement: None,
                parameter_values: Seq::empty(),
                ..self@
            }));
            lemma_open_where_wf(self@);
        }
        match existing {
            Some(clause) => clause.resume(s, values, current, base, level),
            None => WhereStatement::new_with_parent(values, s, current, level, dialect),
        }
    }

    /// Starts a new block of joins.  The statement waits until the block is
    /// closed.
    pub fn join(self) -> (r: JoinStatement<T>)
        requires
            self.wf(),
        ensures
            r@ == self@.open_join(),
            r.wf(),
    {
        let current = self.current_param_index;
        let level = self.level;
        let dialect = self.dialect;
        JoinStatement::new(self, current, level, dialect)
    }

    /// Turns to the `GROUP BY` clause: the clause that the statement has, or
    /// an empty one.  The statement waits until the clause is closed.
    pub fn group_by(self) -> (r: GroupByStatement<T>)
        requires
            self.wf(),
        ensures
            r@ == self@.open_group_by(),
            r.wf(),
    {
        let mut s = self;
        let existing = s.group_by.take();
        let current = s.current_param_index;
        let level = s.level;
        proof {
            assert(s@.joins =~= self@.joins);
            assert(s@ == (NvSelectView { group_by: None, ..self@ }));
            lemma_side_clauses_wf(self@, s@);
        }
        match existing {
            Some(clause) => clause.resume(s),
            None => GroupByStatement::new_with_parent(s, current, level),
        }
    }

    /// Turns to the `ORDER BY` clause: the clause that the statement has, or
    /// an empty one.  The statement waits until the clause is closed.
    pub fn order_by(self) -> (r: OrderByStatement<T>)
        requires
            self.wf(),
        ensures
            r@ == self@.open_order_by(),
            r.wf(),
    {
        let mut s = self;
        let existing = s.order_by.take();
        let level = s.level;
        proof {
            assert(s@.joins =~= self@.joins);
            assert(s@ == (NvSelectView { order_by: None, ..self@ }));
            lemma_side_clauses_wf(self@, s@);
        }
        match existing {
            Some(clause) => clause.resume(s),
            None => OrderByStatement::new_with_parent(s, level),
        }
    }

    /// Whether a `FROM` clause waits for this statement, so that finishing
    /// it there will succeed.
    pub fn has_from_parent(&self) -> (r: bool)
        ensures
            r == (self@.subquery_from_parent is Some),
    {
        self.subquery_from_parent.is_some()
    }

    /// Whether a `WHERE` clause waits for this statement, so that finishing
    /// it there will succeed.
    pub fn has_where_parent(&self) -> (r: bool)
        ensures
            r == (self@.subquery_where_parent is Some),
    {
        self.subquery_where_parent.is_some()
    }

    /// Finishes a statement nested in a `FROM` clause and hands back the
    /// clause that waited for it, with the statement as its last entry and
    /// the counter and the values taken over.  Without such a clause the
    /// call is turned down and the statement comes back as it was.
    pub fn end_subquery_inside_from(
        self,
    ) -> (r: Result<FromTableStatement<T>, Refused<NvSelect<T>>>)
        requires
            self.wf(),
        ensures
            self@.subquery_from_parent is None ==> r is Err && r->Err_0.error
                == BuilderError::NoParent
                && r->Err_0.handle@ == self@,
            self@.subquery_from_parent is Some ==> r is Ok && r->Ok_0@ == self@.leave_from()
                && r->Ok_0.wf(),
    {
        let mut s = self;
        let parent = s.subquery_from_parent.take();
        match parent {
            None => {
                proof {
                    assert(s@.joins =~= self@.joins);
                    assert(s@ == self@);
                }
                Err(Refused { error: BuilderError::NoParent, handle: s })
            },
            Some(b) => {
                let values = s.parameter_values;
                s.parameter_values = Vec::new();
                let current = s.current_param_index;
                proof {
                    assert(self@.context_ok());
                    assert(s@.joins =~= self@.joins);
                    assert(s@ == self@.detached());
                }
                let clause = (*b).push_subquery(s, current, values);
                proof {
                    assert(clause@ == self@.leave_from());
                    lemma_leave_from_wf(self@);
                }
                Ok(clause)
            },
        }
    }

    /// Finishes a statement nested in a `WHERE` clause and hands back the
    /// clause that waited for it, with the statement in its last condition
    /// and the counter and the values taken over.  Without such a clause the
    /// call is turned down and the statement comes back as it was.
    pub fn end_subquery_inside_where_condition(
        self,
    ) -> (r: Result<WhereStatement<T>, Refused<NvSelect<T>>>)
        requires
            self.wf(),
        ensures
            self@.subquery_where_parent is None ==> r is Err && r->Err_0.error
                == BuilderError::NoParent
                && r->Err_0.handle@ == self@,
            self@.subquery_where_parent is Some ==> r is Ok && r->Ok_0@ == self@.leave_where()
                && r->Ok_0.wf(),
    {
        let mut s = self;
        let parent = s.subquery_where_parent.take();
        match parent {
            None => {
                proof {
                    assert(s@.joins =~= self@.joins);
                    assert(s@ == self@);
                }
                Err(Refused { error: BuilderError::NoParent, handle: s })
            },
            Some(b) => {
                let values = s.parameter_values;
                s.parameter_values = Vec::new();
                let current = s.current_param_index;
                proof {
                    assert(self@.context_ok());
                    assert(s@.joins =~= self@.joins);
                    assert(s@ == self@.detached());
                }
                let clause = (*b).fill_subquery(s, current, values);
                proof {
                    assert(clause@ == self@.leave_where());
                    lemma_leave_where_wf(self@);
                }
                Ok(clause)
            },
        }
    }

    /// The text of field `i`, in the indented form behind its indentation.
    fn field_query(&self, i: usize, pretty_print: bool) -> (r: String)
        requires
            i < self.fields@.len(),
        ensures
            r@ == field_texts(self@.fields, self.level, pretty_print)[i as int],
    {
        let mut out = String::new();
        if pretty_print {
            push_indent(&mut out, self.level as u64 + 1);
        }
        let text = self.fields[i].generate_query();
        out.append(text.as_str());
        proof {
            assert(self@.fields[i as int] == self.fields@[i as int]@);
            assert(out@ =~= field_texts(self@.fields, self.level, pretty_print)[i as int]);
        }
        out
    }

    fn select_section(&self, pretty_print: bool) -> (r: String)
        ensures
            r@ == self@.select_text(pretty_print),
    {
        let mut query = String::new();
        if pretty_print {
            push_indent(&mut query, self.level as u64);
            query.append("SELECT \n");
        } else {
            query.append("SELECT ");
        }
        let sep = if pretty_print {
            ",\n"
        } else {
            ", "
        };
        let ghost texts = field_texts(self@.fields, self.level, pretty_print);
        let ghost head = query@;
        let mut i: usize = 0;
        proof {
            lemma_parts_bounds(head, texts, sep@);
        }
        while i < self.fields.len()
            invariant
                i <= self.fields.len(),
                texts == field_texts(self@.fields, self.level, pretty_print),
                texts.len() == self.fields.len(),
                query@ == head + join_texts(texts.take(i as int), sep@),
            decreases self.fields.len() - i,
        {
            let part = self.field_query(i, pretty_print);
            push_part(&mut query, Ghost(head), Ghost(texts), i, sep, part.as_str());
            i = i + 1;
        }
        proof {
            lemma_parts_bounds(head, texts, sep@);
            assert(head =~= if pretty_print {
                indent_text(self.level as nat) + "SELECT \n"@
            } else {
                "SELECT "@
            });
        }
        query
    }

    fn from_section(&self, pretty_print: bool) -> (r: String)
        ensures
            r@ == self@.from_text(pretty_print),
        decreases self, 0nat,
    {
        let mut query = String::new();
        match &self.from_statement {
            Some(from_table) => {
                if !from_table.is_empty() {
                    let text = from_table.generate_query(pretty_print);
                    if pretty_print {
                        query.append("\n");
                        push_indent(&mut query, self.level as u64);
                        query.append("FROM \n");
                    } else {
                        query.append(" FROM ");
                    }
                    query.append(text.as_str());
                }
            },
            None => {},
        }
        proof {
            assert(query@ =~= self@.from_text(pretty_print));
        }
        query
    }

    fn join_section(&self, pretty_print: bool) -> (r: String)
        ensures
            r@ == self@.join_text(pretty_print),
        decreases self, 0nat,
    {
        let mut query = String::new();
        if self.joins.len() > 0 {
            let sep = if pretty_print {
                "\n"
            } else {
                " "
            };
            query.append(sep);
            let ghost texts = self@.join_block_texts(pretty_print);
            let ghost head = query@;
            let mut k: usize = 0;
            proof {
                lemma_parts_bounds(head, texts, sep@);
            }
            while k < self.joins.len()
                invariant
                    k <= self.joins.len(),
                    texts == self@.join_block_texts(pretty_print),
                    texts.len() == self.joins.len(),
                    query@ == head + join_texts(texts.take(k as int), sep@),
                decreases self.joins.len() - k,
            {
                let part = self.joins[k].generate_query(pretty_print);
                proof {
                    assert(self@.joins[k as int] == self.joins@[k as int]@);
                }
                push_part(&mut query, Ghost(head), Ghost(texts), k, sep, part.as_str());
                k = k + 1;
            }
            proof {
                lemma_parts_bounds(head, texts, sep@);
                assert(head =~= sep@);
            }
        }
        query
    }

    fn where_section(&self, pretty_print: bool) -> (r: String)
        ensures
            r@ == self@.where_text(pretty_print),
        decreases self, 0nat,
    {
        let mut query = String::new();
        match &self.where_statement {
            Some(where_) => {
                let text = where_.generate_query(pretty_print, false);
                if pretty_print {
                    query.append("\n");
                    push_indent(&mut query, self.level as u64);
                    query.append("WHERE\n");
                    push_indent(&mut query, self.level as u64 + 1);
                } else {
                    query.append(" WHERE ");
                }
                query.append(text.as_str());
            },
            None => {},
        }
        proof {
            assert(query@ =~= self@.where_text(pretty_print));
        }
        query
    }

    fn group_by_section(&self, pretty_print: bool) -> (r: String)
        ensures
            r@ == self@.group_by_text(pretty_print),
    {
        let mut query = String::new();
        match &self.group_by {
            Some(group_by) => {
                let text = group_by.generate_query(pretty_print);
                if pretty_print {
                    query.append("\n");
                    push_indent(&mut query, self.level as u64);
                    query.append("GROUP BY\n");
                    push_indent(&mut query, self.level as u64 + 1);
                } else {
                    query.append(" GROUP BY ");
                }
                query.append(text.as_str());
            },
            None => {},
        }
        proof {
            assert(query@ =~= self@.group_by_text(pretty_print));
        }
        query
    }

    fn order_by_section(&self, pretty_print: bool) -> (r: String)
        ensures
            r@ == self@.order_by_text(pretty_print),
    {
        let mut query = String::new();
        match &self.order_by {
            Some(order_by) => {
                let text = order_by.generate_query(pretty_print);
                if pretty_print {
                    query.append("\n");
                    push_indent(&mut query, self.level as u64);
                    query.append("ORDER BY\n");
                    push_indent(&mut query, self.level as u64 + 1);
                } else {
                    query.append(" ORDER BY ");
                }
                query.append(text.as_str());
            },
            None => {},
        }
        proof {
            assert(query@ =~= self@.order_by_text(pretty_print));
        }
        query
    }

    /// The text of the statement: the sections `SELECT`, `FROM`, joins,
    /// `WHERE`, `GROUP BY` and `ORDER BY` in this order, on one line or, with
    /// `pretty_print`, on indented lines.
    pub fn generate_query(&self, pretty_print: bool) -> (r: String)
        ensures
            r@ == self@.query_text(pretty_print),
        decreases self, 1nat,
    {
        let mut query = self.select_section(pretty_print);
        let from = self.from_section(pretty_print);
        query.append(from.as_str());
        let joins = self.join_section(pretty_print);
        query.append(joins.as_str());
        let where_ = self.where_section(pretty_print);
        query.append(where_.as_str());
        let group_by = self.group_by_section(pretty_print);
        query.append(group_by.as_str());
        let order_by = self.order_by_section(pretty_print);
        query.append(order_by.as_str());
        query
    }
}

} // verus!
