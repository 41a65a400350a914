//! The `WHERE` clause: comparators, connectors, groups and nested
//! statements, in the order in which they were added.

use crate::sqlbuilder::def::{
    push_placeholder, BuilderError, DatabaseDialect, LogicOperator, Refused, SqlOperator,
};
use crate::sqlbuilder::model::{
    arity_accepted, comparator_arity, placeholder_list, ConditionView, WhereStatementView,
};
use crate::sqlbuilder::nv_select::NvSelect;
use crate::sqlbuilder::protocol::{
    lemma_bind_wf, lemma_where_close_wf, lemma_where_enter_subquery_wf, lemma_with_connector_wf,
    level_fits,
};
use crate::sqlbuilder::writer::{lemma_parts_bounds, push_name_suffix, push_part};
use crate::utils::strings::join_texts;
use vstd::prelude::*;
use vstd::string::*;

verus! {

/// The kinds of a condition.
#[derive(Debug, PartialEq, Eq, Clone, Copy, Structural)]
pub enum ConditionMode {
    Comparator,
    LogicalOperator,
    StartGroup,
    EndGroup,
    Subquery,
}

/// One fragment of a `WHERE` clause.
pub struct Condition<T> {
    /// The compared field; empty in a connector or group delimiter.
    field_name: String,
    /// The nested statement of a comparison with one, once it is finished.
    subquery: Option<Box<NvSelect<T>>>,
    /// The comparator.
    operation: SqlOperator,
    /// The number of values of a comparator.
    value_size: u32,
    /// The first bind parameter of the condition.
    start_index: u32,
    /// The first free bind parameter behind the condition.
    param_index: u32,
    /// The nesting level of the condition.
    level: u32,
    /// The connector, where the condition is one.
    logic_operator: LogicOperator,
    /// The kind of the condition.
    mode: ConditionMode,
    /// The name of the nested statement; empty where there is none.
    table_alias: String,
    /// The dialect in which placeholders are written.
    dialect: DatabaseDialect,
}

/// The fragments of the `WHERE` clause of one statement.
pub struct WhereStatement<T> {
    /// The statement that waits for the clause; absent once the clause
    /// stands in its statement.
    parent: Option<Box<NvSelect<T>>>,
    /// The bound values, in the order of their bind parameters; empty while
    /// another part of the tree is at hand.
    parameter_values: Vec<T>,
    /// The fragments, in order.
    conditions: Vec<Condition<T>>,
    /// The nesting level of the statement.
    level: u32,
    /// The first free bind parameter.
    current_param_index: u32,
    /// The bind parameter to which the first bound value belongs.
    base_param_index: u32,
    /// The dialect in which placeholders are written.
    dialect: DatabaseDialect,
}

impl<T> Condition<T> {
    /// The model of the condition, with the statement nested in it.
    pub closed spec fn view(&self) -> ConditionView<T>
        decreases self,
    {
        ConditionView {
            field_name: self.field_name@,
            subquery: match self.subquery {
                Some(s) => Some(Box::new(s.view())),
                None => None,
            },
            operation: self.operation,
            value_size: self.value_size,
            start_index: self.start_index,
            param_index: self.param_index,
            level: self.level,
            logic_operator: self.logic_operator,
            mode: self.mode,
            table_alias: self.table_alias@,
            dialect: self.dialect,
        }
    }
}

impl ConditionMode {
    /// The text that stands for the value.
    pub open spec fn label(self) -> Seq<char> {
        match self {
            ConditionMode::Comparator => "Comparator"@,
            ConditionMode::LogicalOperator => "LogicalOperator"@,
            ConditionMode::StartGroup => "StartGroup"@,
            ConditionMode::EndGroup => "EndGroup"@,
            ConditionMode::Subquery => "Subquery"@,
        }
    }

    /// The label as an owned text.
    pub fn to_string(&self) -> (r: String)
        ensures
            r@ == self.label(),
    {
        match self {
            ConditionMode::Comparator => "Comparator".to_string(),
            ConditionMode::LogicalOperator => "LogicalOperator".to_string(),
            ConditionMode::StartGroup => "StartGroup".to_string(),
            ConditionMode::EndGroup => "EndGroup".to_string(),
            ConditionMode::Subquery => "Subquery".to_string(),
        }
    }
}

impl<T> Condition<T> {
    /// The first free bind parameter behind a comparator that starts at
    /// `start_index`.
    pub fn process(start_index: u32, operation: &SqlOperator, value_size: u32) -> (r: u32)
        requires
            start_index + comparator_arity(*operation, value_size as nat) <= u32::MAX,
        ensures
            r == start_index + comparator_arity(*operation, value_size as nat),
    {
        match operation {
            SqlOperator::Between => start_index + 2,
            SqlOperator::In => start_index + value_size,
            _ => start_index + 1,
        }
    }

    /// Whether a comparator accepts `value_size` values: `BETWEEN` exactly
    /// two, `IN` any number, every other exactly one.
    pub fn accepts(operation: &SqlOperator, value_size: usize) -> (r: bool)
        ensures
            r == arity_accepted(*operation, value_size as nat),
    {
        match operation {
            SqlOperator::Between => value_size == 2,
            SqlOperator::In => true,
            _ => value_size == 1,
        }
    }

    /// A comparator on `field_name` with `value_size` values, which binds
    /// them from `param_index` on.  A number of values that the comparator
    /// does not accept is turned down.
    pub fn new_comparator(
        field_name: &String,
        op: &SqlOperator,
        value_size: u32,
        param_index: u32,
        level: u32,
        dialect: DatabaseDialect,
    ) -> (r: Result<Self, BuilderError>)
        requires
            arity_accepted(*op, value_size as nat) ==> param_index + value_size <= u32::MAX,
        ensures
            arity_accepted(*op, value_size as nat) ==> r is Ok && r->Ok_0@
                == ConditionView::<T>::comparator(
                field_name@,
                *op,
                value_size,
                param_index,
                level,
                dialect,
            ),
            !arity_accepted(*op, value_size as nat) ==> r is Err && r->Err_0
                == BuilderError::ArityMismatch,
    {
        if !Self::accepts(op, value_size as usize) {
            return Err(BuilderError::ArityMismatch);
        }
        let next = Self::process(param_index, op, value_size);
        Ok(
            Self {
                field_name: field_name.clone(),
                subquery: None,
                operation: *op,
                value_size,
                start_index: param_index,
                param_index: next,
                level,
                logic_operator: LogicOperator::And,
                mode: ConditionMode::Comparator,
                table_alias: String::new(),
                dialect,
            },
        )
    }

    /// A connector or a group delimiter.
    pub fn new_logic(
        logic_operator: LogicOperator,
        mode: ConditionMode,
        level: u32,
        dialect: DatabaseDialect,
    ) -> (r: Self)
        ensures
            r@ == ConditionView::<T>::connector(logic_operator, mode, level, dialect),
    {
        Self {
            field_name: String::new(),
            subquery: None,
            operation: SqlOperator::Equal,
            value_size: 0,
            start_index: 0,
            param_index: 0,
            level,
            logic_operator,
            mode,
            table_alias: String::new(),
            dialect,
        }
    }

    /// A comparison of `field_name` with a nested statement named
    /// `subquery_name`.  The statement itself comes later.
    pub fn new_subquery(
        field_name: String,
        subquery_name: String,
        op: SqlOperator,
        param_index: u32,
        level: u32,
        dialect: DatabaseDialect,
    ) -> (r: Self)
        ensures
            r@ == ConditionView::<T>::open_subquery(
                field_name@,
                subquery_name@,
                op,
                param_index,
                level,
                dialect,
            ),
    {
        Self {
            field_name,
            subquery: None,
            operation: op,
            value_size: 0,
            start_index: param_index,
            param_index,
            level,
            logic_operator: LogicOperator::And,
            mode: ConditionMode::Subquery,
            table_alias: subquery_name,
            dialect,
        }
    }

    /// The bind parameter at which the condition starts.
    pub fn start_parameter_index(&self) -> (r: u32)
        ensures
            r == self@.start_index,
    {
        self.start_index
    }

    /// The first free bind parameter behind the condition.
    pub fn next_parameter_index(&self) -> (r: u32)
        ensures
            r == self@.param_index,
    {
        self.param_index
    }

    /// The nested statement of the condition.
    pub fn subquery(&self) -> (r: &NvSelect<T>)
        requires
            self@.subquery is Some,
        ensures
            Some(Box::new(r@)) == self@.subquery,
    {
        match &self.subquery {
            Some(s) => &**s,
            None => vstd::pervasive::unreached(),
        }
    }

    /// The name of the nested statement.
    pub fn subquery_table_alias(&self) -> (r: &String)
        ensures
            r@ == self@.table_alias,
    {
        &self.table_alias
    }

    fn comparator_query(&self) -> (r: String)
        ensures
            r@ == self@.comparator_text(),
    {
        let mut out = self.field_name.clone();
        match self.operation {
            SqlOperator::Between => {
                out.append(" BETWEEN ");
                push_placeholder(&mut out, self.dialect, self.start_index as u128);
                out.append(" AND ");
                push_placeholder(&mut out, self.dialect, self.start_index as u128 + 1);
            },
            SqlOperator::In => {
                out.append(" IN (");
                let ghost head = out@;
                let ghost parts = placeholder_list(
                    self.dialect,
                    self.start_index as nat,
                    self.value_size as nat,
                );
                let mut k: u32 = 0;
                proof {
                    lemma_parts_bounds(head, parts, ", "@);
                }
                while k < self.value_size
                    invariant
                        k <= self.value_size,
                        parts == placeholder_list(
                            self.dialect,
                            self.start_index as nat,
                            self.value_size as nat,
                        ),
                        out@ == head + join_texts(parts.take(k as int), ", "@),
                    decreases self.value_size - k,
                {
                    let mut part = String::new();
                    push_placeholder(&mut part, self.dialect, self.start_index as u128 + k as u128);
                    proof {
                        assert(part@ =~= parts[k as int]);
                    }
                    push_part(&mut out, Ghost(head), Ghost(parts), k as usize, ", ", part.as_str());
                    k = k + 1;
                }
                proof {
                    lemma_parts_bounds(head, parts, ", "@);
                }
                out.append(")");
            },
            _ => {
                out.append(" ");
                let symbol = self.operation.to_string();
                out.append(symbol.as_str());
                out.append(" ");
                push_placeholder(&mut out, self.dialect, self.start_index as u128);
            },
        }
        out
    }

    /// The text of the condition.
    pub fn generate_query(&self, pretty_print: bool) -> (r: String)
        ensures
            r@ == self@.query_text(pretty_print),
        decreases self, 1nat,
    {
        match self.mode {
            ConditionMode::StartGroup => "(".to_string(),
            ConditionMode::EndGroup => ")".to_string(),
            ConditionMode::LogicalOperator => {
                let mut out = " ".to_string();
                let keyword = self.logic_operator.to_string();
                out.append(keyword.as_str());
                out.append(" ");
                out
            },
            ConditionMode::Comparator => self.comparator_query(),
            ConditionMode::Subquery => {
                let mut out = self.field_name.clone();
                out.append(" ");
                let symbol = self.operation.to_string();
                out.append(symbol.as_str());
                out.append(" (");
                let nested = self.generate_query_from_subquery(pretty_print);
                out.append(nested.as_str());
                out.append(")");
                push_name_suffix(&mut out, self.table_alias.as_str());
                out.append(" ");
                out
            },
        }
    }

    /// The text of the nested statement; empty while there is none.
    pub fn generate_query_from_subquery(&self, pretty_print: bool) -> (r: String)
        ensures
            r@ == self@.subquery_text(pretty_print),
        decreases self, 0nat,
    {
        match &self.subquery {
            Some(s) => s.generate_query(pretty_print),
            None => String::new(),
        }
    }
}

impl<T> WhereStatement<T> {
    /// The model of the clause, with all that is nested in it and all that waits
    /// for it.
    pub closed spec fn view(&self) -> WhereStatementView<T>
        decreases self,
    {
        WhereStatementView {
            parent: match self.parent {
                Some(p) => Some(Box::new(p.view())),
                None => None,
            },
            parameter_values: self.parameter_values@,
            conditions: Seq::new(
                self.conditions@.len(),
                |k: int|
                    if 0 <= k < self.conditions@.len() {
                        self.conditions@[k].view()
                    } else {
                        arbitrary()
                    },
            ),
            level: self.level,
            current_param_index: self.current_param_index,
            base_param_index: self.base_param_index,
            dialect: self.dialect,
        }
    }
}

impl<T> WhereStatement<T> {
    /// Whether the clause is well formed as the part at hand.
    pub open spec fn wf(&self) -> bool {
        self@.wf()
    }

    /// An empty clause that belongs to no statement and counts from 1.
    pub fn new(dialect: DatabaseDialect) -> (r: Self)
        ensures
            r@ == (WhereStatementView::<T> {
                parent: None,
                parameter_values: Seq::empty(),
                conditions: Seq::empty(),
                level: 0,
                current_param_index: 1,
                base_param_index: 1,
                dialect,
            }),
            r.wf(),
    {
        let r = Self {
            parent: None,
            parameter_values: Vec::new(),
            conditions: Vec::new(),
            level: 0,
            current_param_index: 1,
            base_param_index: 1,
            dialect,
        };
        proof {
            assert(r@.conditions =~= Seq::empty());
            assert forall|i: int| #[trigger] r@.statement_uses(i) == 0 by {}
        }
        r
    }

    /// An empty clause for `parent`, which waits until the clause is closed.
    /// The clause takes over the list of values and counts on from
    /// `current_param_index`.  It is well formed when the statement is
    /// consistent, is of `dialect`, has no `WHERE` clause and stands at that
    /// counter, the list holds one value for each bind parameter given out
    /// so far, and the level leaves room for what may be nested.
    pub fn new_with_parent(
        values: Vec<T>,
        parent: NvSelect<T>,
        current_param_index: u32,
        level: u32,
        dialect: DatabaseDialect,
    ) -> (r: Self)
        ensures
            r@ == (WhereStatementView {
                parent: Some(Box::new(parent@)),
                parameter_values: values@,
                conditions: Seq::empty(),
                level,
                current_param_index,
                base_param_index: parent@.base_param_index,
                dialect,
            }),
            parent@.frame_ok() && parent@.dialect == dialect && parent@.where_statement is None
                && parent@.current_param_index == current_param_index
                && parent@.base_param_index + values@.len() == current_param_index
                && level_fits(level) ==> r.wf(),
    {
        let base = parent.base_param_index();
        let r = Self {
            parent: Some(Box::new(parent)),
            parameter_values: values,
            conditions: Vec::new(),
            level,
            current_param_index,
            base_param_index: base,
            dialect,
        };
        proof {
            assert(r@.conditions =~= Seq::empty());
            assert forall|i: int| #[trigger] r@.statement_uses(i) == parent@.uses(i) by {}
            if parent@.frame_ok() {
                assert(parent@.context_ok());
            }
        }
        r
    }

    /// The bind parameter to which the first bound value belongs.
    pub fn base_param_index(&self) -> (r: u32)
        ensures
            r == self@.base_param_index,
    {
        self.base_param_index
    }

    /// The clause at hand again: `parent` waits for it, and the clause takes
    /// over `values`, the counter `current`, the base index and the level.
    pub(crate) fn resume(
        self,
        parent: NvSelect<T>,
        values: Vec<T>,
        current: u32,
        base: u32,
        level: u32,
    ) -> (r: Self)
        ensures
            r@ == (WhereStatementView {
                parent: Some(Box::new(parent@)),
                parameter_values: values@,
                level,
                current_param_index: current,
                base_param_index: base,
                ..self@
            }),
    {
        let mut s = self;
        s.parent = Some(Box::new(parent));
        s.parameter_values = values;
        s.current_param_index = current;
        s.base_param_index = base;
        s.level = level;
        proof {
            assert(s@.conditions =~= self@.conditions);
        }
        s
    }

    /// The clause with the finished statement `nested` in its last
    /// condition, `current` as its counter and `values` as its bound values.
    pub(crate) fn fill_subquery(
        self,
        nested: NvSelect<T>,
        current: u32,
        values: Vec<T>,
    ) -> (r: Self)
        requires
            self@.conditions.len() > 0,
        ensures
            r@ == (WhereStatementView {
                conditions: self@.conditions.drop_last().push(
                    ConditionView {
                        subquery: Some(Box::new(nested@)),
                        param_index: current,
                        ..self@.conditions.last()
                    },
                ),
                current_param_index: current,
                parameter_values: values@,
                ..self@
            }),
    {
        let mut s = self;
        let waiting = s.conditions.pop();
        match waiting {
            Some(condition) => {
                let mut condition = condition;
                proof {
                    assert(condition@ == self@.conditions.last());
                }
                condition.subquery = Some(Box::new(nested));
                condition.param_index = current;
                s.conditions.push(condition);
            },
            None => {},
        }
        s.current_param_index = current;
        s.parameter_values = values;
        proof {
            assert(s@.conditions =~= self@.conditions.drop_last().push(
                ConditionView {
                    subquery: Some(Box::new(nested@)),
                    param_index: current,
                    ..self@.conditions.last()
                },
            ));
        }
        s
    }

    /// Sets the counter and leaves the rest as it is.  No step of the
    /// builder needs this: a well-formed clause stays well formed only if
    /// the counter is left where it stands.
    pub fn update_current_parameter_index(&mut self, parameter_index: u32)
        ensures
            final(self)@ == (WhereStatementView {
                current_param_index: parameter_index,
                ..old(self)@
            }),
            old(self).wf() ==> (final(self).wf() <==> parameter_index
                == old(self)@.current_param_index),
    {
        self.current_param_index = parameter_index;
    }

    /// The first free bind parameter.
    pub fn get_current_parameter_index(&self) -> (r: u32)
        ensures
            r == self@.current_param_index,
    {
        self.current_param_index
    }

    /// The bound values, in the order of their bind parameters.
    pub fn values(&self) -> (r: &Vec<T>)
        ensures
            r@ == self@.parameter_values,
    {
        &self.parameter_values
    }

    /// Whether a statement waits for this clause, so that closing it will succeed.
    pub fn has_parent(&self) -> (r: bool)
        ensures
            r == (self@.parent is Some),
    {
        self.parent.is_some()
    }

    /// Closes the clause and hands back the statement that waited for it,
    /// with the clause in place and the counter and the values taken over.
    /// Without such a statement the call is turned down and the clause comes
    /// back as it was.
    pub fn end_where_block(self) -> (r: Result<NvSelect<T>, Refused<WhereStatement<T>>>)
        requires
            self.wf(),
        ensures
            self@.parent is None ==> r is Err && r->Err_0.error == BuilderError::NoParent
                && r->Err_0.handle@ == self@,
            self@.parent is Some ==> r is Ok && r->Ok_0@ == self@.close() && r->Ok_0.wf(),
    {
        let mut s = self;
        let parent = s.parent.take();
        match parent {
            None => {
                proof {
                    assert(s@.conditions =~= self@.conditions);
                    assert(s@ == self@);
                }
                Err(Refused { error: BuilderError::NoParent, handle: s })
            },
            Some(b) => {
                let values = s.parameter_values;
                s.parameter_values = Vec::new();
                let current = s.current_param_index;
                proof {
                    assert(s@.conditions =~= self@.conditions);
                    assert(s@ == self@.detached());
                }
                let p = (*b).put_where(s, current, values);
                proof {
                    assert(p@ == self@.close());
                    lemma_where_close_wf(self@);
                }
                Ok(p)
            },
        }
    }

    /// The conditions one after another, behind `WHERE ` where
    /// `append_where_keyword` asks for it.
    pub fn generate_query(&self, pretty_print: bool, append_where_keyword: bool) -> (r: String)
        ensures
            r@ == self@.query_text(pretty_print, append_where_keyword),
        decreases self, 2nat,
    {
        let mut out = String::new();
        if append_where_keyword {
            out.append("WHERE ");
        }
        let ghost head = out@;
        let ghost texts = self@.condition_texts(pretty_print);
        let mut i: usize = 0;
        proof {
            lemma_parts_bounds(head, texts, ""@);
            reveal_strlit("");
            assert(""@ =~= Seq::<char>::empty());
        }
        while i < self.conditions.len()
            invariant
                i <= self.conditions.len(),
                texts == self@.condition_texts(pretty_print),
                texts.len() == self.conditions.len(),
                out@ == head + join_texts(texts.take(i as int), ""@),
            decreases self.conditions.len() - i,
        {
            let part = self.conditions[i].generate_query(pretty_print);
            proof {
                assert(self@.conditions[i as int] == self.conditions@[i as int]@);
            }
            push_part(&mut out, Ghost(head), Ghost(texts), i, "", part.as_str());
            i = i + 1;
        }
        proof {
            lemma_parts_bounds(head, texts, ""@);
            reveal_strlit("");
            assert(""@ =~= Seq::<char>::empty());
            assert(head =~= if append_where_keyword {
                "WHERE "@
            } else {
                Seq::empty()
            });
        }
        out
    }

    fn push_comparator(self, field_name: &String, op: &SqlOperator, values: Vec<T>) -> (r: Self)
        requires
            self.wf(),
            arity_accepted(*op, values@.len()),
            self.current_param_index + values@.len() <= u32::MAX,
        ensures
            r@ == self@.bind(field_name@, *op, values@),
            r.wf(),
    {
        let mut s = self;
        let mut values = values;
        let ghost bound = values@;
        let size = values.len() as u32;
        let made = Condition::new_comparator(
            field_name,
            op,
            size,
            s.current_param_index,
            s.level + 1,
            s.dialect,
        );
        match made {
            Ok(condition) => {
                s.current_param_index = condition.next_parameter_index();
                s.conditions.push(condition);
                s.parameter_values.append(&mut values);
                proof {
                    assert(s@.conditions =~= self@.bind(field_name@, *op, bound).conditions);
                    lemma_bind_wf(self@, field_name@, *op, bound);
                }
                s
            },
            Err(_) => s,
        }
    }

    /// Adds a comparator on `field_name` that binds `values` from the counter
    /// on.  `BETWEEN` takes exactly two values, `IN` any number, every other
    /// comparator exactly one; another number is turned down, nothing is
    /// bound, and the clause and the values come back as they were.
    pub fn add_condition(
        self,
        field_name: &String,
        op: &SqlOperator,
        values: Vec<T>,
    ) -> (r: Result<Self, Refused<(Self, Vec<T>)>>)
        requires
            self.wf(),
            arity_accepted(*op, values@.len()) ==> self@.current_param_index + values@.len()
                <= u32::MAX,
        ensures
            arity_accepted(*op, values@.len()) ==> r is Ok && r->Ok_0@ == self@.bind(
                field_name@,
                *op,
                values@,
            ) && r->Ok_0.wf(),
            !arity_accepted(*op, values@.len()) ==> r is Err && r->Err_0.error
                == BuilderError::ArityMismatch && r->Err_0.handle.0@ == self@
                && r->Err_0.handle.1@ == values@,
    {
        if Condition::<T>::accepts(op, values.len()) {
            Ok(self.push_comparator(field_name, op, values))
        } else {
            Err(Refused { error: BuilderError::ArityMismatch, handle: (self, values) })
        }
    }

    /// Adds `field_name BETWEEN value1 AND value2`, which binds the two
    /// values at the counter and the index behind it.
    pub fn add_condition_between(self, field_name: &String, value1: T, value2: T) -> (r: Self)
        requires
            self.wf(),
            self@.current_param_index + 2 <= u32::MAX,
        ensures
            r@ == self@.bind(field_name@, SqlOperator::Between, seq![value1, value2]),
            r.wf(),
    {
        let mut values = Vec::new();
        values.push(value1);
        values.push(value2);
        assert(values@ =~= seq![value1, value2]);
        self.push_comparator(field_name, &SqlOperator::Between, values)
    }

    /// Adds `field_name IN (..)` with one placeholder for each of `values`;
    /// without values the list is empty and nothing is bound.
    pub fn add_condition_in(self, field_name: &String, values: Vec<T>) -> (r: Self)
        requires
            self.wf(),
            self@.current_param_index + values@.len() <= u32::MAX,
        ensures
            r@ == self@.bind(field_name@, SqlOperator::In, values@),
            r.wf(),
    {
        self.push_comparator(field_name, &SqlOperator::In, values)
    }

    fn push_connector(self, logic_operator: LogicOperator, mode: ConditionMode) -> (r: Self)
        requires
            self.wf(),
            mode != ConditionMode::Comparator,
            mode != ConditionMode::Subquery,
        ensures
            r@ == self@.with_connector(logic_operator, mode),
            r.wf(),
    {
        let mut s = self;
        let condition = Condition::new_logic(logic_operator, mode, s.level, s.dialect);
        s.conditions.push(condition);
        proof {
            assert(s@.conditions =~= self@.with_connector(logic_operator, mode).conditions);
            lemma_with_connector_wf(self@, logic_operator, mode);
        }
        s
    }

    /// Adds the connector `AND`.
    pub fn and(self) -> (r: Self)
        requires
            self.wf(),
        ensures
            r@ == self@.with_connector(LogicOperator::And, ConditionMode::LogicalOperator),
            r.wf(),
    {
        self.push_connector(LogicOperator::And, ConditionMode::LogicalOperator)
    }

    /// Adds the connector `OR`.
    pub fn or(self) -> (r: Self)
        requires
            self.wf(),
        ensures
            r@ == self@.with_connector(LogicOperator::Or, ConditionMode::LogicalOperator),
            r.wf(),
    {
        self.push_connector(LogicOperator::Or, ConditionMode::LogicalOperator)
    }

    /// Opens a group of conditions.
    pub fn start_group(self) -> (r: Self)
        requires
            self.wf(),
        ensures
            r@ == self@.with_connector(LogicOperator::Or, ConditionMode::StartGroup),
            r.wf(),
    {
        self.push_connector(LogicOperator::Or, ConditionMode::StartGroup)
    }

    /// Closes a group of conditions.
    pub fn end_group(self) -> (r: Self)
        requires
            self.wf(),
        ensures
            r@ == self@.with_connector(LogicOperator::Or, ConditionMode::EndGroup),
            r.wf(),
    {
        self.push_connector(LogicOperator::Or, ConditionMode::EndGroup)
    }

    /// Adds a comparison of `field_name` with a nested statement named
    /// `subquery_name`, and starts that statement.  The clause waits for it;
    /// the statement takes over the list of values and counts on from the
    /// clause's counter, two levels deeper.
    pub fn add_subquery(
        self,
        field_name: String,
        op: SqlOperator,
        subquery_name: String,
    ) -> (r: NvSelect<T>)
        requires
            self.wf(),
            self@.level + 4 <= u32::MAX,
        ensures
            r@ == self@.enter_subquery(field_name@, op, subquery_name@),
            r.wf(),
    {
        let mut s = self;
        let param_index = s.current_param_index;
        let level = s.level + 1;
        let dialect = s.dialect;
        let alias = subquery_name.clone();
        let condition = Condition::new_subquery(
            field_name,
            subquery_name,
            op,
            param_index,
            level,
            dialect,
        );
        s.conditions.push(condition);
        let values = s.parameter_values;
        s.parameter_values = Vec::new();
        proof {
            let target = self@.enter_subquery(field_name@, op, subquery_name@);
            assert(s@.conditions =~= target.subquery_where_parent->0.conditions);
            assert(s@ == *target.subquery_where_parent->0);
            lemma_where_enter_subquery_wf(self@, field_name@, op, subquery_name@);
        }
        NvSelect::new_subquery_where(values, s, param_index, level + 1, alias, dialect)
    }
}

} // verus!
