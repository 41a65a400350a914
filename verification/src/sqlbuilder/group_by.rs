//! The `GROUP BY` clause.

use crate::sqlbuilder::def::{BuilderError, Refused};
use crate::sqlbuilder::model::{
    group_texts, option_text, qualified_text, GroupByClauseView, GroupByStatementView,
};
use crate::sqlbuilder::nv_select::NvSelect;
use crate::sqlbuilder::protocol::lemma_side_clauses_wf;
use crate::sqlbuilder::writer::{lemma_parts_bounds, push_part, push_qualified};
use crate::utils::strings::join_texts;
use vstd::prelude::*;
use vstd::string::*;

verus! {

/// The kinds of a grouping key.
#[derive(Debug, PartialEq, Eq, Clone, Copy, Structural)]
pub enum GroupByMode {
    Field,
    FunctionCall,
    RawString,
}

/// One grouping key.
pub struct GroupByClause {
    /// The name of the column.
    field_name: String,
    /// The qualifier of the column.
    table_alias: Option<String>,
    /// The counter at which the key was added.
    start_parameter_index: u32,
    /// The first free bind parameter behind the key.
    parameter_index: u32,
    /// The nesting level of the statement.
    level: u32,
    /// The kind of the key.
    mode: GroupByMode,
}

/// The grouping keys of one statement.
pub struct GroupByStatement<T> {
    /// The statement that waits for the clause; absent once the clause
    /// stands in its statement.
    parent: Option<Box<NvSelect<T>>>,
    /// The keys, in order.
    sorts: Vec<GroupByClause>,
    /// The nesting level of the statement.
    level: u32,
    /// The counter of the statement when the clause was started.
    param_index: u32,
}

impl GroupByClause {
    /// The model of the key.
    pub closed spec fn view(&self) -> GroupByClauseView {
        GroupByClauseView {
            field_name: self.field_name@,
            table_alias: option_text(self.table_alias),
            start_parameter_index: self.start_parameter_index,
            parameter_index: self.parameter_index,
            level: self.level,
            mode: self.mode,
        }
    }
}

/// The models of a list of grouping keys.
pub open spec fn group_views(v: Seq<GroupByClause>) -> Seq<GroupByClauseView> {
    Seq::new(v.len(), |k: int| v[k]@)
}

impl<T> GroupByStatement<T> {
    /// The model of the clause, with the statement that waits for it.
    pub closed spec fn view(&self) -> GroupByStatementView<T>
        decreases self,
    {
        GroupByStatementView {
            parent: match self.parent {
                Some(p) => Some(Box::new(p.view())),
                None => None,
            },
            sorts: group_views(self.sorts@),
            level: self.level,
            param_index: self.param_index,
        }
    }
}

impl GroupByMode {
    /// The text that stands for the value.
    pub open spec fn label(self) -> Seq<char> {
        match self {
            GroupByMode::Field => "Field"@,
            GroupByMode::FunctionCall => "FunctionCall"@,
            GroupByMode::RawString => "RawString"@,
        }
    }

    /// The label as an owned text.
    pub fn to_string(&self) -> (r: String)
        ensures
            r@ == self.label(),
    {
        match self {
            GroupByMode::Field => "Field".to_string(),
            GroupByMode::FunctionCall => "FunctionCall".to_string(),
            GroupByMode::RawString => "RawString".to_string(),
        }
    }
}

impl GroupByClause {
    /// The first free bind parameter behind a grouping key: a key binds
    /// nothing.
    pub fn process_next_parameter_index(mode: GroupByMode, start_parameter_index: u32) -> (r: u32)
        ensures
            r == start_parameter_index,
    {
        start_parameter_index
    }

    /// The key `field_name`, qualified by `alias` where one is given.
    pub fn new(
        field_name: String,
        alias: Option<String>,
        mode: GroupByMode,
        parameter_index: u32,
        level: u32,
    ) -> (r: Self)
        ensures
            r@ == (GroupByClauseView {
                field_name: field_name@,
                table_alias: option_text(alias),
                start_parameter_index: parameter_index,
                parameter_index,
                level,
                mode,
            }),
    {
        let parameter_index = Self::process_next_parameter_index(mode, parameter_index);
        Self {
            field_name,
            table_alias: alias,
            start_parameter_index: parameter_index,
            parameter_index,
            level,
            mode,
        }
    }

    /// The first free bind parameter behind the key.
    pub fn next_parameter_index(&self) -> (r: u32)
        ensures
            r == self@.parameter_index,
    {
        self.parameter_index
    }

    /// The name of the column.
    pub fn field_name(&self) -> (r: &String)
        ensures
            r@ == self@.field_name,
    {
        &self.field_name
    }

    /// The qualifier of the column.
    pub fn table_alias(&self) -> (r: &Option<String>)
        ensures
            option_text(*r) == self@.table_alias,
    {
        &self.table_alias
    }

    /// The column's name behind its qualifier, where it has one.
    pub fn build_fieldname(&self) -> (r: String)
        ensures
            r@ == qualified_text(self@.table_alias, self@.field_name),
    {
        let mut out = String::new();
        push_qualified(&mut out, &self.table_alias, &self.field_name);
        assert(out@ =~= qualified_text(self@.table_alias, self@.field_name));
        out
    }

    /// The text of the key.
    pub fn generate_query(&self) -> (r: String)
        ensures
            r@ == self@.query_text(),
    {
        self.build_fieldname()
    }
}

impl<T> GroupByStatement<T> {
    /// Whether the clause is well formed as the part at hand.
    pub open spec fn wf(&self) -> bool {
        self@.wf()
    }

    /// An empty clause that belongs to no statement.
    pub fn new() -> (r: Self)
        ensures
            r@ == (GroupByStatementView::<T> {
                parent: None,
                sorts: Seq::empty(),
                level: 0,
                param_index: 1,
            }),
            r.wf(),
    {
        let r = Self { parent: None, sorts: Vec::new(), level: 0, param_index: 1 };
        assert(r@.sorts =~= Seq::empty());
        r
    }

    /// An empty clause for `parent`, which waits until the clause is closed.
    /// It is well formed when the statement is.
    pub fn new_with_parent(parent: NvSelect<T>, parameter_index: u32, level: u32) -> (r: Self)
        ensures
            r@ == (GroupByStatementView {
                parent: Some(Box::new(parent@)),
                sorts: Seq::empty(),
                level,
                param_index: parameter_index,
            }),
            r.wf() == parent.wf(),
    {
        let r = Self {
            parent: Some(Box::new(parent)),
            sorts: Vec::new(),
            level,
            param_index: parameter_index,
        };
        assert(r@.sorts =~= Seq::empty());
        r
    }

    /// Adds the key `field_name`, qualified by `table_alias` where one is
    /// given, behind the keys that are there.
    pub fn field(self, field_name: String, table_alias: Option<String>) -> (r: Self)
        ensures
            r@ == self@.with_key(
                GroupByClauseView {
                    field_name: field_name@,
                    table_alias: option_text(table_alias),
                    start_parameter_index: self@.param_index,
                    parameter_index: self@.param_index,
                    level: self@.level,
                    mode: GroupByMode::Field,
                },
            ),
            r.wf() == self.wf(),
    {
        let mut s = self;
        let clause = GroupByClause::new(
            field_name,
            table_alias,
            GroupByMode::Field,
            s.param_index,
            s.level,
        );
        s.param_index = clause.next_parameter_index();
        s.sorts.push(clause);
        proof {
            assert(s@.sorts =~= self@.sorts.push(clause@));
        }
        s
    }

    /// The clause at hand again, with `parent` waiting for it.
    pub(crate) fn resume(self, parent: NvSelect<T>) -> (r: Self)
        ensures
            r@ == (GroupByStatementView { parent: Some(Box::new(parent@)), ..self@ }),
    {
        let mut s = self;
        s.parent = Some(Box::new(parent));
        s
    }

    /// The keys, separated by `, `.
    pub fn generate_query(&self, _pretty_print: bool) -> (r: String)
        ensures
            r@ == self@.query_text(),
    {
        let mut out = String::new();
        let ghost texts = group_texts(self@.sorts);
        let mut i: usize = 0;
        proof {
            lemma_parts_bounds(out@, texts, ", "@);
        }
        while i < self.sorts.len()
            invariant
                i <= self.sorts.len(),
                texts == group_texts(self@.sorts),
                texts.len() == self.sorts.len(),
                out@ == Seq::<char>::empty() + join_texts(texts.take(i as int), ", "@),
            decreases self.sorts.len() - i,
        {
            let part = self.sorts[i].generate_query();
            proof {
                assert(self@.sorts[i as int] == self.sorts@[i as int]@);
            }
            push_part(&mut out, Ghost(Seq::empty()), Ghost(texts), i, ", ", part.as_str());
            i = i + 1;
        }
        proof {
            lemma_parts_bounds(Seq::empty(), texts, ", "@);
            assert(out@ =~= join_texts(texts, ", "@));
        }
        out
    }

    /// The first free bind parameter.
    pub fn current_parameter_index(&self) -> (r: u32)
        ensures
            r == self@.param_index,
    {
        self.param_index
    }

    /// Whether a statement waits for this clause, so that closing it will succeed.
    pub fn has_parent(&self) -> (r: bool)
        ensures
            r == (self@.parent is Some),
    {
        self.parent.is_some()
    }

    /// Closes the clause and hands back the statement that waited for it,
    /// with the clause in place.  Without such a statement the call is
    /// turned down and the clause comes back as it was.
    pub fn end_group_by_block(self) -> (r: Result<NvSelect<T>, Refused<GroupByStatement<T>>>)
        requires
            self.wf(),
        ensures
            self@.parent is None ==> r is Err && r->Err_0.error == BuilderError::NoParent
                && r->Err_0.handle@ == self@,
            self@.parent is Some ==> r is Ok && r->Ok_0@ == self@.close() && r->Ok_0.wf(),
    {
        let mut s = self;
        let parent = s.parent.take();
        match parent {
            None => {
                proof {
                    assert(s@.sorts =~= self@.sorts);
                    assert(s@ == self@);
                }
                Err(Refused { error: BuilderError::NoParent, handle: s })
            },
            Some(b) => {
                proof {
                    assert(s@ == (GroupByStatementView { parent: None, ..self@ }));
                }
                let p = (*b).put_group_by(s);
                proof {
                    assert(p@ == self@.close());
                    lemma_side_clauses_wf(b@, p@);
                }
                Ok(p)
            },
        }
    }
}

} // verus!
