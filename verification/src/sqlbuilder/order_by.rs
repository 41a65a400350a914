//! The `ORDER BY` clause.

use crate::sqlbuilder::def::{BuilderError, Refused, SortType};
use crate::sqlbuilder::model::{
    option_text, order_texts, qualified_text, OrderByClauseView, OrderByStatementView,
};
use crate::sqlbuilder::nv_select::NvSelect;
use crate::sqlbuilder::protocol::lemma_side_clauses_wf;
use crate::sqlbuilder::writer::{lemma_parts_bounds, push_part, push_qualified};
use crate::utils::strings::join_texts;
use vstd::prelude::*;
use vstd::string::*;

verus! {

/// One sort key.
pub struct OrderByClause {
    /// The name of the column.
    field_name: String,
    /// The qualifier of the column.
    table_alias: Option<String>,
    /// The nesting level of the statement.
    level: u32,
    /// The direction.
    sort_type: SortType,
    /// Whether the direction is written.
    define_sort_type: bool,
}

/// The sort keys of one statement.
pub struct OrderByStatement<T> {
    /// The statement that waits for the clause; absent once the clause
    /// stands in its statement.
    parent: Option<Box<NvSelect<T>>>,
    /// The keys, in order.
    sorts: Vec<OrderByClause>,
    /// The nesting level of the statement.
    level: u32,
}

impl OrderByClause {
    /// The model of the key.
    pub closed spec fn view(&self) -> OrderByClauseView {
        OrderByClauseView {
            field_name: self.field_name@,
            table_alias: option_text(self.table_alias),
            level: self.level,
            sort_type: self.sort_type,
            define_sort_type: self.define_sort_type,
        }
    }
}

/// The models of a list of sort keys.
pub open spec fn order_views(v: Seq<OrderByClause>) -> Seq<OrderByClauseView> {
    Seq::new(v.len(), |k: int| v[k]@)
}

impl<T> OrderByStatement<T> {
    /// The model of the clause, with the statement that waits for it.
    pub closed spec fn view(&self) -> OrderByStatementView<T>
        decreases self,
    {
        OrderByStatementView {
            parent: match self.parent {
                Some(p) => Some(Box::new(p.view())),
                None => None,
            },
            sorts: order_views(self.sorts@),
            level: self.level,
        }
    }
}

impl OrderByClause {
    /// The key `field_name` without qualifier.
    pub fn new(field_name: String, sort: SortType, define_sort_type: bool, level: u32) -> (r: Self)
        ensures
            r@ == (OrderByClauseView {
                field_name: field_name@,
                table_alias: None,
                level,
                sort_type: sort,
                define_sort_type,
            }),
    {
        Self { field_name, table_alias: None, sort_type: sort, define_sort_type, level }
    }

    /// The key `field_name`, qualified by `alias` where one is given.
    pub fn new_with_alias(
        field_name: String,
        alias: Option<String>,
        sort: SortType,
        define_sort_type: bool,
        level: u32,
    ) -> (r: Self)
        ensures
            r@ == (OrderByClauseView {
                field_name: field_name@,
                table_alias: option_text(alias),
                level,
                sort_type: sort,
                define_sort_type,
            }),
    {
        Self { field_name, table_alias: alias, sort_type: sort, define_sort_type, level }
    }

    /// The column's name behind its qualifier, where it has one.
    pub fn build_fieldname(&self) -> (r: String)
        ensures
            r@ == qualified_text(self@.table_alias, self@.field_name),
    {
        let mut out = String::new();
        push_qualified(&mut out, &self.table_alias, &self.field_name);
        assert(out@ =~= qualified_text(self@.table_alias, self@.field_name));
        out
    }

    /// The text of the key: the column, and the direction where the key
    /// asks for it to be written.
    pub fn generate_query(&self) -> (r: String)
        ensures
            r@ == self@.query_text(),
    {
        let mut query = self.build_fieldname();
        if self.define_sort_type {
            query.append(
                match self.sort_type {
                    SortType::Ascending => " ASC",
                    SortType::Descending => " DESC",
                },
            );
        }
        assert(query@ =~= self@.query_text());
        query
    }
}

impl<T> OrderByStatement<T> {
    /// Whether the clause is well formed as the part at hand.
    pub open spec fn wf(&self) -> bool {
        self@.wf()
    }

    /// An empty clause that belongs to no statement.
    pub fn new() -> (r: Self)
        ensures
            r@ == (OrderByStatementView::<T> { parent: None, sorts: Seq::empty(), level: 0 }),
            r.wf(),
    {
        let r = Self { parent: None, sorts: Vec::new(), level: 0 };
        assert(r@.sorts =~= Seq::empty());
        r
    }

    /// An empty clause for `parent`, which waits until the clause is closed.
    /// It is well formed when the statement is.
    pub fn new_with_parent(parent: NvSelect<T>, level: u32) -> (r: Self)
        ensures
            r@ == (OrderByStatementView {
                parent: Some(Box::new(parent@)),
                sorts: Seq::empty(),
                level,
            }),
            r.wf() == parent.wf(),
    {
        let r = Self { parent: Some(Box::new(parent)), sorts: Vec::new(), level };
        assert(r@.sorts =~= Seq::empty());
        r
    }

    /// Adds an ascending key.
    pub fn asc(
        self,
        field_name: String,
        table_alias: Option<String>,
        define_sort_type: bool,
    ) -> (r: Self)
        ensures
            r@ == self@.with_key(
                OrderByClauseView {
                    field_name: field_name@,
                    table_alias: option_text(table_alias),
                    level: self@.level,
                    sort_type: SortType::Ascending,
                    define_sort_type,
                },
            ),
            r.wf() == self.wf(),
    {
        self.sort_by(field_name, table_alias, SortType::Ascending, define_sort_type)
    }

    /// Adds a descending key.
    pub fn desc(
        self,
        field_name: String,
        table_alias: Option<String>,
        define_sort_type: bool,
    ) -> (r: Self)
        ensures
            r@ == self@.with_key(
                OrderByClauseView {
                    field_name: field_name@,
                    table_alias: option_text(table_alias),
                    level: self@.level,
                    sort_type: SortType::Descending,
                    define_sort_type,
                },
            ),
            r.wf() == self.wf(),
    {
        self.sort_by(field_name, table_alias, SortType::Descending, define_sort_type)
    }

    /// Adds the key `field_name`, qualified by `table_alias` where one is
    /// given, behind the keys that are there.
    pub fn sort_by(
        self,
        field_name: String,
        table_alias: Option<String>,
        sort_type: SortType,
        define_sort_type: bool,
    ) -> (r: Self)
        ensures
            r@ == self@.with_key(
                OrderByClauseView {
                    field_name: field_name@,
                    table_alias: option_text(table_alias),
                    level: self@.level,
                    sort_type,
                    define_sort_type,
                },
            ),
            r.wf() == self.wf(),
    {
        let mut s = self;
        let clause = OrderByClause::new_with_alias(
            field_name,
            table_alias,
            sort_type,
            define_sort_type,
            s.level,
        );
        s.sorts.push(clause);
        proof {
            assert(s@.sorts =~= self@.sorts.push(clause@));
        }
        s
    }

    /// The clause at hand again, with `parent` waiting for it.
    pub(crate) fn resume(self, parent: NvSelect<T>) -> (r: Self)
        ensures
            r@ == (OrderByStatementView { parent: Some(Box::new(parent@)), ..self@ }),
    {
        let mut s = self;
        s.parent = Some(Box::new(parent));
        s
    }

    /// The keys, separated by `, `.
    pub fn generate_query(&self, _pretty_print: bool) -> (r: String)
        ensures
            r@ == self@.query_text(),
    {
        let mut out = String::new();
        let ghost texts = order_texts(self@.sorts);
        let mut i: usize = 0;
        proof {
            lemma_parts_bounds(out@, texts, ", "@);
        }
        while i < self.sorts.len()
            invariant
                i <= self.sorts.len(),
                texts == order_texts(self@.sorts),
                texts.len() == self.sorts.len(),
                out@ == Seq::<char>::empty() + join_texts(texts.take(i as int), ", "@),
            decreases self.sorts.len() - i,
        {
            let part = self.sorts[i].generate_query();
            proof {
                assert(self@.sorts[i as int] == self.sorts@[i as int]@);
            }
            push_part(&mut out, Ghost(Seq::empty()), Ghost(texts), i, ", ", part.as_str());
            i = i + 1;
        }
        proof {
            lemma_parts_bounds(Seq::empty(), texts, ", "@);
            assert(out@ =~= join_texts(texts, ", "@));
        }
        out
    }

    /// Whether a statement waits for this clause, so that closing it will succeed.
    pub fn has_parent(&self) -> (r: bool)
        ensures
            r == (self@.parent is Some),
    {
        self.parent.is_some()
    }

    /// Closes the clause and hands back the statement that waited for it,
    /// with the clause in place.  Without such a statement the call is
    /// turned down and the clause comes back as it was.
    pub fn end_order_by_block(self) -> (r: Result<NvSelect<T>, Refused<OrderByStatement<T>>>)
        requires
            self.wf(),
        ensures
            self@.parent is None ==> r is Err && r->Err_0.error == BuilderError::NoParent
                && r->Err_0.handle@ == self@,
            self@.parent is Some ==> r is Ok && r->Ok_0@ == self@.close() && r->Ok_0.wf(),
    {
        let mut s = self;
        let parent = s.parent.take();
        match parent {
            None => {
                proof {
                    assert(s@.sorts =~= self@.sorts);
                    assert(s@ == self@);
                }
                Err(Refused { error: BuilderError::NoParent, handle: s })
            },
            Some(b) => {
                proof {
                    assert(s@ == (OrderByStatementView { parent: None, ..self@ }));
                }
                let p = (*b).put_order_by(s);
                proof {
                    assert(p@ == self@.close());
                    lemma_side_clauses_wf(b@, p@);
                }
                Ok(p)
            },
        }
    }
}

} // verus!
