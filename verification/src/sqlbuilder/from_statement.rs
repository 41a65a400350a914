//! The `FROM` clause: tables and nested statements, in the order in which
//! they were added.

use crate::sqlbuilder::def::{BuilderError, DatabaseDialect, Refused};
use crate::sqlbuilder::model::{option_text, FromEntryView, FromTableStatementView, FromTableView};
use crate::sqlbuilder::nv_select::NvSelect;
use crate::sqlbuilder::protocol::{
    lemma_from_close_wf, lemma_from_enter_subquery_wf, lemma_with_table_wf, level_fits,
};
use crate::sqlbuilder::writer::{
    clone_optional_text, lemma_parts_bounds, push_alias_suffix, push_name_suffix, push_part,
};
use crate::utils::strings::{join_texts, push_indent};
use vstd::prelude::*;
use vstd::string::*;

verus! {

/// A table with its optional alias.
#[derive(Debug, Clone)]
pub struct FromTable {
    /// The name of the table.
    table: String,
    /// The alias of the table.
    table_alias: Option<String>,
}

/// One entry of a `FROM` clause.
pub(crate) enum FromEntry<T> {
    Table(FromTable),
    Subquery(Box<NvSelect<T>>),
}

/// The entries of the `FROM` clause of one statement.
pub struct FromTableStatement<T> {
    /// The statement that waits for the clause; absent once the clause
    /// stands in its statement.
    parent: Option<Box<NvSelect<T>>>,
    /// The tables and nested statements, in order.
    entries: Vec<FromEntry<T>>,
    /// The bound values, in the order of their bind parameters; empty while
    /// another part of the tree is at hand.
    parameter_values: Vec<T>,
    /// The first free bind parameter.
    current_parameter_index: u32,
    /// The bind parameter to which the first bound value belongs.
    base_parameter_index: u32,
    /// The nesting level of the statement.
    level: u32,
    /// The dialect in which placeholders are written.
    dialect: DatabaseDialect,
}

impl FromTable {
    /// The model of the table.
    pub closed spec fn view(&self) -> FromTableView {
        FromTableView { table: self.table@, table_alias: option_text(self.table_alias) }
    }
}

impl FromTable {
    /// A table without name.
    pub fn new() -> (r: Self)
        ensures
            r@ == (FromTableView { table: Seq::empty(), table_alias: None }),
    {
        Self { table: String::new(), table_alias: None }
    }

    /// The table `table`, under `alias` where one is given.
    pub fn with_alias(table: String, alias: Option<String>) -> (r: Self)
        ensures
            r@ == (FromTableView { table: table@, table_alias: option_text(alias) }),
    {
        Self { table, table_alias: alias }
    }

    /// The table's name, and its alias where it has one.
    pub fn build_table_name(&self) -> (r: String)
        ensures
            r@ == self@.table_text(),
    {
        let mut out = self.table.clone();
        push_alias_suffix(&mut out, &self.table_alias);
        out
    }
}

impl<T> FromEntry<T> {
    /// The model of the entry.
    pub closed spec fn view(&self) -> FromEntryView<T>
        decreases self,
    {
        match self {
            FromEntry::Table(t) => FromEntryView::Table(t@),
            FromEntry::Subquery(s) => FromEntryView::Subquery(Box::new(s.view())),
        }
    }
}

impl<T> FromTableStatement<T> {
    /// The model of the clause, with all that is nested in it and all that waits
    /// for it.
    pub closed spec fn view(&self) -> FromTableStatementView<T>
        decreases self,
    {
        FromTableStatementView {
            parent: match self.parent {
                Some(p) => Some(Box::new(p.view())),
                None => None,
            },
            entries: Seq::new(
                self.entries@.len(),
                |k: int|
                    if 0 <= k < self.entries@.len() {
                        self.entries@[k].view()
                    } else {
                        arbitrary()
                    },
            ),
            parameter_values: self.parameter_values@,
            current_parameter_index: self.current_parameter_index,
            base_parameter_index: self.base_parameter_index,
            level: self.level,
            dialect: self.dialect,
        }
    }
}

impl<T> FromTableStatement<T> {
    /// Whether the clause is well formed as the part at hand.
    pub open spec fn wf(&self) -> bool {
        self@.wf()
    }

    /// An empty clause for `parent`, which waits until the clause is closed.
    /// The clause takes over the list of values and counts on from
    /// `parameter_index`.  It is well formed when the statement is
    /// consistent, is of `dialect`, has no `FROM` clause and stands at that
    /// counter, the list holds one value for each bind parameter given out
    /// so far, and the level leaves room for what may be nested.
    pub fn new(
        parameter_values: Vec<T>,
        parent: NvSelect<T>,
        parameter_index: u32,
        level: u32,
        dialect: DatabaseDialect,
    ) -> (r: Self)
        ensures
            r@ == (FromTableStatementView {
                parent: Some(Box::new(parent@)),
                entries: Seq::empty(),
                parameter_values: parameter_values@,
                current_parameter_index: parameter_index,
                base_parameter_index: parent@.base_param_index,
                level,
                dialect,
            }),
            parent@.frame_ok() && parent@.dialect == dialect && parent@.from_statement is None
                && parent@.current_param_index == parameter_index && parent@.base_param_index
                + parameter_values@.len() == parameter_index && level_fits(level) ==> r.wf(),
    {
        let base = parent.base_param_index();
        let r = Self {
            parent: Some(Box::new(parent)),
            entries: Vec::new(),
            parameter_values,
            current_parameter_index: parameter_index,
            base_parameter_index: base,
            level,
            dialect,
        };
        proof {
            assert(r@.entries =~= Seq::empty());
            assert forall|i: int| #[trigger] r@.statement_uses(i) == parent@.uses(i) by {}
            if parent@.frame_ok() {
                assert(parent@.context_ok());
            }
        }
        r
    }

    /// Adds a table behind the entries that are there.
    pub fn add_table(self, table: FromTable) -> (r: Self)
        requires
            self.wf(),
        ensures
            r@ == self@.with_table(table@),
            r.wf(),
    {
        let mut s = self;
        s.entries.push(FromEntry::Table(table));
        proof {
            assert(s@.entries =~= self@.entries.push(FromEntryView::Table(table@)));
            lemma_with_table_wf(self@, table@);
        }
        s
    }

    /// Adds the table `table_name`, under `table_alias` where one is given,
    /// behind the entries that are there.
    pub fn add_table_with_alias(
        self,
        table_name: &String,
        table_alias: &Option<String>,
    ) -> (r: Self)
        requires
            self.wf(),
        ensures
            r@ == self@.with_table(
                FromTableView { table: table_name@, table_alias: option_text(*table_alias) },
            ),
            r.wf(),
    {
        let table = FromTable::with_alias(table_name.clone(), clone_optional_text(table_alias));
        self.add_table(table)
    }

    /// The first free bind parameter.
    pub fn get_current_parameter_index(&self) -> (r: u32)
        ensures
            r == self@.current_parameter_index,
    {
        self.current_parameter_index
    }

    /// The bind parameter to which the first bound value belongs.
    pub fn base_parameter_index(&self) -> (r: u32)
        ensures
            r == self@.base_parameter_index,
    {
        self.base_parameter_index
    }

    /// The clause at hand again: `parent` waits for it, and the clause takes
    /// over `values`, the counter `current`, the base index and the level.
    pub(crate) fn resume(
        self,
        parent: NvSelect<T>,
        values: Vec<T>,
        current: u32,
        base: u32,
        level: u32,
    ) -> (r: Self)
        ensures
            r@ == (FromTableStatementView {
                parent: Some(Box::new(parent@)),
                parameter_values: values@,
                current_parameter_index: current,
                base_parameter_index: base,
                level,
                ..self@
            }),
    {
        let mut s = self;
        s.parent = Some(Box::new(parent));
        s.parameter_values = values;
        s.current_parameter_index = current;
        s.base_parameter_index = base;
        s.level = level;
        proof {
            assert(s@.entries =~= self@.entries);
        }
        s
    }

    /// The clause with the finished statement `nested` as its last entry,
    /// `current` as its counter and `values` as its bound values.
    pub(crate) fn push_subquery(
        self,
        nested: NvSelect<T>,
        current: u32,
        values: Vec<T>,
    ) -> (r: Self)
        ensures
            r@ == (FromTableStatementView {
                entries: self@.entries.push(FromEntryView::Subquery(Box::new(nested@))),
                current_parameter_index: current,
                parameter_values: values@,
                ..self@
            }),
    {
        let mut s = self;
        s.entries.push(FromEntry::Subquery(Box::new(nested)));
        s.current_parameter_index = current;
        s.parameter_values = values;
        proof {
            assert(s@.entries =~= self@.entries.push(
                FromEntryView::Subquery(Box::new(nested@)),
            ));
        }
        s
    }

    /// Sets the counter and leaves the rest as it is.  No step of the
    /// builder needs this: a well-formed clause stays well formed only if
    /// the counter is left where it stands.
    pub fn update_current_parameter_index(&mut self, param_index: u32)
        ensures
            final(self)@ == (FromTableStatementView {
                current_parameter_index: param_index,
                ..old(self)@
            }),
            old(self).wf() ==> (final(self).wf() <==> param_index
                == old(self)@.current_parameter_index),
    {
        self.current_parameter_index = param_index;
    }

    /// Whether the clause has no entry.
    pub fn is_empty(&self) -> (r: bool)
        ensures
            r == (self@.entries.len() == 0),
    {
        self.entries.len() == 0
    }

    /// Starts a nested statement under `table_alias`.  The clause waits for
    /// it; the statement takes over the list of values and counts on from
    /// the clause's counter, one level deeper.
    pub fn begin_subquery(self, table_alias: String) -> (r: NvSelect<T>)
        requires
            self.wf(),
            self@.level + 3 <= u32::MAX,
        ensures
            r@ == self@.enter_subquery(table_alias@),
            r.wf(),
    {
        let index = self.current_parameter_index;
        let level = self.level;
        self.create_new_select_block(index, level + 1, table_alias)
    }

    fn create_new_select_block(
        self,
        index: u32,
        level: u32,
        table_alias: String,
    ) -> (r: NvSelect<T>)
        requires
            self.wf(),
            self.level + 3 <= u32::MAX,
            index == self.current_parameter_index,
            level == self.level + 1,
        ensures
            r@ == self@.enter_subquery(table_alias@),
            r.wf(),
    {
        let mut s = self;
        let values = s.parameter_values;
        s.parameter_values = Vec::new();
        let dialect = s.dialect;
        proof {
            assert(s@.entries =~= self@.entries);
            assert(s@ == (FromTableStatementView { parameter_values: Seq::empty(), ..self@ }));
            lemma_from_enter_subquery_wf(self@, table_alias@);
        }
        NvSelect::new_subquery_from(values, index, level, s, table_alias, dialect)
    }

    /// Whether a statement waits for this clause, so that closing it will succeed.
    pub fn has_parent(&self) -> (r: bool)
        ensures
            r == (self@.parent is Some),
    {
        self.parent.is_some()
    }

    /// Closes the clause and hands back the statement that waited for it,
    /// with the clause in place and the counter and the values taken over.
    /// Without such a statement the call is turned down and the clause comes
    /// back as it was.
    pub fn end_from_table_block(self) -> (r: Result<NvSelect<T>, Refused<FromTableStatement<T>>>)
        requires
            self.wf(),
        ensures
            self@.parent is None ==> r is Err && r->Err_0.error == BuilderError::NoParent
                && r->Err_0.handle@ == self@,
            self@.parent is Some ==> r is Ok && r->Ok_0@ == self@.close() && r->Ok_0.wf(),
    {
        let mut s = self;
        let parent = s.parent.take();
        match parent {
            None => {
                proof {
                    assert(s@.entries =~= self@.entries);
                    assert(s@ == self@);
                }
                Err(Refused { error: BuilderError::NoParent, handle: s })
            },
            Some(b) => {
                let values = s.parameter_values;
                s.parameter_values = Vec::new();
                let current = s.current_parameter_index;
                proof {
                    assert(s@.entries =~= self@.entries);
                    assert(s@ == self@.detached());
                }
                let p = (*b).put_from(s, current, values);
                proof {
                    assert(p@ == self@.close());
                    lemma_from_close_wf(self@);
                }
                Ok(p)
            },
        }
    }

    /// The text of entry `i`, in the indented form behind its indentation.
    fn entry_query(&self, i: usize, pretty_print: bool) -> (r: String)
        requires
            i < self.entries@.len(),
        ensures
            r@ == self@.entry_texts(pretty_print)[i as int],
        decreases self, 0nat,
    {
        let mut out = String::new();
        if pretty_print {
            push_indent(&mut out, self.level as u64 + 1);
        }
        let ghost indented = out@;
        match &self.entries[i] {
            FromEntry::Table(t) => {
                let s = t.build_table_name();
                out.append(s.as_str());
            },
            FromEntry::Subquery(q) => {
                out.append(
                    if pretty_print {
                        "(\n"
                    } else {
                        "("
                    },
                );
                let s = q.generate_query(pretty_print);
                out.append(s.as_str());
                out.append(")");
                push_name_suffix(&mut out, q.table_alias());
            },
        }
        proof {
            let entry = self@.entries[i as int];
            assert(entry == self.entries@[i as int]@);
            assert(out@ =~= indented + entry.entry_text(pretty_print));
        }
        out
    }

    /// The entries, separated by a comma and a space, or in the indented form
    /// by a comma and a line break and each behind its indentation.
    pub fn generate_query(&self, pretty_print: bool) -> (r: String)
        ensures
            r@ == self@.query_text(pretty_print),
        decreases self, 1nat,
    {
        let mut out = String::new();
        let sep = if pretty_print {
            ",\n"
        } else {
            ", "
        };
        let ghost texts = self@.entry_texts(pretty_print);
        let mut i: usize = 0;
        proof {
            lemma_parts_bounds(out@, texts, sep@);
        }
        while i < self.entries.len()
            invariant
                i <= self.entries.len(),
                texts == self@.entry_texts(pretty_print),
                texts.len() == self.entries.len(),
                out@ == Seq::<char>::empty() + join_texts(texts.take(i as int), sep@),
            decreases self.entries.len() - i,
        {
            let part = self.entry_query(i, pretty_print);
            push_part(&mut out, Ghost(Seq::empty()), Ghost(texts), i, sep, part.as_str());
            i = i + 1;
        }
        proof {
            lemma_parts_bounds(Seq::empty(), texts, sep@);
            assert(out@ =~= join_texts(texts, sep@));
        }
        out
    }

    /// The one-line text of `select`.
    pub fn generate_select_block(&self, select: &NvSelect<T>) -> (r: String)
        ensures
            r@ == select@.query_text(false),
    {
        select.generate_query(false)
    }

    /// The text of `select`.
    pub fn generate_select_query(&self, select: &NvSelect<T>, pretty_print: bool) -> (r: String)
        ensures
            r@ == select@.query_text(pretty_print),
    {
        select.generate_query(pretty_print)
    }

    /// The alias under which `select` stands in a `FROM` clause.
    pub fn get_table_alias_from_parent(&self, select: &NvSelect<T>) -> (r: String)
        ensures
            r@ == select@.table_alias,
    {
        select.table_alias().to_string()
    }
}

} // verus!
