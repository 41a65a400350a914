//! Joins: the two sides of a join, the join itself, and the blocks of joins
//! of a statement.

use crate::sqlbuilder::def::{
    BuilderError, DatabaseDialect, JoinDefMode, Refused, SqlJoinType, SqlOperator,
};
use crate::sqlbuilder::model::{
    joined_key_text, option_text, record_join_block, record_join_line, text_join_line,
    text_or_empty, JoinDefView, JoinStatementView, RecordKeyView,
};
use crate::sqlbuilder::nv_select::NvSelect;
use crate::sqlbuilder::protocol::lemma_side_clauses_wf;
use crate::sqlbuilder::writer::{lemma_parts_bounds, push_alias_suffix, push_name_suffix, push_part};
use crate::utils::strings::{join_texts, push_indent};
use vstd::prelude::*;
use vstd::string::*;

verus! {

/// One side of a join: a table, its optional alias and the join field.
#[derive(Debug, Clone)]
pub struct RecordKey {
    /// The name of the table.
    table: String,
    /// The join field.
    field: String,
    /// The alias of the table.
    table_alias: Option<String>,
    /// Whether the key was given a table and a field.
    initialize: bool,
}

/// One join.
pub struct JoinDef<T> {
    /// The joined statement as text.
    subquery_str: String,
    /// The alias of the joined text; empty where it has none.
    subquery_str_alias: String,
    /// The join field of the joined text.
    subquery_field_key: String,
    /// The joined statement, where the join carries one.
    subquery_obj: Option<Box<NvSelect<T>>>,
    /// The side that the statement already has.
    left_table: RecordKey,
    /// The joined table, where the join is one of two tables.
    right_table: RecordKey,
    /// The kind of the join.
    join_type: SqlJoinType,
    /// How the two sides are given.
    join_mode: JoinDefMode,
    /// The comparator of a join with a text.
    operator: SqlOperator,
    /// The nesting level of the statement.
    level: u32,
    /// The dialect of the statement.
    dialect: DatabaseDialect,
}

/// One block of joins of a statement.
pub struct JoinStatement<T> {
    /// The statement that waits for the block; absent once the block stands
    /// in its statement.
    parent: Option<Box<NvSelect<T>>>,
    /// The joins, in order.
    joins: Vec<JoinDef<T>>,
    /// The counter of the statement when the block was started.
    current_parameter_index: u32,
    /// The nesting level of the statement.
    level: u32,
    /// The dialect of the statement.
    dialect: DatabaseDialect,
}

impl RecordKey {
    /// The model of the key.
    pub closed spec fn view(&self) -> RecordKeyView {
        RecordKeyView {
            table: self.table@,
            field: self.field@,
            table_alias: option_text(self.table_alias),
            initialize: self.initialize,
        }
    }
}

impl RecordKey {
    /// A key without table and field.
    pub fn new() -> (r: Self)
        ensures
            r@ == (RecordKeyView {
                table: Seq::empty(),
                field: Seq::empty(),
                table_alias: None,
                initialize: false,
            }),
    {
        Self { table: String::new(), field: String::new(), table_alias: None, initialize: false }
    }

    /// The field `field` of `table`, under `alias` where one is given.
    pub fn with_alias(table: String, field: String, alias: Option<String>) -> (r: Self)
        ensures
            r@ == (RecordKeyView {
                table: table@,
                field: field@,
                table_alias: option_text(alias),
                initialize: true,
            }),
    {
        Self { table, field, table_alias: alias, initialize: true }
    }

    /// The join field, qualified by the alias or else by the table.
    pub fn build_field(&self) -> (r: String)
        ensures
            r@ == self@.field_text(),
    {
        let mut out = match &self.table_alias {
            Some(alias) => alias.clone(),
            None => self.table.clone(),
        };
        out.append(".");
        out.append(self.field.as_str());
        out
    }

    /// The table's name, and its alias where it has one.
    pub fn build_table_name(&self) -> (r: String)
        ensures
            r@ == self@.table_text(),
    {
        let mut out = self.table.clone();
        push_alias_suffix(&mut out, &self.table_alias);
        out
    }
}

impl<T> JoinDef<T> {
    /// The model of the join.
    pub closed spec fn view(&self) -> JoinDefView<T>
        decreases self,
    {
        JoinDefView {
            subquery_str: self.subquery_str@,
            subquery_str_alias: self.subquery_str_alias@,
            subquery_field_key: self.subquery_field_key@,
            subquery_obj: match self.subquery_obj {
                Some(s) => Some(Box::new(s.view())),
                None => None,
            },
            left_table: self.left_table@,
            right_table: self.right_table@,
            join_type: self.join_type,
            join_mode: self.join_mode,
            operator: self.operator,
            level: self.level,
            dialect: self.dialect,
        }
    }
}

impl<T> JoinStatement<T> {
    /// The model of the block, with the statement that waits for it.
    pub closed spec fn view(&self) -> JoinStatementView<T>
        decreases self,
    {
        JoinStatementView {
            parent: match self.parent {
                Some(p) => Some(Box::new(p.view())),
                None => None,
            },
            joins: Seq::new(
                self.joins@.len(),
                |k: int|
                    if 0 <= k < self.joins@.len() {
                        self.joins@[k].view()
                    } else {
                        arbitrary()
                    },
            ),
            current_parameter_index: self.current_parameter_index,
            level: self.level,
            dialect: self.dialect,
        }
    }
}

fn write_record_join_line(keyword: &str, left: &RecordKey, right: &RecordKey) -> (r: String)
    ensures
        r@ == record_join_line(keyword@, left@, right@),
{
    let mut out = keyword.to_string();
    out.append(" ");
    let table = right.build_table_name();
    out.append(table.as_str());
    out.append(" ON ");
    let left_field = left.build_field();
    out.append(left_field.as_str());
    out.append(" = ");
    let right_field = right.build_field();
    out.append(right_field.as_str());
    out
}

fn write_record_join_block(
    keyword: &str,
    level: u32,
    left: &RecordKey,
    right: &RecordKey,
) -> (r: String)
    ensures
        r@ == record_join_block(keyword@, level, left@, right@),
{
    let mut out = String::new();
    push_indent(&mut out, level as u64);
    out.append(keyword);
    out.append("\n");
    push_indent(&mut out, level as u64 + 1);
    let table = right.build_table_name();
    out.append(table.as_str());
    out.append(" ON\n");
    push_indent(&mut out, level as u64 + 2);
    let left_field = left.build_field();
    out.append(left_field.as_str());
    out.append(" = ");
    let right_field = right.build_field();
    out.append(right_field.as_str());
    proof {
        assert(out@ =~= record_join_block(keyword@, level, left@, right@));
    }
    out
}

fn write_joined_key(alias: &str, key: &str) -> (r: String)
    ensures
        r@ == joined_key_text(alias@, key@),
{
    if alias.is_empty() {
        key.to_string()
    } else {
        let mut out = alias.to_string();
        out.append(".");
        out.append(key);
        out
    }
}

fn write_text_join_line(
    keyword: &str,
    text: &str,
    alias: &String,
    first: &str,
    op: SqlOperator,
    second: &str,
) -> (r: String)
    ensures
        r@ == text_join_line(keyword@, text@, alias@, first@, op, second@),
{
    let mut out = keyword.to_string();
    out.append(" (");
    out.append(text);
    out.append(") ");
    push_name_suffix(&mut out, alias.as_str());
    out.append(" ON ");
    out.append(first);
    out.append(" ");
    let symbol = op.to_string();
    out.append(symbol.as_str());
    out.append(" ");
    out.append(second);
    out
}

impl<T> JoinDef<T> {
    /// A join of two tables.
    pub fn new_record_key_both(
        left_table: RecordKey,
        right_table: RecordKey,
        join: SqlJoinType,
        level: u32,
        dialect: DatabaseDialect,
    ) -> (r: Self)
        ensures
            r@ == JoinDefView::<T>::record_keys(left_table@, right_table@, join, level, dialect),
    {
        Self {
            subquery_str: String::new(),
            subquery_str_alias: String::new(),
            subquery_field_key: String::new(),
            subquery_obj: None,
            left_table,
            right_table,
            join_type: join,
            join_mode: JoinDefMode::RecordKeyBoth,
            operator: SqlOperator::Equal,
            level,
            dialect,
        }
    }

    /// A join of a table with a statement given as text, compared by
    /// equality.
    pub fn new_subquery_select_string(
        left_table: RecordKey,
        join: SqlJoinType,
        subquery: String,
        subquery_field_key: String,
        subquery_table_alias: String,
        level: u32,
        dialect: DatabaseDialect,
    ) -> (r: Self)
        ensures
            r@ == JoinDefView::<T>::joined_text(
                left_table@,
                join,
                subquery@,
                subquery_field_key@,
                subquery_table_alias@,
                SqlOperator::Equal,
                level,
                dialect,
            ),
    {
        Self {
            subquery_str: subquery,
            subquery_str_alias: subquery_table_alias,
            subquery_field_key,
            subquery_obj: None,
            left_table,
            right_table: RecordKey::new(),
            join_type: join,
            join_mode: JoinDefMode::SubquerySelectString,
            operator: SqlOperator::Equal,
            level,
            dialect,
        }
    }

    /// A join of a table with a finished statement.
    pub fn new_subquery_select_object(
        existing_table: RecordKey,
        subquery: NvSelect<T>,
        join: SqlJoinType,
        level: u32,
        dialect: DatabaseDialect,
    ) -> (r: Self)
        ensures
            r@ == JoinDefView::<T>::joined_statement(
                existing_table@,
                subquery@,
                join,
                level,
                dialect,
            ),
    {
        Self {
            subquery_str: String::new(),
            subquery_str_alias: String::new(),
            subquery_field_key: String::new(),
            subquery_obj: Some(Box::new(subquery)),
            left_table: existing_table,
            right_table: RecordKey::new(),
            join_type: join,
            join_mode: JoinDefMode::SubquerySelectObject,
            operator: SqlOperator::Equal,
            level,
            dialect,
        }
    }

    /// The join with `op` as the comparator of its condition.
    pub fn with_operator(self, op: SqlOperator) -> (r: Self)
        ensures
            r@ == (JoinDefView { operator: op, ..self@ }),
    {
        let mut s = self;
        s.operator = op;
        s
    }

    /// The kind of the join.
    pub fn join_type(&self) -> (r: SqlJoinType)
        ensures
            r == self@.join_type,
    {
        self.join_type
    }

    /// How the two sides are given.
    pub fn mode(&self) -> (r: JoinDefMode)
        ensures
            r == self@.join_mode,
    {
        self.join_mode
    }

    /// The side that the statement already has.
    pub fn left_table(&self) -> (r: &RecordKey)
        ensures
            r@ == self@.left_table,
    {
        &self.left_table
    }

    /// The side that is joined.
    pub fn right_table(&self) -> (r: &RecordKey)
        ensures
            r@ == self@.right_table,
    {
        &self.right_table
    }

    /// The joined statement.
    pub fn subquery(&self) -> (r: &NvSelect<T>)
        requires
            self@.subquery_obj is Some,
        ensures
            Some(Box::new(r@)) == self@.subquery_obj,
    {
        match &self.subquery_obj {
            Some(s) => &**s,
            None => vstd::pervasive::unreached(),
        }
    }

    /// Whether the join carries a statement.
    pub fn has_subquery_object(&self) -> (r: bool)
        ensures
            r == (self@.subquery_obj is Some),
    {
        self.subquery_obj.is_some()
    }

    /// The joined statement as text.
    pub fn subquery_string(&self) -> (r: &String)
        ensures
            r@ == self@.subquery_str,
    {
        &self.subquery_str
    }

    /// The alias of the joined text.
    pub fn subquery_alias_string(&self) -> (r: &String)
        ensures
            r@ == self@.subquery_str_alias,
    {
        &self.subquery_str_alias
    }

    /// The text of the join.
    pub fn generate_query(&self, pretty_print: bool) -> (r: String)
        ensures
            r@ == self@.query_text(pretty_print),
        decreases self, 1nat,
    {
        match self.join_mode {
            JoinDefMode::RecordKeyBoth => self.generate_join_record_both(pretty_print),
            JoinDefMode::SubquerySelectString => self.generate_join_record_subquery_string(),
            JoinDefMode::SubquerySelectObject => {
                if self.join_type == SqlJoinType::NoJoin {
                    String::new()
                } else {
                    self.generate_join_record_subquery_object()
                }
            },
            JoinDefMode::SubqueryRawString => String::new(),
        }
    }

    fn generate_join_record_both(&self, pretty_print: bool) -> (r: String)
        ensures
            r@ == self@.record_join_text(pretty_print),
    {
        match self.join_type {
            SqlJoinType::InnerJoin => self.generate_inner_join(
                &self.left_table,
                &self.right_table,
                pretty_print,
            ),
            SqlJoinType::LeftJoin => self.generate_left_join(
                &self.left_table,
                &self.right_table,
                pretty_print,
            ),
            SqlJoinType::RightJoin => self.generate_right_join(&self.left_table, &self.right_table),
            SqlJoinType::NoJoin => String::new(),
        }
    }

    fn generate_join_record_subquery_string(&self) -> (r: String)
        ensures
            r@ == self@.text_join_text(),
    {
        match self.join_type {
            SqlJoinType::InnerJoin => self.generate_inner_join_from_str(
                &self.left_table,
                self.subquery_str.as_str(),
                self.subquery_field_key.as_str(),
                &self.subquery_str_alias,
                self.operator,
            ),
            SqlJoinType::LeftJoin => self.generate_left_join_from_str(
                &self.left_table,
                self.subquery_str.as_str(),
                self.subquery_field_key.as_str(),
                &self.subquery_str_alias,
                self.operator,
            ),
            SqlJoinType::RightJoin => self.generate_right_join_from_str(
                &self.left_table,
                self.subquery_str.as_str(),
                self.subquery_field_key.as_str(),
                &self.subquery_str_alias,
                self.operator,
            ),
            SqlJoinType::NoJoin => String::new(),
        }
    }

    fn generate_left_join(
        &self,
        left_key: &RecordKey,
        right_key: &RecordKey,
        pretty_print: bool,
    ) -> (r: String)
        ensures
            r@ == if pretty_print {
                record_join_block("LEFT JOIN"@, self.level, left_key@, right_key@)
            } else {
                record_join_line("LEFT JOIN"@, left_key@, right_key@)
            },
    {
        if pretty_print {
            write_record_join_block("LEFT JOIN", self.level, left_key, right_key)
        } else {
            write_record_join_line("LEFT JOIN", left_key, right_key)
        }
    }

    fn generate_left_join_from_str(
        &self,
        right_table: &RecordKey,
        left_table: &str,
        left_table_field_key: &str,
        left_table_alias: &String,
        op: SqlOperator,
    ) -> (r: String)
        ensures
            r@ == text_join_line(
                "LEFT JOIN"@,
                left_table@,
                left_table_alias@,
                joined_key_text(left_table_alias@, left_table_field_key@),
                op,
                right_table@.field_text(),
            ),
    {
        let key = write_joined_key(left_table_alias.as_str(), left_table_field_key);
        let field = right_table.build_field();
        write_text_join_line(
            "LEFT JOIN",
            left_table,
            left_table_alias,
            key.as_str(),
            op,
            field.as_str(),
        )
    }

    fn generate_right_join(&self, left_table: &RecordKey, right_table: &RecordKey) -> (r: String)
        ensures
            r@ == record_join_line("RIGHT JOIN"@, left_table@, right_table@),
    {
        write_record_join_line("RIGHT JOIN", left_table, right_table)
    }

    fn generate_right_join_from_str(
        &self,
        left_table: &RecordKey,
        right_table: &str,
        right_table_field_key: &str,
        right_table_alias: &String,
        op: SqlOperator,
    ) -> (r: String)
        ensures
            r@ == text_join_line(
                "RIGHT JOIN"@,
                right_table@,
                right_table_alias@,
                left_table@.field_text(),
                op,
                joined_key_text(right_table_alias@, right_table_field_key@),
            ),
    {
        let key = write_joined_key(right_table_alias.as_str(), right_table_field_key);
        let field = left_table.build_field();
        write_text_join_line(
            "RIGHT JOIN",
            right_table,
            right_table_alias,
            field.as_str(),
            op,
            key.as_str(),
        )
    }

    fn generate_inner_join(
        &self,
        existing_select: &RecordKey,
        join_on_table: &RecordKey,
        pretty_print: bool,
    ) -> (r: String)
        ensures
            r@ == if pretty_print {
                record_join_block("INNER JOIN"@, self.level, existing_select@, join_on_table@)
            } else {
                record_join_line("INNER JOIN"@, existing_select@, join_on_table@)
            },
    {
        if pretty_print {
            write_record_join_block("INNER JOIN", self.level, existing_select, join_on_table)
        } else {
            write_record_join_line("INNER JOIN", existing_select, join_on_table)
        }
    }

    fn generate_inner_join_from_str(
        &self,
        existing_select: &RecordKey,
        join_on_table: &str,
        join_table_field_key: &str,
        join_table_alias: &String,
        op: SqlOperator,
    ) -> (r: String)
        ensures
            r@ == text_join_line(
                "INNER JOIN"@,
                join_on_table@,
                join_table_alias@,
                existing_select@.field_text(),
                op,
                joined_key_text(join_table_alias@, join_table_field_key@),
            ),
    {
        let key = write_joined_key(join_table_alias.as_str(), join_table_field_key);
        let field = existing_select.build_field();
        write_text_join_line(
            "INNER JOIN",
            join_on_table,
            join_table_alias,
            field.as_str(),
            op,
            key.as_str(),
        )
    }

    /// The one-line text of the joined statement; empty where there is none.
    pub fn generate_join_record_subquery_object(&self) -> (r: String)
        ensures
            r@ == self@.object_join_text(),
        decreases self, 0nat,
    {
        match &self.subquery_obj {
            Some(subquery) => subquery.generate_query(false),
            None => String::new(),
        }
    }
}

impl<T> JoinStatement<T> {
    /// Whether the block is well formed as the part at hand.
    pub open spec fn wf(&self) -> bool {
        self@.wf()
    }

    /// An empty block for `parent`, which waits until the block is closed.
    /// It is well formed when the statement is and `dialect` is the
    /// statement's.
    pub fn new(
        parent: NvSelect<T>,
        parameter_index: u32,
        level: u32,
        dialect: DatabaseDialect,
    ) -> (r: Self)
        ensures
            r@ == (JoinStatementView {
                parent: Some(Box::new(parent@)),
                joins: Seq::empty(),
                current_parameter_index: parameter_index,
                level,
                dialect,
            }),
            r.wf() == (parent.wf() && parent@.dialect == dialect),
    {
        let r = Self {
            parent: Some(Box::new(parent)),
            joins: Vec::new(),
            current_parameter_index: parameter_index,
            level,
            dialect,
        };
        assert(r@.joins =~= Seq::empty());
        r
    }

    /// Whether a statement waits for this block, so that closing it will succeed.
    pub fn has_parent(&self) -> (r: bool)
        ensures
            r == (self@.parent is Some),
    {
        self.parent.is_some()
    }

    /// Closes the block and hands back the statement that waited for it,
    /// with the block behind the blocks that it had.  Without such a
    /// statement the call is turned down and the block comes back as it was.
    pub fn end_join_block(self) -> (r: Result<NvSelect<T>, Refused<JoinStatement<T>>>)
        requires
            self.wf(),
        ensures
            self@.parent is None ==> r is Err && r->Err_0.error == BuilderError::NoParent
                && r->Err_0.handle@ == self@,
            self@.parent is Some ==> r is Ok && r->Ok_0@ == self@.close() && r->Ok_0.wf(),
    {
        let mut s = self;
        let parent = s.parent.take();
        match parent {
            None => {
                proof {
                    assert(s@.joins =~= self@.joins);
                    assert(s@ == self@);
                }
                Err(Refused { error: BuilderError::NoParent, handle: s })
            },
            Some(b) => {
                proof {
                    assert(s@.joins =~= self@.joins);
                    assert(s@ == (JoinStatementView { parent: None, ..self@ }));
                }
                let p = (*b).put_join(s);
                proof {
                    assert(p@ == self@.close());
                    lemma_side_clauses_wf(b@, p@);
                }
                Ok(p)
            },
        }
    }

    /// The one-line text of `select`.
    pub fn generate_select_block(&self, select: &NvSelect<T>) -> (r: String)
        ensures
            r@ == select@.query_text(false),
    {
        select.generate_query(false)
    }

    /// The joins of the block, in order.
    pub fn get_join_clauses(&self) -> (r: &Vec<JoinDef<T>>)
        ensures
            r@.len() == self@.joins.len(),
            forall|k: int| 0 <= k < r@.len() ==> (#[trigger] r@[k])@ == self@.joins[k],
    {
        &self.joins
    }

    /// Whether the block has no join.
    pub fn is_empty(&self) -> (r: bool)
        ensures
            r == (self@.joins.len() == 0),
    {
        self.joins.len() == 0
    }

    /// The joins, separated by a space, or in the indented form by a line
    /// break.
    pub fn generate_query(&self, pretty_print: bool) -> (r: String)
        ensures
            r@ == self@.query_text(pretty_print),
        decreases self, 2nat,
    {
        let mut out = String::new();
        let sep = if pretty_print {
            "\n"
        } else {
            " "
        };
        let ghost texts = self@.join_def_texts(pretty_print);
        let mut i: usize = 0;
        proof {
            lemma_parts_bounds(out@, texts, sep@);
        }
        while i < self.joins.len()
            invariant
                i <= self.joins.len(),
                texts == self@.join_def_texts(pretty_print),
                texts.len() == self.joins.len(),
                out@ == Seq::<char>::empty() + join_texts(texts.take(i as int), sep@),
            decreases self.joins.len() - i,
        {
            let part = self.joins[i].generate_query(pretty_print);
            proof {
                assert(self@.joins[i as int] == self.joins@[i as int]@);
            }
            push_part(&mut out, Ghost(Seq::empty()), Ghost(texts), i, sep, part.as_str());
            i = i + 1;
        }
        proof {
            lemma_parts_bounds(Seq::empty(), texts, sep@);
            assert(out@ =~= join_texts(texts, sep@));
        }
        out
    }

    fn push_join(self, join: JoinDef<T>) -> (r: Self)
        requires
            self.wf(),
            join@.subquery_obj is None,
            join@.dialect == self@.dialect,
        ensures
            r@ == self@.with_join(join@),
            r.wf(),
    {
        let mut s = self;
        s.joins.push(join);
        proof {
            assert(s@.joins =~= self@.joins.push(join@));
        }
        s
    }

    /// Adds a left join of `right_table` on the equality of the two fields.
    pub fn left_join(self, left_table: RecordKey, right_table: RecordKey) -> (r: Self)
        requires
            self.wf(),
        ensures
            r@ == self@.with_join(
                JoinDefView::<T>::record_keys(
                    left_table@,
                    right_table@,
                    SqlJoinType::LeftJoin,
                    self@.level,
                    self@.dialect,
                ),
            ),
            r.wf(),
    {
        let join = JoinDef::new_record_key_both(
            left_table,
            right_table,
            SqlJoinType::LeftJoin,
            self.level,
            self.dialect,
        );
        self.push_join(join)
    }

    /// Adds a left join of the statement `left_table`, given as text, whose
    /// key is compared by `op` with the field of `right_table`.
    pub fn left_join_with_query(
        self,
        right_table: RecordKey,
        left_table: String,
        left_table_field_key: String,
        left_table_alias: String,
        op: SqlOperator,
    ) -> (r: Self)
        requires
            self.wf(),
        ensures
            r@ == self@.with_join(
                JoinDefView::<T>::joined_text(
                    right_table@,
                    SqlJoinType::LeftJoin,
                    left_table@,
                    left_table_field_key@,
                    left_table_alias@,
                    op,
                    self@.level,
                    self@.dialect,
                ),
            ),
            r.wf(),
    {
        let join = JoinDef::new_subquery_select_string(
            right_table,
            SqlJoinType::LeftJoin,
            left_table,
            left_table_field_key,
            left_table_alias,
            self.level,
            self.dialect,
        ).with_operator(op);
        self.push_join(join)
    }

    /// Adds a right join of `right_table` on the equality of the two fields.
    pub fn right_join(self, left_table: RecordKey, right_table: RecordKey) -> (r: Self)
        requires
            self.wf(),
        ensures
            r@ == self@.with_join(
                JoinDefView::<T>::record_keys(
                    left_table@,
                    right_table@,
                    SqlJoinType::RightJoin,
                    self@.level,
                    self@.dialect,
                ),
            ),
            r.wf(),
    {
        let join = JoinDef::new_record_key_both(
            left_table,
            right_table,
            SqlJoinType::RightJoin,
            self.level,
            self.dialect,
        );
        self.push_join(join)
    }

    /// Adds a right join of the statement `right_table`, given as text,
    /// whose key is compared by `op` with the field of `left_table`.
    /// Without an alias the key stands unqualified.
    pub fn right_join_with_query(
        self,
        left_table: RecordKey,
        right_table: String,
        right_table_field_key: String,
        right_table_alias: Option<String>,
        op: SqlOperator,
    ) -> (r: Self)
        requires
            self.wf(),
        ensures
            r@ == self@.with_join(
                JoinDefView::<T>::joined_text(
                    left_table@,
                    SqlJoinType::RightJoin,
                    right_table@,
                    right_table_field_key@,
                    text_or_empty(option_text(right_table_alias)),
                    op,
                    self@.level,
                    self@.dialect,
                ),
            ),
            r.wf(),
    {
        let alias = match right_table_alias {
            Some(a) => a,
            None => String::new(),
        };
        let join = JoinDef::new_subquery_select_string(
            left_table,
            SqlJoinType::RightJoin,
            right_table,
            right_table_field_key,
            alias,
            self.level,
            self.dialect,
        ).with_operator(op);
        self.push_join(join)
    }

    /// Adds an inner join of `join_on_table` on the equality of the two
    /// fields.
    pub fn inner_join(self, existing_select: RecordKey, join_on_table: RecordKey) -> (r: Self)
        requires
            self.wf(),
        ensures
            r@ == self@.with_join(
                JoinDefView::<T>::record_keys(
                    existing_select@,
                    join_on_table@,
                    SqlJoinType::InnerJoin,
                    self@.level,
                    self@.dialect,
                ),
            ),
            r.wf(),
    {
        let join = JoinDef::new_record_key_both(
            existing_select,
            join_on_table,
            SqlJoinType::InnerJoin,
            self.level,
            self.dialect,
        );
        self.push_join(join)
    }

    /// Adds an inner join of the statement `join_on_table`, given as text,
    /// whose key is compared by `op` with the field of `existing_select`.
    /// Without an alias the key stands unqualified.
    pub fn inner_join_with_query(
        self,
        existing_select: RecordKey,
        join_on_table: String,
        join_table_field_key: String,
        join_table_alias: Option<String>,
        op: SqlOperator,
    ) -> (r: Self)
        requires
            self.wf(),
        ensures
            r@ == self@.with_join(
                JoinDefView::<T>::joined_text(
                    existing_select@,
                    SqlJoinType::InnerJoin,
                    join_on_table@,
                    join_table_field_key@,
                    text_or_empty(option_text(join_table_alias)),
                    op,
                    self@.level,
                    self@.dialect,
                ),
            ),
            r.wf(),
    {
        let alias = match join_table_alias {
            Some(a) => a,
            None => String::new(),
        };
        let join = JoinDef::new_subquery_select_string(
            existing_select,
            SqlJoinType::InnerJoin,
            join_on_table,
            join_table_field_key,
            alias,
            self.level,
            self.dialect,
        ).with_operator(op);
        self.push_join(join)
    }
}

} // verus!
