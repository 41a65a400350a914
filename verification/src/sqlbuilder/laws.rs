//! What holds of the numbering of bind parameters and of the rendering,
//! whatever is built.

use crate::sqlbuilder::def::{placeholder_text, DatabaseDialect, SqlOperator};
use crate::sqlbuilder::model::{
    arity_accepted, comparator_arity, in_range, placeholder_list, ConditionView, FieldDefView,
    FromTableStatementView, NvSelectView, WhereStatementView,
};
use crate::sqlbuilder::nv_select::NvSelect;
use crate::sqlbuilder::protocol::{
    lemma_bind_wf, lemma_conditions_uses_push, lemma_fresh_wf, lemma_from_enter_subquery_wf,
    lemma_leave_from_wf, lemma_leave_where_wf, lemma_open_where_wf, lemma_where_enter_subquery_wf,
    lemma_with_call_wf,
};
use crate::utils::strings::join_texts;
use vstd::prelude::*;

verus! {

/// One value-binding condition: a comparator on a field, with its values.
pub struct Binding<T> {
    /// The compared field.
    pub field_name: Seq<char>,
    /// The comparator.
    pub op: SqlOperator,
    /// The values to bind, in order.
    pub values: Seq<T>,
}

/// The clause after the conditions of `bindings` were added to it in order.
pub open spec fn bind_all<T>(
    w: WhereStatementView<T>,
    bindings: Seq<Binding<T>>,
) -> WhereStatementView<T>
    decreases bindings.len(),
{
    if bindings.len() == 0 {
        w
    } else {
        bind_all(w, bindings.drop_last()).bind(
            bindings.last().field_name,
            bindings.last().op,
            bindings.last().values,
        )
    }
}

/// The number of bind parameters that the conditions of `bindings` take
/// together.
pub open spec fn total_arity<T>(bindings: Seq<Binding<T>>) -> nat
    decreases bindings.len(),
{
    if bindings.len() == 0 {
        0
    } else {
        total_arity(bindings.drop_last()) + comparator_arity(
            bindings.last().op,
            bindings.last().values.len(),
        )
    }
}

/// Every condition of `bindings` has a number of values that its comparator
/// accepts.
pub open spec fn all_accepted<T>(bindings: Seq<Binding<T>>) -> bool {
    forall|k: int|
        0 <= k < bindings.len() ==> arity_accepted(
            (#[trigger] bindings[k]).op,
            bindings[k].values.len(),
        )
}

/// Adding any sequence of value-binding conditions to a well-formed clause
/// advances the counter by the sum of their arities, lengthens the list of
/// bound values by the same number, adds one fragment for each, and leaves
/// the clause well formed.
pub proof fn lemma_bindings_advance_counter<T>(w: WhereStatementView<T>, bindings: Seq<Binding<T>>)
    requires
        w.wf(),
        all_accepted(bindings),
        w.current_param_index + total_arity(bindings) <= u32::MAX,
    ensures
        bind_all(w, bindings).wf(),
        bind_all(w, bindings).current_param_index == w.current_param_index + total_arity(
            bindings,
        ),
        bind_all(w, bindings).parameter_values.len() == w.parameter_values.len() + total_arity(
            bindings,
        ),
        bind_all(w, bindings).conditions.len() == w.conditions.len() + bindings.len(),
        bind_all(w, bindings).base_param_index == w.base_param_index,
    decreases bindings.len(),
{
    if bindings.len() > 0 {
        let earlier = bindings.drop_last();
        let last = bindings.last();
        assert(all_accepted(earlier)) by {
            assert forall|k: int| 0 <= k < earlier.len() implies arity_accepted(
                (#[trigger] earlier[k]).op,
                earlier[k].values.len(),
            ) by {
                assert(earlier[k] == bindings[k]);
            }
        }
        lemma_bindings_advance_counter(w, earlier);
        lemma_bind_wf(bind_all(w, earlier), last.field_name, last.op, last.values);
    }
}

/// In a statement that counts from 1, after any sequence of value-binding
/// conditions the counter stands at 1 plus the sum of their arities, and
/// the list of bound values has one element less than the counter says.
pub proof fn lemma_counter_from_one<T>(dialect: DatabaseDialect, bindings: Seq<Binding<T>>)
    requires
        all_accepted(bindings),
        1 + total_arity(bindings) <= u32::MAX,
    ensures
        ({
            let start = NvSelectView::<T>::fresh(dialect, 1, 1, Seq::empty(), 0, Seq::empty());
            let end = bind_all(start.open_where(), bindings);
            &&& end.current_param_index == 1 + total_arity(bindings)
            &&& end.parameter_values.len() == end.current_param_index - 1
            &&& end.close().current_param_index == 1 + total_arity(bindings)
            &&& end.close().parameter_values.len() == total_arity(bindings)
        }),
{
    let start = NvSelectView::<T>::fresh(dialect, 1, 1, Seq::empty(), 0, Seq::empty());
    lemma_fresh_wf::<T>(dialect, 1, 1, Seq::empty(), 0, Seq::empty());
    lemma_open_where_wf(start);
    lemma_bindings_advance_counter(start.open_where(), bindings);
}

/// A well-formed statement at hand holds exactly one bound value for each
/// bind parameter from its base index up to its counter, and writes each
/// bind parameter from its own first index up to the counter exactly once.
pub proof fn lemma_values_match_counter<T>(s: NvSelectView<T>, i: int)
    requires
        s.wf(),
    ensures
        s.parameter_values.len() == s.current_param_index - s.base_param_index,
        s.first_param_index <= i < s.current_param_index ==> s.uses(i) == 1,
        !(s.first_param_index <= i < s.current_param_index) ==> s.uses(i) == 0,
{
    assert(s.uses(i) == in_range(
        s.first_param_index as int,
        s.current_param_index as int,
        i,
    ));
}

/// The value that a list of bound values, whose first element belongs to
/// bind parameter `base`, holds for bind parameter `index`.
pub open spec fn value_of<T>(values: Seq<T>, base: u32, index: int) -> T
    recommends
        base <= index < base + values.len(),
{
    values[index - base]
}

/// A comparator starts at the counter, and its values become the values of
/// the bind parameters from there on, in their order; the values of all
/// earlier bind parameters stay what they were, and the counter does not
/// fall.
pub proof fn lemma_bind_places_values<T>(
    w: WhereStatementView<T>,
    field_name: Seq<char>,
    op: SqlOperator,
    values: Seq<T>,
    index: int,
)
    requires
        w.wf(),
        arity_accepted(op, values.len()),
        w.current_param_index + values.len() <= u32::MAX,
    ensures
        ({
            let r = w.bind(field_name, op, values);
            &&& r.base_param_index == w.base_param_index
            &&& r.current_param_index == w.current_param_index + values.len()
            &&& r.conditions.last().start_index == w.current_param_index
            &&& r.conditions.last().arity() == values.len()
            &&& w.base_param_index <= index < w.current_param_index ==> value_of(
                r.parameter_values,
                r.base_param_index,
                index,
            ) == value_of(w.parameter_values, w.base_param_index, index)
            &&& w.current_param_index <= index < r.current_param_index ==> value_of(
                r.parameter_values,
                r.base_param_index,
                index,
            ) == values[index - w.current_param_index]
        }),
{
}

/// A function call starts at the counter, and the values that it binds
/// become the values of the bind parameters from there on, in their order;
/// the values of all earlier bind parameters stay what they were, and the
/// counter does not fall.
pub proof fn lemma_call_places_values<T>(
    s: NvSelectView<T>,
    f: FieldDefView,
    bound: Seq<T>,
    index: int,
)
    requires
        s.wf(),
        f.start_parameter_index == s.current_param_index,
        f.current_parameter_index == f.start_parameter_index + f.arity(),
        bound.len() == f.arity(),
        f.dialect == s.dialect,
    ensures
        ({
            let r = s.with_call(f, bound);
            &&& r.wf()
            &&& r.base_param_index == s.base_param_index
            &&& r.current_param_index == s.current_param_index + bound.len()
            &&& s.base_param_index <= index < s.current_param_index ==> value_of(
                r.parameter_values,
                r.base_param_index,
                index,
            ) == value_of(s.parameter_values, s.base_param_index, index)
            &&& s.current_param_index <= index < r.current_param_index ==> value_of(
                r.parameter_values,
                r.base_param_index,
                index,
            ) == bound[index - s.current_param_index]
        }),
{
    lemma_with_call_wf(s, f, bound);
}

/// Turning to a clause, closing it, entering a nested statement and leaving
/// it hand the counter, the base index and the list of bound values on as
/// they are.
pub proof fn lemma_moves_keep_counter_and_values<T>(
    s: NvSelectView<T>,
    w: WhereStatementView<T>,
    f: FromTableStatementView<T>,
    field_name: Seq<char>,
    op: SqlOperator,
    name: Seq<char>,
)
    ensures
        s.open_where().current_param_index == s.current_param_index,
        s.open_where().base_param_index == s.base_param_index,
        s.open_where().parameter_values == s.parameter_values,
        s.open_from().current_parameter_index == s.current_param_index,
        s.open_from().base_parameter_index == s.base_param_index,
        s.open_from().parameter_values == s.parameter_values,
        w.close().current_param_index == w.current_param_index,
        w.close().parameter_values == w.parameter_values,
        w.parent is Some && w.wf() ==> w.close().base_param_index == w.base_param_index,
        f.close().current_param_index == f.current_parameter_index,
        f.close().parameter_values == f.parameter_values,
        f.parent is Some && f.wf() ==> f.close().base_param_index == f.base_parameter_index,
        w.enter_subquery(field_name, op, name).current_param_index == w.current_param_index,
        w.enter_subquery(field_name, op, name).base_param_index == w.base_param_index,
        w.enter_subquery(field_name, op, name).parameter_values == w.parameter_values,
        f.enter_subquery(name).current_param_index == f.current_parameter_index,
        f.enter_subquery(name).base_param_index == f.base_parameter_index,
        f.enter_subquery(name).parameter_values == f.parameter_values,
        s.leave_where().current_param_index == s.current_param_index,
        s.leave_where().parameter_values == s.parameter_values,
        s.subquery_where_parent is Some && s.wf() ==> s.leave_where().base_param_index
            == s.base_param_index,
        s.leave_from().current_parameter_index == s.current_param_index,
        s.leave_from().parameter_values == s.parameter_values,
        s.subquery_from_parent is Some && s.wf() ==> s.leave_from().base_parameter_index
            == s.base_param_index,
{
    if s.subquery_where_parent is Some && s.wf() {
        assert(s.context_ok());
    }
    if s.subquery_from_parent is Some && s.wf() {
        assert(s.context_ok());
    }
}

/// Entering a nested statement from a `WHERE` clause binds nothing and
/// changes nothing that was there.  The new statement starts empty at the
/// clause's counter, deeper than the clause, under the given name and in the
/// clause's dialect, and takes the list of bound values as it is.  The
/// clause that waits for it keeps its fragments, their indices and their
/// texts, its counter and its own parent, and has one more fragment: the
/// comparison that the statement will fill when it is closed.
pub proof fn lemma_entering_where_subquery<T>(
    w: WhereStatementView<T>,
    field_name: Seq<char>,
    op: SqlOperator,
    subquery_name: Seq<char>,
    k: int,
    i: int,
    pretty: bool,
)
    requires
        w.wf(),
        w.level + 4 <= u32::MAX,
    ensures
        ({
            let n = w.enter_subquery(field_name, op, subquery_name);
            let waiting = *n.subquery_where_parent->0;
            &&& n.wf()
            &&& n.subquery_where_parent is Some
            &&& n.current_param_index == w.current_param_index
            &&& n.first_param_index == w.current_param_index
            &&& n.base_param_index == w.base_param_index
            &&& n.parameter_values == w.parameter_values
            &&& n.level == w.level + 2
            &&& n.level > w.level
            &&& n.table_alias == subquery_name
            &&& n.dialect == w.dialect
            &&& n.fields.len() == 0
            &&& n.uses(i) == 0
            &&& waiting.current_param_index == w.current_param_index
            &&& waiting.parent == w.parent
            &&& waiting.dialect == w.dialect
            &&& waiting.conditions.len() == w.conditions.len() + 1
            &&& waiting.conditions.take(w.conditions.len() as int) == w.conditions
            &&& 0 <= k < w.conditions.len() ==> {
                &&& waiting.conditions[k] == w.conditions[k]
                &&& waiting.conditions[k].start_index == w.conditions[k].start_index
                &&& waiting.conditions[k].query_text(pretty) == w.conditions[k].query_text(pretty)
            }
            &&& waiting.conditions.last() == ConditionView::<T>::open_subquery(
                field_name,
                subquery_name,
                op,
                w.current_param_index,
                (w.level + 1) as u32,
                w.dialect,
            )
            &&& waiting.conditions.last().uses(i) == 0
            &&& waiting.uses(i) == w.uses(i)
        }),
{
    let n = w.enter_subquery(field_name, op, subquery_name);
    let waiting = *n.subquery_where_parent->0;
    lemma_where_enter_subquery_wf(w, field_name, op, subquery_name);
    assert(waiting.conditions.take(w.conditions.len() as int) =~= w.conditions);
    lemma_conditions_uses_push(w.conditions, waiting.conditions.last(), i);
    assert(n.from_uses(i) == 0);
    assert(n.where_uses(i) == 0);
}

/// Entering a nested statement from a `FROM` clause binds nothing and
/// changes nothing that was there.  The new statement starts empty at the
/// clause's counter, one level deeper than the clause, under the given name
/// and in the clause's dialect, and takes the list of bound values as it
/// is.  The clause that waits for it keeps its entries, its counter and its
/// own parent; the statement becomes its last entry when it is closed.
pub proof fn lemma_entering_from_subquery<T>(
    f: FromTableStatementView<T>,
    table_alias: Seq<char>,
    i: int,
)
    requires
        f.wf(),
        f.level + 3 <= u32::MAX,
    ensures
        ({
            let n = f.enter_subquery(table_alias);
            let waiting = *n.subquery_from_parent->0;
            &&& n.wf()
            &&& n.subquery_from_parent is Some
            &&& n.current_param_index == f.current_parameter_index
            &&& n.first_param_index == f.current_parameter_index
            &&& n.base_param_index == f.base_parameter_index
            &&& n.parameter_values == f.parameter_values
            &&& n.level == f.level + 1
            &&& n.table_alias == table_alias
            &&& n.dialect == f.dialect
            &&& n.fields.len() == 0
            &&& n.uses(i) == 0
            &&& waiting.current_parameter_index == f.current_parameter_index
            &&& waiting.parent == f.parent
            &&& waiting.dialect == f.dialect
            &&& waiting.entries == f.entries
            &&& waiting.uses(i) == f.uses(i)
        }),
{
    let n = f.enter_subquery(table_alias);
    lemma_from_enter_subquery_wf(f, table_alias);
    assert(n.from_uses(i) == 0);
    assert(n.where_uses(i) == 0);
}

/// A well-formed tree is of one dialect: the statement at hand, its fields,
/// its clauses and all that is nested in them, and the clause that waits
/// for it; and likewise a clause at hand with the statement that waits for
/// it.
pub proof fn lemma_one_dialect<T>(
    s: NvSelectView<T>,
    w: WhereStatementView<T>,
    f: FromTableStatementView<T>,
)
    ensures
        s.wf() ==> s.speaks(s.dialect),
        s.wf() && s.subquery_where_parent is Some ==> s.subquery_where_parent->0.dialect
            == s.dialect && s.subquery_where_parent->0.speaks(s.dialect),
        s.wf() && s.subquery_from_parent is Some ==> s.subquery_from_parent->0.dialect
            == s.dialect && s.subquery_from_parent->0.speaks(s.dialect),
        w.wf() ==> w.speaks(w.dialect),
        w.wf() && w.parent is Some ==> w.parent->0.speaks(w.dialect),
        f.wf() ==> f.speaks(f.dialect),
        f.wf() && f.parent is Some ==> f.parent->0.speaks(f.dialect),
{
    if s.wf() {
        assert(s.context_ok());
        if s.subquery_where_parent is Some {
            assert(s.subquery_where_parent->0.frame_ok());
        }
        if s.subquery_from_parent is Some {
            assert(s.subquery_from_parent->0.frame_ok());
        }
    }
    if w.wf() && w.parent is Some {
        assert(w.parent->0.context_ok());
    }
    if f.wf() && f.parent is Some {
        assert(f.parent->0.context_ok());
    }
}

/// Entering a nested statement from a `WHERE` clause and leaving it again,
/// whatever was built in between, keeps every fragment that the clause had,
/// and with it every index that was given out before.  Each index written
/// inside the nested statement is greater than the last index given out
/// before the statement was entered, and at most the last index given out
/// when the clause goes on; that is, it lies at or behind the counter at
/// which the statement was entered and before the counter with which the
/// clause goes on.
pub proof fn lemma_where_subquery_keeps_parent<T>(
    w: WhereStatementView<T>,
    field_name: Seq<char>,
    op: SqlOperator,
    subquery_name: Seq<char>,
    s: NvSelectView<T>,
    i: int,
)
    requires
        w.wf(),
        w.level + 4 <= u32::MAX,
        s.wf(),
        s.subquery_where_parent == w.enter_subquery(
            field_name,
            op,
            subquery_name,
        ).subquery_where_parent,
    ensures
        s.leave_where().wf(),
        s.leave_where().conditions.len() == w.conditions.len() + 1,
        s.leave_where().conditions.take(w.conditions.len() as int) == w.conditions,
        s.leave_where().parent == w.parent,
        w.current_param_index <= s.leave_where().current_param_index,
        s.leave_where().conditions.last().uses(i) == s.uses(i),
        s.uses(i) > 0 ==> w.current_param_index <= i < s.leave_where().current_param_index,
        s.uses(i) > 0 ==> w.current_param_index - 1 < i <= s.leave_where().current_param_index
            - 1,
{
    let r = s.leave_where();
    lemma_leave_where_wf(s);
    assert(s.context_ok());
    assert(r.conditions.take(w.conditions.len() as int) =~= w.conditions);
    assert(s.uses(i) == in_range(
        s.first_param_index as int,
        s.current_param_index as int,
        i,
    ));
    assert(s.detached().from_uses(i) == s.from_uses(i));
    assert(s.detached().where_uses(i) == s.where_uses(i));
    assert(s.detached().uses(i) == s.uses(i));
}

/// Entering a nested statement from a `FROM` clause and leaving it again,
/// whatever was built in between, keeps every entry that the clause had.
/// Each index written inside the nested statement is greater than the last
/// index given out before the statement was entered, and at most the last
/// index given out when the clause goes on.
pub proof fn lemma_from_subquery_keeps_parent<T>(
    f: FromTableStatementView<T>,
    table_alias: Seq<char>,
    s: NvSelectView<T>,
    i: int,
)
    requires
        f.wf(),
        f.level + 3 <= u32::MAX,
        s.wf(),
        s.subquery_from_parent == f.enter_subquery(table_alias).subquery_from_parent,
    ensures
        s.leave_from().wf(),
        s.leave_from().entries.len() == f.entries.len() + 1,
        s.leave_from().entries.take(f.entries.len() as int) == f.entries,
        s.leave_from().parent == f.parent,
        f.current_parameter_index <= s.leave_from().current_parameter_index,
        s.leave_from().entries.last().uses(i) == s.uses(i),
        s.uses(i) > 0 ==> f.current_parameter_index <= i
            < s.leave_from().current_parameter_index,
        s.uses(i) > 0 ==> f.current_parameter_index - 1 < i
            <= s.leave_from().current_parameter_index - 1,
{
    let r = s.leave_from();
    lemma_leave_from_wf(s);
    assert(s.context_ok());
    assert(r.entries.take(f.entries.len() as int) =~= f.entries);
    assert(s.uses(i) == in_range(
        s.first_param_index as int,
        s.current_param_index as int,
        i,
    ));
    assert(s.detached().from_uses(i) == s.from_uses(i));
    assert(s.detached().where_uses(i) == s.where_uses(i));
    assert(s.detached().uses(i) == s.uses(i));
}

/// `IN` without values writes the field and an empty list, and takes no
/// bind parameter.
pub proof fn lemma_in_without_values<T>(
    field_name: Seq<char>,
    start: u32,
    level: u32,
    dialect: DatabaseDialect,
    pretty: bool,
    i: int,
)
    ensures
        ({
            let c = ConditionView::<T>::comparator(
                field_name,
                SqlOperator::In,
                0,
                start,
                level,
                dialect,
            );
            &&& c.query_text(pretty) == field_name + " IN ("@ + ")"@
            &&& c.arity() == 0
            &&& c.param_index == start
            &&& c.uses(i) == 0
        }),
{
    let c = ConditionView::<T>::comparator(field_name, SqlOperator::In, 0, start, level, dialect);
    let parts = placeholder_list(dialect, start as nat, 0);
    assert(join_texts(parts, ", "@) =~= Seq::<char>::empty());
    assert(field_name + " IN ("@ + Seq::<char>::empty() + ")"@ =~= field_name + " IN ("@ + ")"@);
}

/// `BETWEEN` writes the field, the keyword, the placeholder of its first
/// bind parameter, `AND`, and the placeholder of the next; it takes these
/// two bind parameters and no other.
pub proof fn lemma_between_takes_two<T>(
    field_name: Seq<char>,
    start: u32,
    level: u32,
    dialect: DatabaseDialect,
    pretty: bool,
    i: int,
)
    requires
        start + 2 <= u32::MAX,
    ensures
        ({
            let c = ConditionView::<T>::comparator(
                field_name,
                SqlOperator::Between,
                2,
                start,
                level,
                dialect,
            );
            &&& c.query_text(pretty) == field_name + " BETWEEN "@ + placeholder_text(
                dialect,
                start as nat,
            ) + " AND "@ + placeholder_text(dialect, (start + 1) as nat)
            &&& c.arity() == 2
            &&& c.param_index == start + 2
            &&& c.uses(i) == if i == start || i == start + 1 {
                1nat
            } else {
                0nat
            }
        }),
{
}

/// Rendering is repeatable: two statements with the same model, and so one
/// statement rendered twice, give the same text for the same form.
pub proof fn lemma_rendering_is_repeatable<T>(
    a: NvSelect<T>,
    b: NvSelect<T>,
    pretty: bool,
    first: String,
    second: String,
)
    requires
        a@ == b@,
        first@ == a@.query_text(pretty),
        second@ == b@.query_text(pretty),
    ensures
        first@ == second@,
{
}

} // verus!
