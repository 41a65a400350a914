//! A selected field: a column, an aggregate over a column, or a function
//! call.

use crate::sqlbuilder::def::{
    aggregate_function_to_string, aggregate_keyword, placeholder_text, push_placeholder,
    DatabaseDialect, SqlAggregateFunction,
};
use crate::sqlbuilder::model::{count_char, option_text, text_list, FieldDefView};
use crate::sqlbuilder::writer::{push_alias_suffix, push_joined, push_qualified};
use crate::utils::strings::{join_texts, lemma_join_push};
use vstd::prelude::*;
use vstd::string::*;

verus! {

/// The kinds of a selected field.
#[derive(Debug, PartialEq, Eq, Clone, Copy, Structural)]
pub enum FieldDefMode {
    FieldRaw,
    FieldWType,
    FnStaticParameter,
    FnParameterizedValues,
}

/// One entry of a `SELECT` list.
#[derive(Debug, Clone)]
pub struct FieldDef {
    /// The name of the column; empty in a function call.
    field: String,
    /// The qualifier of the column.
    table_alias: Option<String>,
    /// The literal arguments of a function call.
    static_param_values: Vec<String>,
    /// The name of the called function; empty in a plain field.
    function_name: String,
    /// The order of the arguments of a function call: `s` for a literal, `v`
    /// for a bound value.
    parameter_format: String,
    /// The number of values offered to a function call.
    value_count: usize,
    /// Whether the name was asked to be enclosed.
    enclose_field_name: bool,
    /// The aggregate around the column.
    aggregate_fn: SqlAggregateFunction,
    /// The alias under which the field is selected.
    field_alias: Option<String>,
    /// The first bind parameter of a function call.
    start_parameter_index: u32,
    /// The first free bind parameter behind a function call.
    current_parameter_index: u32,
    /// The nesting level of the statement.
    level: u32,
    /// The kind of the field.
    mode: FieldDefMode,
    /// The dialect in which placeholders are written.
    dialect: DatabaseDialect,
}

impl FieldDefMode {
    /// The text that stands for the value.
    pub open spec fn label(self) -> Seq<char> {
        match self {
            FieldDefMode::FieldRaw => "Field"@,
            FieldDefMode::FieldWType => "Field [Strong-Typed]"@,
            FieldDefMode::FnStaticParameter => "Fn Static"@,
            FieldDefMode::FnParameterizedValues => "Fn Parameterized"@,
        }
    }

    /// The label as an owned text.
    pub fn to_string(&self) -> (r: String)
        ensures
            r@ == self.label(),
    {
        match self {
            FieldDefMode::FieldRaw => "Field".to_string(),
            FieldDefMode::FieldWType => "Field [Strong-Typed]".to_string(),
            FieldDefMode::FnStaticParameter => "Fn Static".to_string(),
            FieldDefMode::FnParameterizedValues => "Fn Parameterized".to_string(),
        }
    }
}

impl FieldDef {
    /// The model of the field.
    pub closed spec fn view(&self) -> FieldDefView {
        FieldDefView {
            field: self.field@,
            table_alias: option_text(self.table_alias),
            static_param_values: text_list(self.static_param_values@),
            function_name: self.function_name@,
            parameter_format: self.parameter_format@,
            value_count: self.value_count as nat,
            enclose_field_name: self.enclose_field_name,
            aggregate_fn: self.aggregate_fn,
            field_alias: option_text(self.field_alias),
            start_parameter_index: self.start_parameter_index,
            current_parameter_index: self.current_parameter_index,
            level: self.level,
            mode: self.mode,
            dialect: self.dialect,
        }
    }
}

/// What one more character adds to the occurrences in a prefix.
pub proof fn lemma_count_char_step(s: Seq<char>, c: char, i: int)
    requires
        0 <= i < s.len(),
    ensures
        count_char(s.take(i + 1), c) == count_char(s.take(i), c) + if s[i] == c {
            1nat
        } else {
            0nat
        },
{
    assert(s.take(i + 1).drop_last() =~= s.take(i));
    assert(s.take(i + 1).last() == s[i]);
}

impl FieldDef {
    /// A plain field.
    pub fn new_field_def(
        dialect: DatabaseDialect,
        field: String,
        table_alias: Option<String>,
        enclose_field_name: bool,
        aggregate_fn: SqlAggregateFunction,
        field_alias: Option<String>,
        level: u32,
        mode: FieldDefMode,
    ) -> (r: Self)
        ensures
            r@ == FieldDefView::plain(
                dialect,
                field@,
                option_text(table_alias),
                enclose_field_name,
                aggregate_fn,
                option_text(field_alias),
                level,
                mode,
            ),
    {
        let r = Self {
            field,
            table_alias,
            static_param_values: Vec::new(),
            function_name: String::new(),
            parameter_format: String::new(),
            value_count: 0,
            enclose_field_name,
            aggregate_fn,
            field_alias,
            start_parameter_index: 0,
            current_parameter_index: 0,
            level,
            mode,
            dialect,
        };
        assert(r@.static_param_values =~= Seq::empty());
        r
    }

    /// A function call whose arguments are all literal.
    pub fn new_static_function(
        dialect: DatabaseDialect,
        function_name: String,
        static_param_values: Vec<String>,
        level: u32,
        alias: Option<String>,
    ) -> (r: Self)
        ensures
            r@ == FieldDefView::static_call(
                dialect,
                function_name@,
                text_list(static_param_values@),
                level,
                option_text(alias),
            ),
    {
        Self {
            field: String::new(),
            table_alias: None,
            static_param_values,
            function_name,
            parameter_format: String::new(),
            value_count: 0,
            enclose_field_name: false,
            aggregate_fn: SqlAggregateFunction::NoAggregate,
            field_alias: alias,
            start_parameter_index: 0,
            current_parameter_index: 0,
            level,
            mode: FieldDefMode::FnStaticParameter,
            dialect,
        }
    }

    /// A function call with literal and bound arguments.  `value_count` is
    /// the number of values offered to the call and `param_index` the first
    /// free bind parameter; the call takes one parameter for each `v` of the
    /// format that still finds a value.
    pub fn new_dynamic_function(
        dialect: DatabaseDialect,
        function_name: String,
        parameter_format: String,
        value_count: usize,
        static_param_values: Vec<String>,
        param_index: u32,
        level: u32,
        alias: Option<String>,
    ) -> (r: Self)
        requires
            param_index + FieldDefView::call_arity(parameter_format@, value_count as nat)
                <= u32::MAX,
        ensures
            r@ == FieldDefView::dynamic_call(
                dialect,
                function_name@,
                parameter_format@,
                value_count as nat,
                text_list(static_param_values@),
                param_index,
                level,
                option_text(alias),
            ),
    {
        let current_parameter_index = Self::process_function_parameter_index(
            param_index,
            parameter_format.as_str(),
            value_count,
        );
        Self {
            field: String::new(),
            table_alias: None,
            static_param_values,
            function_name,
            parameter_format,
            value_count,
            enclose_field_name: false,
            aggregate_fn: SqlAggregateFunction::NoAggregate,
            field_alias: alias,
            start_parameter_index: param_index,
            current_parameter_index,
            level,
            mode: FieldDefMode::FnParameterizedValues,
            dialect,
        }
    }

    /// The number of values that a call with this format binds when
    /// `value_count` values are offered.
    pub fn bound_value_count(parameter_format: &str, value_count: usize) -> (r: usize)
        ensures
            r == FieldDefView::call_arity(parameter_format@, value_count as nat),
    {
        let n = parameter_format.unicode_len();
        let mut taken: usize = 0;
        let mut i: usize = 0;
        proof {
            assert(parameter_format@.take(0).len() == 0);
        }
        while i < n
            invariant
                i <= n,
                n == parameter_format@.len(),
                taken == FieldDefView::call_arity(
                    parameter_format@.take(i as int),
                    value_count as nat,
                ),
            decreases n - i,
        {
            let c = parameter_format.get_char(i);
            proof {
                lemma_count_char_step(parameter_format@, 'v', i as int);
            }
            if taken < value_count && c == 'v' {
                taken = taken + 1;
            }
            i = i + 1;
        }
        proof {
            assert(parameter_format@.take(n as int) =~= parameter_format@);
        }
        taken
    }

    /// The first free bind parameter behind a function call that starts at
    /// `current_param_index`.
    pub fn process_function_parameter_index(
        current_param_index: u32,
        parameter_format: &str,
        value_count: usize,
    ) -> (r: u32)
        requires
            current_param_index + FieldDefView::call_arity(parameter_format@, value_count as nat)
                <= u32::MAX,
        ensures
            r == current_param_index + FieldDefView::call_arity(
                parameter_format@,
                value_count as nat,
            ),
    {
        let taken = Self::bound_value_count(parameter_format, value_count);
        current_param_index + (taken as u32)
    }

    fn aggregate_function_to_string(&self, fn_type: SqlAggregateFunction) -> (r: String)
        ensures
            r@ == aggregate_keyword(fn_type),
    {
        aggregate_function_to_string(fn_type)
    }

    fn build_field(&self) -> (r: String)
        ensures
            r@ == self@.field_text(),
    {
        let mut out = String::new();
        let is_distinct = self.aggregate_fn == SqlAggregateFunction::Distinct;
        let is_plain = self.aggregate_fn == SqlAggregateFunction::NoAggregate;
        if is_distinct {
            let k = self.aggregate_function_to_string(self.aggregate_fn);
            out.append(k.as_str());
            out.append(" ");
        } else if !is_plain {
            let k = self.aggregate_function_to_string(self.aggregate_fn);
            out.append(k.as_str());
            out.append("(");
        }
        let ghost opening = out@;
        push_qualified(&mut out, &self.table_alias, &self.field);
        if !is_distinct && !is_plain {
            out.append(")");
        }
        push_alias_suffix(&mut out, &self.field_alias);
        proof {
            assert(opening =~= if is_distinct {
                aggregate_keyword(self.aggregate_fn) + " "@
            } else if !is_plain {
                aggregate_keyword(self.aggregate_fn) + "("@
            } else {
                Seq::empty()
            });
            assert(out@ =~= self@.field_text());
        }
        out
    }

    fn build_function_with_static_parameters(&self) -> (r: String)
        ensures
            r@ == self@.static_call_text(),
    {
        let mut out = self.function_name.clone();
        out.append("(");
        push_joined(&mut out, &self.static_param_values, ", ");
        out.append(")");
        push_alias_suffix(&mut out, &self.field_alias);
        out
    }

    fn build_function_with_dynamic_parameters(&self) -> (r: String)
        ensures
            r@ == self@.dynamic_call_text(),
    {
        let mut out = self.function_name.clone();
        out.append("(");
        let format = self.parameter_format.as_str();
        let n = format.unicode_len();
        let mut statics_seen: usize = 0;
        let mut values_seen: usize = 0;
        let mut written = false;
        let mut i: usize = 0;
        let ghost head = out@;
        proof {
            assert(format@.take(0).len() == 0);
            assert(join_texts(self@.call_arguments(0), ", "@) =~= Seq::<char>::empty());
            assert(out@ =~= head + Seq::<char>::empty());
        }
        while i < n
            invariant
                i <= n,
                n == format@.len(),
                format@ == self.parameter_format@,
                head == self.function_name@ + "("@,
                statics_seen <= i,
                values_seen <= i,
                statics_seen == count_char(format@.take(i as int), 's'),
                values_seen == count_char(format@.take(i as int), 'v'),
                written == (self@.call_arguments(i as nat).len() > 0),
                out@ == head + join_texts(self@.call_arguments(i as nat), ", "@),
            decreases n - i,
        {
            let c = format.get_char(i);
            let ghost earlier = self@.call_arguments(i as nat);
            proof {
                lemma_count_char_step(format@, 's', i as int);
                lemma_count_char_step(format@, 'v', i as int);
                assert(format@.take((i + 1) - 1) == format@.take(i as int));
            }
            if c == 's' {
                if statics_seen < self.static_param_values.len() {
                    if written {
                        out.append(", ");
                    }
                    out.append(self.static_param_values[statics_seen].as_str());
                    proof {
                        let part = self@.static_param_values[statics_seen as int];
                        assert(part == self.static_param_values@[statics_seen as int]@);
                        assert(self@.call_arguments((i + 1) as nat) == earlier.push(part));
                        lemma_join_push(earlier, ", "@, part);
                        if written {
                            assert(out@ =~= head + (join_texts(earlier, ", "@) + ", "@ + part));
                        } else {
                            assert(join_texts(earlier, ", "@) =~= Seq::<char>::empty());
                            assert(out@ =~= head + part);
                        }
                    }
                    written = true;
                }
                statics_seen = statics_seen + 1;
            } else if c == 'v' {
                if values_seen < self.value_count {
                    if written {
                        out.append(", ");
                    }
                    push_placeholder(
                        &mut out,
                        self.dialect,
                        self.start_parameter_index as u128 + values_seen as u128,
                    );
                    proof {
                        let part = placeholder_text(
                            self.dialect,
                            (self.start_parameter_index + values_seen) as nat,
                        );
                        assert(self@.call_arguments((i + 1) as nat) == earlier.push(part));
                        lemma_join_push(earlier, ", "@, part);
                        if written {
                            assert(out@ =~= head + (join_texts(earlier, ", "@) + ", "@ + part));
                        } else {
                            assert(join_texts(earlier, ", "@) =~= Seq::<char>::empty());
                            assert(out@ =~= head + part);
                        }
                    }
                    written = true;
                }
                values_seen = values_seen + 1;
            }
            i = i + 1;
        }
        out.append(")");
        push_alias_suffix(&mut out, &self.field_alias);
        out
    }

    /// The kind of the field.
    pub fn mode(&self) -> (r: FieldDefMode)
        ensures
            r == self@.mode,
    {
        self.mode
    }

    /// The first free bind parameter behind the field.
    pub fn get_current_parameter_index(&self) -> (r: u32)
        ensures
            r == self@.current_parameter_index,
    {
        self.current_parameter_index
    }

    /// The name of the column.
    pub fn field(&self) -> (r: &String)
        ensures
            r@ == self@.field,
    {
        &self.field
    }

    /// The qualifier of the column.
    pub fn table_alias(&self) -> (r: &Option<String>)
        ensures
            option_text(*r) == self@.table_alias,
    {
        &self.table_alias
    }

    /// The alias under which the field is selected.
    pub fn field_alias(&self) -> (r: &Option<String>)
        ensures
            option_text(*r) == self@.field_alias,
    {
        &self.field_alias
    }

    /// Whether the name was asked to be enclosed.
    pub fn enclose_field_name(&self) -> (r: bool)
        ensures
            r == self@.enclose_field_name,
    {
        self.enclose_field_name
    }

    /// The aggregate around the column.
    pub fn aggregate_function(&self) -> (r: SqlAggregateFunction)
        ensures
            r == self@.aggregate_fn,
    {
        self.aggregate_fn
    }

    /// The name of the called function.
    pub fn function_name(&self) -> (r: &String)
        ensures
            r@ == self@.function_name,
    {
        &self.function_name
    }

    /// The literal arguments of the call.
    pub fn static_parameter_values(&self) -> (r: &Vec<String>)
        ensures
            text_list(r@) == self@.static_param_values,
    {
        &self.static_param_values
    }

    /// The text of the field in a `SELECT` list.
    pub fn generate_query(&self) -> (r: String)
        ensures
            r@ == self@.query_text(),
    {
        match self.mode {
            FieldDefMode::FieldRaw => self.build_field(),
            FieldDefMode::FieldWType => self.build_field(),
            FieldDefMode::FnStaticParameter => self.build_function_with_static_parameters(),
            FieldDefMode::FnParameterizedValues => self.build_function_with_dynamic_parameters(),
        }
    }
}

/// The models of a list of fields.
pub open spec fn field_views(v: Seq<FieldDef>) -> Seq<FieldDefView> {
    Seq::new(v.len(), |k: int| v[k]@)
}

} // verus!
