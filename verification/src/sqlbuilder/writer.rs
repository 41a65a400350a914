//! Small writers that the renderers share.

use crate::sqlbuilder::model::{alias_suffix, name_suffix, option_text, qualified_text, text_list};
use crate::utils::strings::{join_texts, lemma_join_bounds, lemma_join_step};
use vstd::prelude::*;
use vstd::string::*;

verus! {

/// Appends ` AS ` and the alias, where there is one.
pub(crate) fn push_alias_suffix(out: &mut String, alias: &Option<String>)
    ensures
        final(out)@ == old(out)@ + alias_suffix(option_text(*alias)),
{
    match alias {
        Some(a) => {
            out.append(" AS ");
            out.append(a.as_str());
            assert(out@ =~= old(out)@ + (" AS "@ + a@));
        },
        None => {
            assert(out@ =~= old(out)@ + Seq::<char>::empty());
        },
    }
}

/// Appends ` AS ` and the alias, unless the alias is empty.
pub(crate) fn push_name_suffix(out: &mut String, alias: &str)
    ensures
        final(out)@ == old(out)@ + name_suffix(alias@),
{
    if alias.is_empty() {
        assert(out@ =~= old(out)@ + Seq::<char>::empty());
    } else {
        out.append(" AS ");
        out.append(alias);
        assert(out@ =~= old(out)@ + (" AS "@ + alias@));
    }
}

/// Appends the field name behind its qualifier, where there is one.
pub(crate) fn push_qualified(out: &mut String, table_alias: &Option<String>, field_name: &String)
    ensures
        final(out)@ == old(out)@ + qualified_text(option_text(*table_alias), field_name@),
{
    match table_alias {
        Some(a) => {
            out.append(a.as_str());
            out.append(".");
            out.append(field_name.as_str());
            assert(out@ =~= old(out)@ + (a@ + "."@ + field_name@));
        },
        None => {
            out.append(field_name.as_str());
        },
    }
}

/// A copy of an optional text.
pub(crate) fn clone_optional_text(text: &Option<String>) -> (r: Option<String>)
    ensures
        option_text(r) == option_text(*text),
{
    match text {
        Some(t) => Some(t.clone()),
        None => None,
    }
}

/// Appends part `i` of a joined text to `out`, which holds the parts before
/// it behind `head`: first the separator, unless the part is the first.
pub(crate) fn push_part(
    out: &mut String,
    head: Ghost<Seq<char>>,
    texts: Ghost<Seq<Seq<char>>>,
    i: usize,
    sep: &str,
    part: &str,
)
    requires
        i < texts@.len(),
        part@ == texts@[i as int],
        old(out)@ == head@ + join_texts(texts@.take(i as int), sep@),
    ensures
        final(out)@ == head@ + join_texts(texts@.take(i + 1), sep@),
{
    if i > 0 {
        out.append(sep);
    }
    out.append(part);
    proof {
        lemma_join_step(texts@, sep@, i as int);
        if i > 0 {
            assert(out@ =~= head@ + (join_texts(texts@.take(i as int), sep@) + sep@ + part@));
        } else {
            assert(join_texts(texts@.take(0), sep@) =~= Seq::<char>::empty());
            assert(out@ =~= head@ + part@);
        }
    }
}

/// What a joined text is before its first part and behind its last.
pub(crate) proof fn lemma_parts_bounds(head: Seq<char>, texts: Seq<Seq<char>>, sep: Seq<char>)
    ensures
        head == head + join_texts(texts.take(0), sep),
        join_texts(texts.take(texts.len() as int), sep) == join_texts(texts, sep),
{
    lemma_join_bounds(texts, sep);
    assert(head =~= head + Seq::<char>::empty());
}

/// Appends the texts of `parts`, with `sep` between neighbours.
pub(crate) fn push_joined(out: &mut String, parts: &Vec<String>, sep: &str)
    ensures
        final(out)@ == old(out)@ + join_texts(text_list(parts@), sep@),
{
    let ghost texts = text_list(parts@);
    let ghost head = out@;
    let mut i: usize = 0;
    proof {
        lemma_parts_bounds(head, texts, sep@);
    }
    while i < parts.len()
        invariant
            i <= parts.len(),
            texts == text_list(parts@),
            out@ == head + join_texts(texts.take(i as int), sep@),
        decreases parts.len() - i,
    {
        push_part(out, Ghost(head), Ghost(texts), i, sep, parts[i].as_str());
        i = i + 1;
    }
    proof {
        lemma_parts_bounds(head, texts, sep@);
    }
}

} // verus!
