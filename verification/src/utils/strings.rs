//! Text helpers shared by every renderer: decimal numbers, indentation and
//! joining of already rendered parts.

use vstd::prelude::*;
use vstd::string::*;

verus! {

/// `String::push` of the standard library: the character is appended to the
/// text and nothing else changes.
pub assume_specification[ String::push ](s: &mut String, c: char)
    ensures
        final(s)@ == old(s)@.push(c),
;

/// The character that writes the decimal digit `d`.
pub open spec fn digit_char(d: nat) -> char {
    if d == 0 {
        '0'
    } else if d == 1 {
        '1'
    } else if d == 2 {
        '2'
    } else if d == 3 {
        '3'
    } else if d == 4 {
        '4'
    } else if d == 5 {
        '5'
    } else if d == 6 {
        '6'
    } else if d == 7 {
        '7'
    } else if d == 8 {
        '8'
    } else {
        '9'
    }
}

/// The decimal notation of `n`, without sign or leading zeros.
pub open spec fn decimal_text(n: nat) -> Seq<char>
    decreases n,
{
    if n < 10 {
        seq![digit_char(n)]
    } else {
        decimal_text(n / 10).push(digit_char(n % 10))
    }
}

/// `count` copies of `c`.
pub open spec fn repeat_char(c: char, count: nat) -> Seq<char> {
    Seq::new(count, |i: int| c)
}

/// The indentation of nesting level `level`: two spaces per level.
pub open spec fn indent_text(level: nat) -> Seq<char> {
    repeat_char(' ', 2 * level)
}

/// The parts one after another, with `sep` between neighbours.
pub open spec fn join_texts(parts: Seq<Seq<char>>, sep: Seq<char>) -> Seq<char>
    decreases parts.len(),
{
    if parts.len() == 0 {
        Seq::empty()
    } else if parts.len() == 1 {
        parts[0]
    } else {
        join_texts(parts.drop_last(), sep) + sep + parts.last()
    }
}

/// The parts one after another.
pub open spec fn concat_texts(parts: Seq<Seq<char>>) -> Seq<char> {
    join_texts(parts, Seq::empty())
}

/// What one more part adds to a joined prefix.
pub proof fn lemma_join_step(parts: Seq<Seq<char>>, sep: Seq<char>, i: int)
    requires
        0 <= i < parts.len(),
    ensures
        join_texts(parts.take(i + 1), sep) == if i == 0 {
            parts[i]
        } else {
            join_texts(parts.take(i), sep) + sep + parts[i]
        },
{
    let p = parts.take(i + 1);
    assert(p.last() == parts[i]);
    assert(p.drop_last() =~= parts.take(i));
    if i == 0 {
        assert(p[0] == parts[0]);
    }
}

/// What a part pushed at the end adds to the joined text.
pub proof fn lemma_join_push(parts: Seq<Seq<char>>, sep: Seq<char>, part: Seq<char>)
    ensures
        join_texts(parts.push(part), sep) == if parts.len() == 0 {
            part
        } else {
            join_texts(parts, sep) + sep + part
        },
{
    let p = parts.push(part);
    assert(p.last() == part);
    assert(p.drop_last() =~= parts);
    if parts.len() == 0 {
        assert(p[0] == part);
    }
}

/// Joining no parts gives the empty text, and a prefix that is the whole
/// sequence joins to the whole.
pub proof fn lemma_join_bounds(parts: Seq<Seq<char>>, sep: Seq<char>)
    ensures
        join_texts(parts.take(0), sep) == Seq::<char>::empty(),
        join_texts(parts.take(parts.len() as int), sep) == join_texts(parts, sep),
{
    assert(parts.take(0).len() == 0);
    assert(parts.take(parts.len() as int) =~= parts);
}

fn digit(d: u128) -> (c: char)
    requires
        d < 10,
    ensures
        c == digit_char(d as nat),
{
    let b: u8 = 48u8 + (d as u8);
    b as char
}

/// Appends the decimal notation of `n` to `out`.
pub fn push_decimal(out: &mut String, n: u128)
    ensures
        final(out)@ == old(out)@ + decimal_text(n as nat),
    decreases n,
{
    if n >= 10 {
        push_decimal(out, n / 10);
    }
    out.push(digit(n % 10));
}

/// Appends `count` copies of `c` to `out`.
pub fn push_repeated(out: &mut String, c: char, count: u64)
    ensures
        final(out)@ == old(out)@ + repeat_char(c, count as nat),
{
    let mut i: u64 = 0;
    while i < count
        invariant
            i <= count,
            out@ == old(out)@ + repeat_char(c, i as nat),
        decreases count - i,
    {
        out.push(c);
        i = i + 1;
        assert(out@ =~= old(out)@ + repeat_char(c, i as nat));
    }
}

/// Appends the indentation of `level` to `out`.
pub fn push_indent(out: &mut String, level: u64)
    requires
        level <= 0x7FFF_FFFF_FFFF_FFFF,
    ensures
        final(out)@ == old(out)@ + indent_text(level as nat),
{
    push_repeated(out, ' ', 2 * level);
}

/// The indentation of nesting level `level` as a text of its own.
pub fn indent_space(level: u32) -> (r: String)
    ensures
        r@ == indent_text(level as nat),
{
    let mut out = String::new();
    push_indent(&mut out, level as u64);
    out
}

} // verus!
