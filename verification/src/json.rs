use vstd::prelude::*;
use vstd::string::StrSliceExecFns;

verus! {

/// Relies on String::push: appends exactly one character at the end.
#[verifier::external_body]
pub(crate) fn push_char(s: &mut String, c: char)
    ensures
        final(s)@ == old(s)@.push(c),
{
    s.push(c);
}

/// The lower-case hexadecimal digit for a value below sixteen.
pub open spec fn hex_digit(d: nat) -> char {
    if d == 0 { '0' } else if d == 1 { '1' } else if d == 2 { '2' } else if d == 3 { '3' }
    else if d == 4 { '4' } else if d == 5 { '5' } else if d == 6 { '6' } else if d == 7 { '7' }
    else if d == 8 { '8' } else if d == 9 { '9' } else if d == 10 { 'a' } else if d == 11 { 'b' }
    else if d == 12 { 'c' } else if d == 13 { 'd' } else if d == 14 { 'e' } else { 'f' }
}

/// The decimal digit for a value below ten.
pub open spec fn digit_char(d: nat) -> char {
    hex_digit(if d < 10 { d } else { 9 })
}

/// The decimal numeral of a natural number, without sign or padding.
pub open spec fn dec_nat(n: nat) -> Seq<char>
    decreases n,
{
    if n < 10 {
        seq![digit_char(n)]
    } else {
        dec_nat(n / 10) + seq![digit_char(n % 10)]
    }
}

/// The decimal numeral of an integer: a minus sign before the magnitude for
/// a negative value.
pub open spec fn dec_int(v: int) -> Seq<char> {
    if v < 0 {
        seq!['-'] + dec_nat((-v) as nat)
    } else {
        dec_nat(v as nat)
    }
}

fn digit_of(d: u32) -> (c: char)
    requires
        d < 10,
    ensures
        c == digit_char(d as nat),
{
    if d == 0 { '0' } else if d == 1 { '1' } else if d == 2 { '2' } else if d == 3 { '3' }
    else if d == 4 { '4' } else if d == 5 { '5' } else if d == 6 { '6' } else if d == 7 { '7' }
    else if d == 8 { '8' } else { '9' }
}

fn hex_of(d: u32) -> (c: char)
    requires
        d < 16,
    ensures
        c == hex_digit(d as nat),
{
    if d < 10 {
        digit_of(d)
    } else if d == 10 { 'a' } else if d == 11 { 'b' } else if d == 12 { 'c' }
    else if d == 13 { 'd' } else if d == 14 { 'e' } else { 'f' }
}

/// Appends the decimal numeral of `n` to `out`.
pub fn append_dec_u32(out: &mut String, n: u32)
    ensures
        final(out)@ == old(out)@ + dec_nat(n as nat),
    decreases n,
{
    if n < 10 {
        push_char(out, digit_of(n));
    } else {
        append_dec_u32(out, n / 10);
        push_char(out, digit_of(n % 10));
        assert(out@ =~= old(out)@ + dec_nat(n as nat));
    }
}

/// Appends the decimal numeral of `v` to `out`, with a minus sign where `v`
/// is negative.
pub fn append_dec_i32(out: &mut String, v: i32)
    ensures
        final(out)@ == old(out)@ + dec_int(v as int),
{
    if v < 0 {
        push_char(out, '-');
        let m: u32 = (-(v as i64)) as u32;
        append_dec_u32(out, m);
        assert(out@ =~= old(out)@ + dec_int(v as int));
    } else {
        append_dec_u32(out, v as u32);
    }
}

/// How one character stands inside a JSON string literal: the quote, the
/// backslash and the control characters are escaped, every other character
/// stands as itself.
pub open spec fn escape_char(c: char) -> Seq<char> {
    if c == '"' {
        seq!['\\', '"']
    } else if c == '\\' {
        seq!['\\', '\\']
    } else if c == '\n' {
        seq!['\\', 'n']
    } else if c == '\r' {
        seq!['\\', 'r']
    } else if c == '\t' {
        seq!['\\', 't']
    } else if c == '\u{8}' {
        seq!['\\', 'b']
    } else if c == '\u{c}' {
        seq!['\\', 'f']
    } else if (c as u32) < 32 {
        seq!['\\', 'u', '0', '0', hex_digit((c as u32 / 16) as nat), hex_digit((c as u32 % 16) as nat)]
    } else {
        seq![c]
    }
}

/// A whole character sequence inside a JSON string literal.
pub open spec fn escape_seq(s: Seq<char>) -> Seq<char>
    decreases s.len(),
{
    if s.len() == 0 {
        Seq::empty()
    } else {
        escape_seq(s.drop_last()) + escape_char(s.last())
    }
}

/// Every character contributes at least one character to its escape.
pub proof fn lemma_escape_char_len(c: char)
    ensures
        escape_char(c).len() >= 1,
{
}

/// Escaping keeps a non-empty text non-empty.
pub proof fn lemma_escape_keeps_nonempty(s: Seq<char>)
    ensures
        s.len() > 0 ==> escape_seq(s).len() > 0,
{
    if s.len() > 0 {
        lemma_escape_char_len(s.last());
    }
}

fn append_escaped_char(out: &mut String, c: char)
    ensures
        final(out)@ == old(out)@ + escape_char(c),
{
    if c == '"' {
        push_char(out, '\\');
        push_char(out, '"');
    } else if c == '\\' {
        push_char(out, '\\');
        push_char(out, '\\');
    } else if c == '\n' {
        push_char(out, '\\');
        push_char(out, 'n');
    } else if c == '\r' {
        push_char(out, '\\');
        push_char(out, 'r');
    } else if c == '\t' {
        push_char(out, '\\');
        push_char(out, 't');
    } else if c == '\u{8}' {
        push_char(out, '\\');
        push_char(out, 'b');
    } else if c == '\u{c}' {
        push_char(out, '\\');
        push_char(out, 'f');
    } else if (c as u32) < 32 {
        let n: u32 = c as u32;
        push_char(out, '\\');
        push_char(out, 'u');
        push_char(out, '0');
        push_char(out, '0');
        push_char(out, hex_of(n / 16));
        push_char(out, hex_of(n % 16));
    } else {
        push_char(out, c);
    }
    assert(out@ =~= old(out)@ + escape_char(c));
}

/// Appends `s`, escaped for a JSON string literal, to `out`.
pub fn append_escaped(out: &mut String, s: &str)
    ensures
        final(out)@ == old(out)@ + escape_seq(s@),
{
    let len: usize = s.unicode_len();
    let mut i: usize = 0;
    while i < len
        invariant
            len == s@.len(),
            i <= len,
            out@ == old(out)@ + escape_seq(s@.take(i as int)),
        decreases len - i,
    {
        let c = s.get_char(i);
        append_escaped_char(out, c);
        proof {
            assert(s@.take(i as int + 1).drop_last() =~= s@.take(i as int));
            assert(s@.take(i as int + 1).last() == s@[i as int]);
        }
        i = i + 1;
    }
    proof {
        assert(s@.take(len as int) =~= s@);
    }
}

} // verus!
