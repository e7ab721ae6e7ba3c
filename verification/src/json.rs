//! A small JSON writer over byte vectors.
//!
//! The export document is rendered by this module alone, so the exact bytes
//! that leave the pipeline are pinned by the spec functions here: strings are
//! quoted with `"`, `\` and control characters escaped (short escapes for
//! backspace, tab, newline, form feed and carriage return, `\u00XX` for the
//! rest), integers are rendered in decimal, and objects list their members in
//! the order given, separated by commas.

use vstd::prelude::*;

use crate::text::pairs_view;

verus! {

/// The lowercase hexadecimal digit for a value below sixteen.
pub open spec fn hex_digit(n: u8) -> u8
    recommends
        n < 16,
{
    if n < 10 {
        (0x30 + n) as u8
    } else {
        (0x57 + n) as u8
    }
}

/// How one byte of a string appears inside a JSON string literal.
pub open spec fn escaped_byte(b: u8) -> Seq<u8> {
    if b == 0x22 {
        seq![0x5cu8, 0x22u8]
    } else if b == 0x5c {
        seq![0x5cu8, 0x5cu8]
    } else if b == 0x08 {
        seq![0x5cu8, 0x62u8]
    } else if b == 0x09 {
        seq![0x5cu8, 0x74u8]
    } else if b == 0x0a {
        seq![0x5cu8, 0x6eu8]
    } else if b == 0x0c {
        seq![0x5cu8, 0x66u8]
    } else if b == 0x0d {
        seq![0x5cu8, 0x72u8]
    } else if b < 0x20 {
        seq![0x5cu8, 0x75u8, 0x30u8, 0x30u8, hex_digit(b / 16), hex_digit(b % 16)]
    } else {
        seq![b]
    }
}

/// A byte sequence with every byte escaped for a JSON string literal.
pub open spec fn escaped(s: Seq<u8>) -> Seq<u8>
    decreases s.len(),
{
    if s.len() == 0 {
        Seq::empty()
    } else {
        escaped(s.drop_last()) + escaped_byte(s.last())
    }
}

/// A JSON string literal: the escaped bytes between double quotes.
pub open spec fn json_string(s: Seq<u8>) -> Seq<u8> {
    seq![0x22u8] + escaped(s) + seq![0x22u8]
}

/// The decimal digits of a natural number, most significant first.
pub open spec fn dec_digits(n: nat) -> Seq<u8>
    decreases n,
{
    if n < 10 {
        seq![(0x30 + n) as u8]
    } else {
        dec_digits(n / 10) + seq![(0x30 + n % 10) as u8]
    }
}

/// The decimal rendering of a signed integer.
pub open spec fn dec_i64(n: int) -> Seq<u8> {
    if n < 0 {
        seq![0x2du8] + dec_digits((-n) as nat)
    } else {
        dec_digits(n as nat)
    }
}

/// One `"key":"value"` member of a JSON object.
pub open spec fn json_member(k: Seq<u8>, v: Seq<u8>) -> Seq<u8> {
    json_string(k) + seq![0x3au8] + json_string(v)
}

/// The comma-separated members of a JSON object, in the order given.
pub open spec fn json_members(entries: Seq<(Seq<u8>, Seq<u8>)>) -> Seq<u8>
    decreases entries.len(),
{
    if entries.len() == 0 {
        Seq::empty()
    } else if entries.len() == 1 {
        json_member(entries[0].0, entries[0].1)
    } else {
        json_members(entries.drop_last()) + seq![0x2cu8] + json_member(
            entries.last().0,
            entries.last().1,
        )
    }
}

/// A JSON object whose values are all strings, members in the order given.
pub open spec fn json_object(entries: Seq<(Seq<u8>, Seq<u8>)>) -> Seq<u8> {
    seq![0x7bu8] + json_members(entries) + seq![0x7du8]
}

proof fn lemma_escaped_push(s: Seq<u8>, b: u8)
    ensures
        escaped(s.push(b)) == escaped(s) + escaped_byte(b),
{
    assert(s.push(b).drop_last() =~= s);
    assert(s.push(b).last() == b);
}

proof fn lemma_members_push(s: Seq<(Seq<u8>, Seq<u8>)>, i: int)
    requires
        0 <= i < s.len(),
    ensures
        i == 0 ==> json_members(s.take(1)) == json_member(s[0].0, s[0].1),
        i > 0 ==> json_members(s.take(i + 1)) == json_members(s.take(i)) + seq![0x2cu8]
            + json_member(s[i].0, s[i].1),
{
    assert(s.take(i + 1).drop_last() =~= s.take(i));
    assert(s.take(i + 1).last() == s[i]);
}

fn hex_digit_byte(n: u8) -> (r: u8)
    requires
        n < 16,
    ensures
        r == hex_digit(n),
{
    if n < 10 {
        0x30 + n
    } else {
        0x57 + n
    }
}

fn push_escaped_byte(out: &mut Vec<u8>, b: u8)
    ensures
        final(out)@ == old(out)@ + escaped_byte(b),
{
    if b == 0x22 {
        out.push(0x5c);
        out.push(0x22);
    } else if b == 0x5c {
        out.push(0x5c);
        out.push(0x5c);
    } else if b == 0x08 {
        out.push(0x5c);
        out.push(0x62);
    } else if b == 0x09 {
        out.push(0x5c);
        out.push(0x74);
    } else if b == 0x0a {
        out.push(0x5c);
        out.push(0x6e);
    } else if b == 0x0c {
        out.push(0x5c);
        out.push(0x66);
    } else if b == 0x0d {
        out.push(0x5c);
        out.push(0x72);
    } else if b < 0x20 {
        out.push(0x5c);
        out.push(0x75);
        out.push(0x30);
        out.push(0x30);
        out.push(hex_digit_byte(b / 16));
        out.push(hex_digit_byte(b % 16));
    } else {
        out.push(b);
    }
    assert(out@ =~= old(out)@ + escaped_byte(b));
}

/// Appends the escaped form of `s` to `out`.
pub fn write_escaped(out: &mut Vec<u8>, s: &[u8])
    ensures
        final(out)@ == old(out)@ + escaped(s@),
{
    let n = s.len();
    let mut i: usize = 0;
    assert(out@ =~= old(out)@ + escaped(s@.take(0)));
    while i < n
        invariant
            i <= n,
            n == s@.len(),
            out@ == old(out)@ + escaped(s@.take(i as int)),
        decreases n - i,
    {
        push_escaped_byte(out, s[i]);
        proof {
            assert(s@.take(i as int).push(s@[i as int]) =~= s@.take(i + 1 as int));
            lemma_escaped_push(s@.take(i as int), s@[i as int]);
        }
        i += 1;
    }
    assert(s@.take(n as int) =~= s@);
}

/// Appends the JSON string literal for `s` to `out`.
pub fn write_json_string(out: &mut Vec<u8>, s: &[u8])
    ensures
        final(out)@ == old(out)@ + json_string(s@),
{
    out.push(0x22);
    write_escaped(out, s);
    out.push(0x22);
    assert(out@ =~= old(out)@ + json_string(s@));
}

/// Appends the decimal digits of `n` to `out`.
pub fn write_u64(out: &mut Vec<u8>, n: u64)
    ensures
        final(out)@ == old(out)@ + dec_digits(n as nat),
    decreases n,
{
    if n < 10 {
        out.push(0x30 + n as u8);
        assert(out@ =~= old(out)@ + dec_digits(n as nat));
    } else {
        write_u64(out, n / 10);
        out.push(0x30 + (n % 10) as u8);
        assert(out@ =~= old(out)@ + dec_digits(n as nat));
    }
}

/// Appends the decimal rendering of `n` to `out`, with a leading minus sign
/// when `n` is negative.
pub fn write_i64(out: &mut Vec<u8>, n: i64)
    ensures
        final(out)@ == old(out)@ + dec_i64(n as int),
{
    if n < 0 {
        out.push(0x2d);
        let wide: i128 = -(n as i128);
        assert(0 <= wide <= u64::MAX);
        let m: u64 = wide as u64;
        write_u64(out, m);
        assert(m as nat == (-(n as int)) as nat);
        assert(out@ =~= old(out)@ + dec_i64(n as int));
    } else {
        write_u64(out, n as u64);
    }
}

/// Appends the JSON object whose string members are `entries`, in order.
pub fn write_json_object(out: &mut Vec<u8>, entries: &Vec<(Vec<u8>, Vec<u8>)>)
    ensures
        final(out)@ == old(out)@ + json_object(pairs_view(entries@)),
{
    out.push(0x7b);
    let n = entries.len();
    let mut i: usize = 0;
    assert(out@ =~= old(out)@ + seq![0x7bu8] + json_members(pairs_view(entries@).take(0)));
    while i < n
        invariant
            i <= n,
            n == entries@.len(),
            out@ == old(out)@ + seq![0x7bu8] + json_members(pairs_view(entries@).take(i as int)),
        decreases n - i,
    {
        if i > 0 {
            out.push(0x2c);
        }
        write_json_string(out, entries[i].0.as_slice());
        out.push(0x3a);
        write_json_string(out, entries[i].1.as_slice());
        proof {
            lemma_members_push(pairs_view(entries@), i as int);
            assert(pairs_view(entries@)[i as int].0 == entries@[i as int].0@);
            assert(pairs_view(entries@)[i as int].1 == entries@[i as int].1@);
            assert(out@ =~= old(out)@ + seq![0x7bu8] + json_members(
                pairs_view(entries@).take(i + 1 as int),
            ));
        }
        i += 1;
    }
    out.push(0x7d);
    proof {
        assert(pairs_view(entries@).take(n as int) =~= pairs_view(entries@));
        assert(out@ =~= old(out)@ + json_object(pairs_view(entries@)));
    }
}

} // verus!
