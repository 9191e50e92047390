//! JSON string quoting over UTF-8 bytes.
//!
//! The reply body on success is the single-field JSON object
//! `{"text":"<extracted text>"}`. This module defines, and implements, the
//! JSON quotation of a UTF-8 byte string in the compact style: `"` and `\`
//! are escaped with a backslash, the control characters with a short form
//! (`\b`, `\t`, `\n`, `\f`, `\r`) where one exists and as `\u00xx` with
//! lowercase hexadecimal digits otherwise, and every other byte is kept as
//! it is.

use vstd::prelude::*;
use crate::spec_hex_digit;

verus! {

/// The escape sequence that stands for one byte inside a quoted JSON string.
pub open spec fn escaped_byte(b: u8) -> Seq<u8> {
    if b == 0x22 {
        seq![0x5cu8, 0x22u8]
    } else if b == 0x5c {
        seq![0x5cu8, 0x5cu8]
    } else if b == 0x08 {
        seq![0x5cu8, 0x62u8]
    } else if b == 0x09 {
        seq![0x5cu8, 0x74u8]
    } else if b == 0x0a {
        seq![0x5cu8, 0x6eu8]
    } else if b == 0x0c {
        seq![0x5cu8, 0x66u8]
    } else if b == 0x0d {
        seq![0x5cu8, 0x72u8]
    } else if b < 0x20 {
        seq![0x5cu8, 0x75u8, 0x30u8, 0x30u8, spec_hex_digit(b / 16), spec_hex_digit(b % 16)]
    } else {
        seq![b]
    }
}

/// The concatenation of the escape sequences of every byte of `s`.
pub open spec fn json_escaped(s: Seq<u8>) -> Seq<u8>
    decreases s.len(),
{
    if s.len() == 0 {
        Seq::empty()
    } else {
        escaped_byte(s[0]) + json_escaped(s.drop_first())
    }
}

/// The JSON quotation of the byte string `s`: the escaped bytes between
/// double quotes.
pub open spec fn json_quoted(s: Seq<u8>) -> Seq<u8> {
    seq![0x22u8] + json_escaped(s) + seq![0x22u8]
}

/// Escaping a string extended by one byte appends that byte's escape
/// sequence.
proof fn lemma_json_escaped_push(s: Seq<u8>, b: u8)
    ensures
        json_escaped(s.push(b)) == json_escaped(s) + escaped_byte(b),
    decreases s.len(),
{
    if s.len() == 0 {
        assert(s =~= Seq::<u8>::empty());
        assert(s.push(b).drop_first() =~= Seq::<u8>::empty());
        assert(s.push(b)[0] == b);
        assert(json_escaped(Seq::<u8>::empty()) == Seq::<u8>::empty());
        assert(json_escaped(s.push(b)) == escaped_byte(b) + Seq::<u8>::empty());
        assert(json_escaped(s.push(b)) =~= json_escaped(s) + escaped_byte(b));
    } else {
        assert(s.push(b).drop_first() =~= s.drop_first().push(b));
        lemma_json_escaped_push(s.drop_first(), b);
        assert(json_escaped(s.push(b)) =~= json_escaped(s) + escaped_byte(b));
    }
}

/// The lowercase hexadecimal digit for a value below 16.
fn hex_digit(n: u8) -> (r: u8)
    requires
        n < 16,
    ensures
        r == spec_hex_digit(n),
{
    if n < 10 {
        48 + n
    } else {
        87 + n
    }
}

/// Appends the escape sequence of one byte to `out`.
fn push_escaped(out: &mut Vec<u8>, b: u8)
    ensures
        final(out)@ == old(out)@ + escaped_byte(b),
{
    if b == 0x22 {
        out.push(0x5c);
        out.push(0x22);
    } else if b == 0x5c {
        out.push(0x5c);
        out.push(0x5c);
    } else if b == 0x08 {
        out.push(0x5c);
        out.push(0x62);
    } else if b == 0x09 {
        out.push(0x5c);
        out.push(0x74);
    } else if b == 0x0a {
        out.push(0x5c);
        out.push(0x6e);
    } else if b == 0x0c {
        out.push(0x5c);
        out.push(0x66);
    } else if b == 0x0d {
        out.push(0x5c);
        out.push(0x72);
    } else if b < 0x20 {
        out.push(0x5c);
        out.push(0x75);
        out.push(0x30);
        out.push(0x30);
        let hi = hex_digit(b / 16);
        let lo = hex_digit(b % 16);
        out.push(hi);
        out.push(lo);
    } else {
        out.push(b);
    }
    assert(out@ =~= old(out)@ + escaped_byte(b));
}

/// Builds the JSON quotation of `text`, exactly as `json_quoted` states it.
pub fn json_quote(text: &Vec<u8>) -> (r: Vec<u8>)
    ensures
        r@ == json_quoted(text@),
{
    let mut out: Vec<u8> = Vec::new();
    out.push(0x22);
    let mut i: usize = 0;
    while i < text.len()
        invariant
            i <= text.len(),
            out@ == seq![0x22u8] + json_escaped(text@.take(i as int)),
        decreases text.len() - i,
    {
        let b = text[i];
        proof {
            lemma_json_escaped_push(text@.take(i as int), b);
            assert(text@.take(i as int).push(b) =~= text@.take(i + 1 as int));
        }
        push_escaped(&mut out, b);
        i += 1;
    }
    proof {
        assert(text@.take(text@.len() as int) =~= text@);
    }
    out.push(0x22);
    proof {
        assert(out@ =~= json_quoted(text@));
    }
    out
}

} // verus!
