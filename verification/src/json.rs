use vstd::prelude::*;
use vstd::utf8::encode_utf8;

verus! {

/// The lowercase hex digit for a value below 16.
pub open spec fn spec_hex_digit(d: u8) -> u8
    recommends
        d < 16,
{
    if d < 10 {
        (48 + d) as u8
    } else {
        (87 + d) as u8
    }
}

/// How one byte of text appears inside a JSON string: quote and backslash
/// get a backslash escape, the named control characters get their short
/// escapes, every other control character a `\u00..` escape, and everything
/// else stands as itself.
pub open spec fn spec_escaped_byte(c: u8) -> Seq<u8> {
    if c == 34 {
        seq![92u8, 34u8]
    } else if c == 92 {
        seq![92u8, 92u8]
    } else if c == 8 {
        seq![92u8, 98u8]
    } else if c == 9 {
        seq![92u8, 116u8]
    } else if c == 10 {
        seq![92u8, 110u8]
    } else if c == 12 {
        seq![92u8, 102u8]
    } else if c == 13 {
        seq![92u8, 114u8]
    } else if c < 32 {
        seq![92u8, 117u8, 48u8, 48u8, spec_hex_digit(c / 16), spec_hex_digit((c % 16) as u8)]
    } else {
        seq![c]
    }
}

/// A byte string escaped for use inside a JSON string literal.
pub open spec fn spec_json_escape(s: Seq<u8>) -> Seq<u8>
    decreases s.len(),
{
    if s.len() == 0 {
        Seq::empty()
    } else {
        spec_json_escape(s.drop_last()) + spec_escaped_byte(s.last())
    }
}

/// The argument bytes of a greeting update: a JSON object with the greeting
/// under the `greeting` key, escaped as JSON requires.
pub open spec fn spec_greeting_args(g: Seq<u8>) -> Seq<u8> {
    encode_utf8("{\"greeting\":\""@) + spec_json_escape(g) + encode_utf8("\"}"@)
}

/// Extending the text by one byte extends the escaped form by that byte's
/// escape.
proof fn lemma_escape_snoc(s: Seq<u8>, i: int)
    requires
        0 <= i < s.len(),
    ensures
        spec_json_escape(s.take(i + 1)) == spec_json_escape(s.take(i)) + spec_escaped_byte(s[i]),
{
    assert(s.take(i + 1).drop_last() =~= s.take(i));
    assert(s.take(i + 1).last() == s[i]);
}

/// Appends the escaped form of one byte.
fn push_escaped_byte(out: &mut Vec<u8>, c: u8)
    ensures
        final(out)@ == old(out)@ + spec_escaped_byte(c),
{
    if c == 34 {
        out.push(92);
        out.push(34);
    } else if c == 92 {
        out.push(92);
        out.push(92);
    } else if c == 8 {
        out.push(92);
        out.push(98);
    } else if c == 9 {
        out.push(92);
        out.push(116);
    } else if c == 10 {
        out.push(92);
        out.push(110);
    } else if c == 12 {
        out.push(92);
        out.push(102);
    } else if c == 13 {
        out.push(92);
        out.push(114);
    } else if c < 32 {
        out.push(92);
        out.push(117);
        out.push(48);
        out.push(48);
        let hi = c / 16;
        let lo = c % 16;
        out.push(if hi < 10 { 48 + hi } else { 87 + hi });
        out.push(if lo < 10 { 48 + lo } else { 87 + lo });
    } else {
        out.push(c);
    }
    proof {
        assert(out@ =~= old(out)@ + spec_escaped_byte(c));
    }
}

/// Builds the argument bytes for a greeting update, exactly as the JSON
/// serializer of the wire protocol writes them.
pub fn set_greeting_args(greeting: &str) -> (r: Vec<u8>)
    ensures
        r@ == spec_greeting_args(encode_utf8(greeting@)),
{
    let mut out: Vec<u8> = "{\"greeting\":\"".as_bytes_vec();
    let g = greeting.as_bytes();
    let n = g.len();
    let ghost head: Seq<u8> = out@;
    let mut i: usize = 0;
    while i < n
        invariant
            i <= n,
            n == g@.len(),
            out@ == head + spec_json_escape(g@.take(i as int)),
        decreases n - i,
    {
        push_escaped_byte(&mut out, g[i]);
        proof {
            lemma_escape_snoc(g@, i as int);
            assert(out@ =~= head + spec_json_escape(g@.take(i as int + 1)));
        }
        i = i + 1;
    }
    let mut tail: Vec<u8> = "\"}".as_bytes_vec();
    out.append(&mut tail);
    proof {
        assert(g@.take(n as int) =~= g@);
        assert(out@ =~= spec_greeting_args(encode_utf8(greeting@)));
    }
    out
}

/// The argument bytes of a read-only greeting query: an empty JSON object.
pub fn empty_args() -> (r: Vec<u8>)
    ensures
        r@ == encode_utf8("{}"@),
{
    "{}".as_bytes_vec()
}

} // verus!
