use vstd::prelude::*;

verus! {

/// The lower-case hexadecimal digit of `n`, for `n < 16`.
pub open spec fn hex_digit(n: int) -> char {
    seq!['0', '1', '2', '3', '4', '5', '6', '7', '8', '9', 'a', 'b', 'c', 'd', 'e', 'f'][n]
}

/// How one character is written inside a JSON string: quote and backslash
/// are escaped, the usual control characters get their short escape, the
/// other control characters a `\u00XX` escape, and the rest stand as they are.
pub open spec fn json_escape_char(c: char) -> Seq<char> {
    if c == '"' {
        seq!['\\', '"']
    } else if c == '\\' {
        seq!['\\', '\\']
    } else if c == '\u{8}' {
        seq!['\\', 'b']
    } else if c == '\t' {
        seq!['\\', 't']
    } else if c == '\n' {
        seq!['\\', 'n']
    } else if c == '\u{c}' {
        seq!['\\', 'f']
    } else if c == '\r' {
        seq!['\\', 'r']
    } else if (c as u32) < 0x20 {
        seq!['\\', 'u', '0', '0', hex_digit(c as int / 16), hex_digit(c as int % 16)]
    } else {
        seq![c]
    }
}

/// The escaped body of a JSON string holding `s`.
pub open spec fn json_escaped(s: Seq<char>) -> Seq<char>
    decreases s.len(),
{
    if s.len() == 0 {
        Seq::empty()
    } else {
        json_escape_char(s[0]) + json_escaped(s.drop_first())
    }
}

/// The JSON string literal that holds `s`.
pub open spec fn json_quoted(s: Seq<char>) -> Seq<char> {
    seq!['"'] + json_escaped(s) + seq!['"']
}

/// Relies on serde_json::to_string on a `str`: it writes the string between
/// quotes with serde_json's escape table, and fails only for maps with
/// non-string keys or a failing `Serialize`, neither of which a `str` has.
#[verifier::external_body]
fn encode_json_string(s: &str) -> (r: Result<String, serde_json::Error>)
    ensures
        r is Ok,
        r->Ok_0@ == json_quoted(s@),
{
    serde_json::to_string(s)
}

/// The JSON string literal for `s`.
pub fn quote_json(s: &str) -> (r: String)
    ensures
        r@ == json_quoted(s@),
{
    match encode_json_string(s) {
        Ok(t) => t,
        // encoding a `str` does not fail
        Err(_) => String::new(),
    }
}

proof fn lemma_hex_digit_injective(a: int, b: int)
    requires
        0 <= a < 16,
        0 <= b < 16,
        hex_digit(a) == hex_digit(b),
    ensures
        a == b,
{
}

/// An escaped character never begins with a quote, and the text of one
/// escaped character is never a proper prefix of another's.
proof fn lemma_escape_char_unique(c1: char, c2: char, u: Seq<char>, v: Seq<char>)
    requires
        json_escape_char(c1) + u == json_escape_char(c2) + v,
    ensures
        c1 == c2,
        u == v,
{
    let e1 = json_escape_char(c1);
    let e2 = json_escape_char(c2);
    let t = e1 + u;
    assert(t[0] == e1[0] && t[0] == e2[0]);
    if e1.len() > 1 {
        assert(t[1] == e1[1]);
    }
    if e2.len() > 1 {
        assert(t[1] == e2[1]);
    }
    if e1.len() == 6 && e2.len() == 6 {
        assert(t[4] == e1[4] && t[4] == e2[4]);
        assert(t[5] == e1[5] && t[5] == e2[5]);
        lemma_hex_digit_injective(c1 as int / 16, c2 as int / 16);
        lemma_hex_digit_injective(c1 as int % 16, c2 as int % 16);
        vstd::utf8::char_u32_cast(c1, c1 as u32);
        vstd::utf8::char_u32_cast(c2, c2 as u32);
    }
    assert(c1 == c2);
    assert(u =~= t.subrange(e1.len() as int, t.len() as int));
    assert(v =~= t.subrange(e2.len() as int, t.len() as int));
}

/// The escaped text of a string ends where the first unescaped quote stands,
/// so the string and what follows its closing quote are recovered from it.
pub proof fn lemma_escaped_prefix_unique(a: Seq<char>, b: Seq<char>, x: Seq<char>, y: Seq<char>)
    requires
        json_escaped(a) + seq!['"'] + x == json_escaped(b) + seq!['"'] + y,
    ensures
        a == b,
        x == y,
    decreases a.len() + b.len(),
{
    let t = json_escaped(a) + seq!['"'] + x;
    if a.len() == 0 && b.len() == 0 {
        assert(x =~= t.subrange(1, t.len() as int));
        assert(y =~= t.subrange(1, t.len() as int));
    } else if a.len() == 0 {
        assert(t[0] == '"');
        assert(t[0] == json_escape_char(b[0])[0]);
    } else if b.len() == 0 {
        assert(t[0] == '"');
        assert(t[0] == json_escape_char(a[0])[0]);
    } else {
        let ra = json_escaped(a.drop_first()) + seq!['"'] + x;
        let rb = json_escaped(b.drop_first()) + seq!['"'] + y;
        assert(t =~= json_escape_char(a[0]) + ra);
        assert(t =~= json_escape_char(b[0]) + rb);
        lemma_escape_char_unique(a[0], b[0], ra, rb);
        lemma_escaped_prefix_unique(a.drop_first(), b.drop_first(), x, y);
        assert(a =~= seq![a[0]] + a.drop_first());
        assert(b =~= seq![b[0]] + b.drop_first());
    }
}

#[verifier::external_type_specification]
#[verifier::external_body]
pub struct ExJsonError(serde_json::Error);

#[verifier::external_type_specification]
#[verifier::external_body]
pub struct ExJsonValue(serde_json::Value);

} // verus!
