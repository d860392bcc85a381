use vstd::prelude::*;

verus! {

/// The rest of `s` after `p`, when `s` starts with `p`.
pub open spec fn after_prefix(s: Seq<char>, p: Seq<char>) -> Option<Seq<char>> {
    if p.len() <= s.len() && s.subrange(0, p.len() as int) == p {
        Some(s.subrange(p.len() as int, s.len() as int))
    } else {
        None
    }
}

/// Relies on str::strip_prefix: the rest of `s` after `p`, or nothing when
/// `s` does not start with `p`.
#[verifier::external_body]
pub(crate) fn strip_prefix<'a>(s: &'a str, p: &str) -> (r: Option<&'a str>)
    ensures
        after_prefix(s@, p@) is None <==> r is None,
        r matches Some(t) ==> after_prefix(s@, p@) == Some(t@),
{
    s.strip_prefix(p)
}

/// The decimal digit for `d < 10`.
pub open spec fn digit(d: nat) -> char {
    seq!['0', '1', '2', '3', '4', '5', '6', '7', '8', '9'][d as int]
}

/// The decimal writing of `n`, without leading zeros.
pub open spec fn decimal(n: nat) -> Seq<char>
    decreases n,
{
    if n < 10 {
        seq![digit(n)]
    } else {
        decimal(n / 10).push(digit(n % 10))
    }
}

/// Relies on u32's Display through to_string: its decimal writing.
#[verifier::external_body]
pub(crate) fn decimal_text(n: u32) -> (r: String)
    ensures
        r@ == decimal(n as nat),
{
    n.to_string()
}

#[verifier::external_type_specification]
#[verifier::external_body]
pub struct ExJsonError(serde_json::Error);

/// The lower-case hexadecimal digit for `d < 16`.
pub open spec fn hex_digit(d: nat) -> char {
    seq!['0', '1', '2', '3', '4', '5', '6', '7', '8', '9', 'a', 'b', 'c', 'd', 'e', 'f'][d as int]
}

/// How one character is written inside a JSON string: `"` and `\` and the
/// control characters below U+0020 are escaped, the short forms where JSON
/// has one and `\u00xx` otherwise; every other character stands as it is.
pub open spec fn escape_char(c: char) -> Seq<char> {
    if c == '"' {
        seq!['\\', '"']
    } else if c == '\\' {
        seq!['\\', '\\']
    } else if c == '\x08' {
        seq!['\\', 'b']
    } else if c == '\t' {
        seq!['\\', 't']
    } else if c == '\n' {
        seq!['\\', 'n']
    } else if c == '\x0c' {
        seq!['\\', 'f']
    } else if c == '\r' {
        seq!['\\', 'r']
    } else if (c as u32) < 0x20 {
        seq!['\\', 'u', '0', '0', hex_digit((c as u32 as nat) / 16), hex_digit((c as u32 as nat) % 16)]
    } else {
        seq![c]
    }
}

/// The characters of `s`, each written as inside a JSON string.
pub open spec fn escaped(s: Seq<char>) -> Seq<char>
    decreases s.len(),
{
    if s.len() == 0 {
        Seq::empty()
    } else {
        escape_char(s[0]) + escaped(s.drop_first())
    }
}

/// The JSON string literal for `s`.
pub open spec fn json_quoted(s: Seq<char>) -> Seq<char> {
    seq!['"'] + escaped(s) + seq!['"']
}

/// Relies on serde_json::to_string on a string slice: the JSON string
/// literal for `s`.  Writing a string slice into serde_json's in-memory
/// buffer does not fail.
#[verifier::external_body]
pub(crate) fn quote_json(s: &str) -> (r: Result<String, serde_json::Error>)
    ensures
        r is Ok,
        r matches Ok(t) ==> t@ == json_quoted(s@),
{
    serde_json::to_string(s)
}

proof fn lemma_escape_char_first(c1: char, c2: char, t1: Seq<char>, t2: Seq<char>)
    requires
        escape_char(c1) + t1 == escape_char(c2) + t2,
    ensures
        c1 == c2,
{
    let e1 = escape_char(c1);
    let e2 = escape_char(c2);
    let w = e1 + t1;
    assert(w[0] == e1[0]);
    assert(w[0] == e2[0]);
    if e1.len() >= 2 && e2.len() >= 2 {
        assert(w[1] == e1[1]);
        assert(w[1] == e2[1]);
        if e1.len() == 6 && e2.len() == 6 {
            assert(w[4] == e1[4] && w[4] == e2[4]);
            assert(w[5] == e1[5] && w[5] == e2[5]);
            let n1 = c1 as u32 as nat;
            let n2 = c2 as u32 as nat;
            assert(n1 / 16 == n2 / 16);
            assert(n1 % 16 == n2 % 16);
            assert(n1 == 16 * (n1 / 16) + n1 % 16);
            assert(n2 == 16 * (n2 / 16) + n2 % 16);
        }
    }
}

/// Escaping keeps everything: two strings with the same escaped form are
/// the same string.
pub proof fn lemma_escaped_injective(s1: Seq<char>, s2: Seq<char>)
    requires
        escaped(s1) == escaped(s2),
    ensures
        s1 == s2,
    decreases s1.len(),
{
    if s1.len() == 0 {
        if s2.len() != 0 {
            assert(escaped(s2).len() >= escape_char(s2[0]).len());
        }
        assert(s2.len() == 0);
        assert(s1 =~= s2);
    } else {
        if s2.len() == 0 {
            assert(escaped(s1).len() >= escape_char(s1[0]).len());
        }
        let r1 = escaped(s1.drop_first());
        let r2 = escaped(s2.drop_first());
        lemma_escape_char_first(s1[0], s2[0], r1, r2);
        let e = escape_char(s1[0]);
        assert(r1 =~= (e + r1).subrange(e.len() as int, (e + r1).len() as int));
        assert(r2 =~= (e + r2).subrange(e.len() as int, (e + r2).len() as int));
        lemma_escaped_injective(s1.drop_first(), s2.drop_first());
        assert(s1 =~= seq![s1[0]] + s1.drop_first());
        assert(s2 =~= seq![s2[0]] + s2.drop_first());
    }
}

/// JSON string quoting is lossless: two strings with the same JSON literal
/// are the same string, whatever spaces or non-ASCII characters they hold.
pub proof fn lemma_json_quoted_injective(s1: Seq<char>, s2: Seq<char>)
    requires
        json_quoted(s1) == json_quoted(s2),
    ensures
        s1 == s2,
{
    let q1 = json_quoted(s1);
    let q2 = json_quoted(s2);
    assert(escaped(s1) =~= q1.subrange(1, q1.len() - 1));
    assert(escaped(s2) =~= q2.subrange(1, q2.len() - 1));
    lemma_escaped_injective(s1, s2);
}

} // verus!
