//! JSON string literals and the escaping needed to embed JSON text in a
//! single-quoted JavaScript string.

use vstd::prelude::*;
use crate::text::push_char;

verus! {

/// The lowercase hexadecimal digit of `n` (`0 <= n < 16`).
pub open spec fn hex_digit(n: nat) -> char {
    if n < 10 {
        crate::text::digit_char(n)
    } else if n == 10 { 'a' }
    else if n == 11 { 'b' }
    else if n == 12 { 'c' }
    else if n == 13 { 'd' }
    else if n == 14 { 'e' }
    else { 'f' }
}

/// How a JSON string literal writes one character: quote, backslash and the
/// control characters are escaped, every other character stands for itself.
pub open spec fn json_escape_char(c: char) -> Seq<char> {
    if c == '"' {
        seq!['\\', '"']
    } else if c == '\\' {
        seq!['\\', '\\']
    } else if c == '\u{8}' {
        seq!['\\', 'b']
    } else if c == '\u{c}' {
        seq!['\\', 'f']
    } else if c == '\n' {
        seq!['\\', 'n']
    } else if c == '\r' {
        seq!['\\', 'r']
    } else if c == '\t' {
        seq!['\\', 't']
    } else if (c as u32) < 0x20 {
        seq!['\\', 'u', '0', '0', hex_digit((c as u32 / 16) as nat), hex_digit((c as u32 % 16) as nat)]
    } else {
        seq![c]
    }
}

/// The escaped contents of a JSON string literal for `s`.
pub open spec fn json_escape(s: Seq<char>) -> Seq<char>
    decreases s.len(),
{
    if s.len() == 0 {
        Seq::empty()
    } else {
        json_escape(s.drop_last()) + json_escape_char(s.last())
    }
}

/// The JSON string literal for `s`, quotes included.
pub open spec fn json_string(s: Seq<char>) -> Seq<char> {
    seq!['"'] + json_escape(s) + seq!['"']
}

/// The JSON string literal for `s`; calls `serde_json::to_string` on the
/// string slice. serde_json writes a string as `"`, the characters with
/// `"`, `\` and the control characters below U+0020 escaped (`\b`, `\f`,
/// `\n`, `\r`, `\t`, else `\u00XX` in lowercase hex), and `"`; serializing
/// a `&str` cannot fail. The contract claims exactly that text.
#[verifier::external_body]
pub(crate) fn json_quote(s: &str) -> (r: String)
    ensures
        r@ == json_string(s@),
{
    serde_json::to_string(s).unwrap()
}

/// How a character is written inside a single-quoted JavaScript string
/// that holds JSON text: backslashes are doubled and single quotes escaped.
pub open spec fn js_quote_char(c: char) -> Seq<char> {
    if c == '\\' {
        seq!['\\', '\\']
    } else if c == '\'' {
        seq!['\\', '\'']
    } else {
        seq![c]
    }
}

/// `s` escaped for a single-quoted JavaScript string.
pub open spec fn js_single_quote_escape(s: Seq<char>) -> Seq<char>
    decreases s.len(),
{
    if s.len() == 0 {
        Seq::empty()
    } else {
        js_single_quote_escape(s.drop_last()) + js_quote_char(s.last())
    }
}

/// Escape `s` (backslashes doubled, then single quotes escaped) so that it
/// can stand between single quotes in JavaScript source.
pub fn escape_for_js_single_quotes(s: &str) -> (r: String)
    ensures
        r@ == js_single_quote_escape(s@),
{
    let mut out = String::new();
    let ghost sv = s@;
    for c in it: s.chars()
        invariant
            it.seq() == sv,
            out@ == js_single_quote_escape(sv.take(it.index())),
    {
        let ghost k = it.index();
        proof {
            assert(sv.take(k + 1).drop_last() =~= sv.take(k));
            assert(sv.take(k + 1).last() == c);
        }
        if c == '\\' {
            push_char(&mut out, '\\');
            push_char(&mut out, '\\');
        } else if c == '\'' {
            push_char(&mut out, '\\');
            push_char(&mut out, '\'');
        } else {
            push_char(&mut out, c);
        }
        proof {
            assert(out@ =~= js_single_quote_escape(sv.take(k)) + js_quote_char(c));
        }
    }
    proof {
        assert(sv.take(sv.len() as int) =~= sv);
    }
    out
}


/// Reading a single-quoted JavaScript string body back: a backslash and the
/// character after it stand for that character.
pub open spec fn js_unescape(s: Seq<char>) -> Seq<char>
    decreases s.len(),
{
    if s.len() == 0 {
        Seq::empty()
    } else if s[0] == '\\' && s.len() >= 2 {
        seq![s[1]] + js_unescape(s.skip(2))
    } else {
        seq![s[0]] + js_unescape(s.skip(1))
    }
}

proof fn lemma_js_escape_concat(a: Seq<char>, b: Seq<char>)
    ensures
        js_single_quote_escape(a + b) == js_single_quote_escape(a) + js_single_quote_escape(b),
    decreases b.len(),
{
    if b.len() == 0 {
        assert(a + b =~= a);
        assert(js_single_quote_escape(a) + js_single_quote_escape(b) =~= js_single_quote_escape(a));
    } else {
        assert((a + b).drop_last() =~= a + b.drop_last());
        assert((a + b).last() == b.last());
        lemma_js_escape_concat(a, b.drop_last());
        assert(js_single_quote_escape(a + b) =~= js_single_quote_escape(a) + js_single_quote_escape(b));
    }
}

/// Escaping for a single-quoted JavaScript string loses nothing: reading
/// the escaped text back gives the unescaped text.
pub proof fn law_js_escape_reads_back(s: Seq<char>)
    ensures
        js_unescape(js_single_quote_escape(s)) == s,
    decreases s.len(),
{
    if s.len() > 0 {
        let first = seq![s[0]];
        let rest = s.skip(1);
        assert(s =~= first + rest);
        lemma_js_escape_concat(first, rest);
        assert(first.drop_last() =~= Seq::<char>::empty());
        assert(first.last() == s[0]);
        assert(js_single_quote_escape(first.drop_last()) =~= Seq::<char>::empty());
        assert(js_single_quote_escape(first) =~= js_quote_char(s[0]));
        law_js_escape_reads_back(rest);
        let e = js_single_quote_escape(s);
        let er = js_single_quote_escape(rest);
        if s[0] == '\\' || s[0] == '\'' {
            assert(e =~= js_quote_char(s[0]) + er);
            assert(e[0] == '\\');
            assert(e.skip(2) =~= er);
            assert(js_unescape(e) =~= seq![s[0]] + js_unescape(er));
        } else {
            assert(e =~= seq![s[0]] + er);
            assert(e.skip(1) =~= er);
            assert(js_unescape(e) =~= seq![s[0]] + js_unescape(er));
        }
    }
}

} // verus!
