//! JSON primitives.
//!
//! Parsing a JSON text is delegated to serde_json behind three small trusted
//! readers whose results are named by uninterpreted spec functions; every
//! rule about the shapes this engine accepts is then verified code on the
//! plain values those readers hand back.  Building a JSON text (quoting and
//! escaping a string) is verified code with an exact specification.

use vstd::prelude::*;

use crate::text::push_char;

verus! {

/// Whether `s` is the text of exactly one well-formed JSON value.
pub uninterp spec fn spec_json_valid(s: Seq<char>) -> bool;

/// Relies on `serde_json::from_str::<Value>`: accepts exactly the texts that
/// consist of one well-formed JSON value.
#[verifier::external_body]
pub fn json_valid(s: &str) -> (r: bool)
    ensures
        r == spec_json_valid(s@),
{
    serde_json::from_str::<serde_json::Value>(s).is_ok()
}

/// If `s` is the text of a JSON object, its fields as (key, raw value text)
/// pairs; otherwise `None`.
pub uninterp spec fn spec_json_object_items(s: Seq<char>) -> Option<Seq<(Seq<char>, Seq<char>)>>;

/// Relies on `serde_json::from_str::<BTreeMap<String, &RawValue>>`: the
/// fields of a JSON object, each value as its raw text.
#[verifier::external_body]
pub fn json_object_items(s: &str) -> (r: Option<Vec<(String, String)>>)
    ensures
        r is Some <==> spec_json_object_items(s@) is Some,
        r matches Some(v) ==> Some(v@.map_values(|p: (String, String)| (p.0@, p.1@)))
            == spec_json_object_items(s@),
{
    match serde_json::from_str::<std::collections::BTreeMap<String, &serde_json::value::RawValue>>(
        s,
    ) {
        Ok(m) => Some(m.into_iter().map(|(k, v)| (k, v.get().to_string())).collect()),
        Err(_) => None,
    }
}

/// If `s` is the text of a JSON array, the raw text of each element in
/// order; otherwise `None`.
pub uninterp spec fn spec_json_array_items(s: Seq<char>) -> Option<Seq<Seq<char>>>;

/// Relies on `serde_json::from_str::<Vec<&RawValue>>`: the elements of a
/// JSON array, each as its raw text.
#[verifier::external_body]
pub fn json_array_items(s: &str) -> (r: Option<Vec<String>>)
    ensures
        r is Some <==> spec_json_array_items(s@) is Some,
        r matches Some(v) ==> Some(v@.map_values(|t: String| t@)) == spec_json_array_items(s@),
{
    match serde_json::from_str::<Vec<&serde_json::value::RawValue>>(s) {
        Ok(v) => Some(v.into_iter().map(|rv| rv.get().to_string()).collect()),
        Err(_) => None,
    }
}

/// If `s` is the text of a JSON string, the character sequence it denotes;
/// otherwise `None`.
pub uninterp spec fn spec_json_string_value(s: Seq<char>) -> Option<Seq<char>>;

/// Relies on `serde_json::from_str::<String>`: the characters denoted by a
/// JSON string.
#[verifier::external_body]
pub fn json_string_value(s: &str) -> (r: Option<String>)
    ensures
        r is Some <==> spec_json_string_value(s@) is Some,
        r matches Some(v) ==> Some(v@) == spec_json_string_value(s@),
{
    serde_json::from_str::<String>(s).ok()
}

/// The character for a value below sixteen, in lower-case hexadecimal.
pub open spec fn hex_char(d: nat) -> char
    recommends
        d < 16,
{
    if d == 0 {
        '0'
    } else if d == 1 {
        '1'
    } else if d == 2 {
        '2'
    } else if d == 3 {
        '3'
    } else if d == 4 {
        '4'
    } else if d == 5 {
        '5'
    } else if d == 6 {
        '6'
    } else if d == 7 {
        '7'
    } else if d == 8 {
        '8'
    } else if d == 9 {
        '9'
    } else if d == 10 {
        'a'
    } else if d == 11 {
        'b'
    } else if d == 12 {
        'c'
    } else if d == 13 {
        'd'
    } else if d == 14 {
        'e'
    } else {
        'f'
    }
}

fn hex_char_exec(d: u8) -> (r: char)
    requires
        d < 16,
    ensures
        r == hex_char(d as nat),
{
    if d < 10 {
        crate::text::digit_char_exec(d)
    } else if d == 10 {
        'a'
    } else if d == 11 {
        'b'
    } else if d == 12 {
        'c'
    } else if d == 13 {
        'd'
    } else if d == 14 {
        'e'
    } else {
        'f'
    }
}

/// How one character appears inside a JSON string literal.
pub open spec fn escaped_char(c: char) -> Seq<char> {
    if c == '"' {
        seq!['\\', '"']
    } else if c == '\\' {
        seq!['\\', '\\']
    } else if c == '\n' {
        seq!['\\', 'n']
    } else if c == '\r' {
        seq!['\\', 'r']
    } else if c == '\t' {
        seq!['\\', 't']
    } else if (c as u32) < 32 {
        seq!['\\', 'u', '0', '0', hex_char((c as u32 / 16) as nat), hex_char((c as u32 % 16) as nat)]
    } else {
        seq![c]
    }
}

/// The body of a JSON string literal denoting `s`.
pub open spec fn json_escape(s: Seq<char>) -> Seq<char>
    decreases s.len(),
{
    if s.len() == 0 {
        Seq::empty()
    } else {
        escaped_char(s[0]) + json_escape(s.drop_first())
    }
}

/// A JSON string literal denoting `s`, quotes and all.
pub open spec fn json_quote(s: Seq<char>) -> Seq<char> {
    seq!['"'] + json_escape(s) + seq!['"']
}

proof fn lemma_json_escape_append(a: Seq<char>, b: Seq<char>)
    ensures
        json_escape(a + b) == json_escape(a) + json_escape(b),
    decreases a.len(),
{
    if a.len() == 0 {
        assert(a + b =~= b);
        assert(json_escape(a) + json_escape(b) =~= json_escape(b));
    } else {
        lemma_json_escape_append(a.drop_first(), b);
        assert((a + b).drop_first() =~= a.drop_first() + b);
        assert((a + b)[0] == a[0]);
        assert(json_escape(a + b) =~= json_escape(a) + json_escape(b));
    }
}

/// Appends the escaped body of a JSON string literal for `s`.
pub fn append_escaped(out: &mut String, s: &str)
    ensures
        final(out)@ == old(out)@ + json_escape(s@),
{
    let n: usize = s.unicode_len();
    let mut i: usize = 0;
    while i < n
        invariant
            n == s@.len(),
            i <= n,
            out@ == old(out)@ + json_escape(s@.take(i as int)),
        decreases n - i,
    {
        let c = s.get_char(i);
        if c == '"' {
            push_char(out, '\\');
            push_char(out, '"');
        } else if c == '\\' {
            push_char(out, '\\');
            push_char(out, '\\');
        } else if c == '\n' {
            push_char(out, '\\');
            push_char(out, 'n');
        } else if c == '\r' {
            push_char(out, '\\');
            push_char(out, 'r');
        } else if c == '\t' {
            push_char(out, '\\');
            push_char(out, 't');
        } else if (c as u32) < 32 {
            let x: u32 = c as u32;
            push_char(out, '\\');
            push_char(out, 'u');
            push_char(out, '0');
            push_char(out, '0');
            push_char(out, hex_char_exec((x / 16) as u8));
            push_char(out, hex_char_exec((x % 16) as u8));
        } else {
            push_char(out, c);
        }
        proof {
            let prefix = s@.take(i as int);
            let one = seq![s@[i as int]];
            lemma_json_escape_append(prefix, one);
            assert(s@.take(i as int + 1) =~= prefix + one);
            assert(one.drop_first() =~= Seq::<char>::empty());
            assert(json_escape(Seq::<char>::empty()) =~= Seq::<char>::empty());
            assert(json_escape(one) =~= escaped_char(s@[i as int]) + json_escape(one.drop_first()));
            assert(json_escape(one) =~= escaped_char(s@[i as int]));
            assert(out@ =~= old(out)@ + json_escape(s@.take(i as int + 1)));
        }
        i += 1;
    }
    proof {
        assert(s@.take(n as int) =~= s@);
    }
}

/// Appends a JSON string literal denoting `s`, quotes and all.
pub fn append_quoted(out: &mut String, s: &str)
    ensures
        final(out)@ == old(out)@ + json_quote(s@),
{
    push_char(out, '"');
    append_escaped(out, s);
    push_char(out, '"');
    proof {
        assert(out@ =~= old(out)@ + json_quote(s@));
    }
}

} // verus!
