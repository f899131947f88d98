//! JSON text as serde_json writes it: string quoting and compact members.

use vstd::prelude::*;

verus! {

/// The escape of one character inside a JSON string, as serde_json writes it: `"` and `\` are
/// backslash-escaped, the five common control characters use their short escapes, other control
/// characters below 0x20 use `\u00XX` with lowercase hex, everything else is written as is.
pub open spec fn json_escape(c: char) -> Seq<char> {
    let v = c as u32;
    if c == '"' {
        seq!['\\', '"']
    } else if c == '\\' {
        seq!['\\', '\\']
    } else if v == 0x08 {
        seq!['\\', 'b']
    } else if v == 0x09 {
        seq!['\\', 't']
    } else if v == 0x0a {
        seq!['\\', 'n']
    } else if v == 0x0c {
        seq!['\\', 'f']
    } else if v == 0x0d {
        seq!['\\', 'r']
    } else if v < 0x20 {
        seq!['\\', 'u', '0', '0', crate::hex::hex_digit(v as int / 16), crate::hex::hex_digit(v as int % 16)]
    } else {
        seq![c]
    }
}

/// The escaped characters of `s`.
pub open spec fn json_escaped(s: Seq<char>) -> Seq<char>
    decreases s.len(),
{
    if s.len() == 0 {
        Seq::<char>::empty()
    } else {
        json_escaped(s.drop_last()) + json_escape(s.last())
    }
}

/// A JSON string literal for `s`.
pub open spec fn json_quoted(s: Seq<char>) -> Seq<char> {
    seq!['"'] + json_escaped(s) + seq!['"']
}

/// `serde_json::to_string` of a string: its quoted, escaped JSON literal.
#[verifier::external_body]
pub fn json_quote(s: &str) -> (r: String)
    ensures
        r@ == json_quoted(s@),
{
    serde_json::to_string(s).unwrap_or_default()
}

/// A JSON array of string literals, comma separated.
pub open spec fn json_string_array(items: Seq<Seq<char>>) -> Seq<char> {
    seq!['['] + json_joined(items) + seq![']']
}

pub open spec fn json_joined(items: Seq<Seq<char>>) -> Seq<char>
    decreases items.len(),
{
    if items.len() == 0 {
        Seq::<char>::empty()
    } else if items.len() == 1 {
        json_quoted(items[0])
    } else {
        json_joined(items.drop_last()) + seq![','] + json_quoted(items.last())
    }
}

pub open spec fn string_views(v: Seq<String>) -> Seq<Seq<char>> {
    v.map_values(|s: String| s@)
}

/// Appends the JSON array of the given strings.
pub fn push_string_array(out: &mut String, items: &[String])
    ensures
        final(out)@ == old(out)@ + json_string_array(string_views(items@)),
{
    out.append("[");
    let ghost start = out@;
    proof {
        reveal_strlit("[");
        reveal_strlit(",");
        reveal_strlit("]");
        assert(start == old(out)@ + seq!['[']);
        assert(out@ =~= start + json_joined(string_views(items@.subrange(0, 0))));
    }
    let mut i: usize = 0;
    while i < items.len()
        invariant
            i <= items@.len(),
            start == old(out)@ + seq!['['],
            ","@ == seq![','],
            out@ == start + json_joined(string_views(items@.subrange(0, i as int))),
        decreases items@.len() - i,
    {
        let q = json_quote(items[i].as_str());
        let ghost before = out@;
        if i > 0 {
            out.append(",");
        }
        out.append(q.as_str());
        i = i + 1;
        proof {
            let prev = string_views(items@.subrange(0, i - 1));
            let cur = string_views(items@.subrange(0, i as int));
            assert(cur.drop_last() =~= prev);
            assert(cur.last() == items@[i - 1]@);
            if i == 1 {
                assert(prev.len() == 0);
                assert(json_joined(prev) =~= Seq::<char>::empty());
                assert(out@ =~= start + json_joined(cur));
            } else {
                assert(out@ =~= before + seq![','] + json_quoted(items@[i - 1]@));
                assert(out@ =~= start + json_joined(cur));
            }
        }
    }
    let ghost body = out@;
    out.append("]");
    proof {
        assert(items@.subrange(0, items@.len() as int) =~= items@);
        assert(out@ =~= body + seq![']']);
    }
}

} // verus!
