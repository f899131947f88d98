//! JSON documents as the attestation and receipt logic reads them, and their canonical form:
//! compact JSON with object members ordered by the UTF-8 bytes of their keys and only integer
//! numbers.

use vstd::prelude::*;
use crate::json::{json_quote, json_quoted};
use crate::text::{decimal, push_char, push_decimal, str_eq};
use crate::openai::opt_view;

verus! {

/// A parsed JSON value. Numbers are kept only as far as the logic reads them: integers exactly,
/// any other number as `Fraction`.
#[derive(Debug)]
pub enum JsonValue {
    Null,
    Bool(bool),
    /// A non-negative integer that fits in 64 bits.
    Unsigned(u64),
    /// A negative integer that fits in 64 bits.
    Negative(i64),
    /// A number with a fraction or exponent, or an integer outside the 64-bit ranges.
    Fraction,
    Str(String),
    Array(Vec<JsonValue>),
    Object(Vec<(String, JsonValue)>),
}

/// serde_json's dynamic value, carried only through the parse.
#[verifier::external_type_specification]
#[verifier::external_body]
pub struct ExSerdeValue(serde_json::Value);

/// The value of the first member named `key`.
pub open spec fn member_of(ms: Seq<(String, JsonValue)>, key: Seq<char>) -> Option<JsonValue>
    decreases ms.len(),
{
    if ms.len() == 0 {
        None
    } else if ms[0].0@ == key {
        Some(ms[0].1)
    } else {
        member_of(ms.drop_first(), key)
    }
}

impl JsonValue {
    /// The member `key` of an object.
    pub open spec fn field(self, key: Seq<char>) -> Option<JsonValue> {
        match self {
            JsonValue::Object(ms) => member_of(ms@, key),
            _ => None,
        }
    }

    pub open spec fn text(self) -> Option<Seq<char>> {
        match self {
            JsonValue::Str(s) => Some(s@),
            _ => None,
        }
    }

    pub open spec fn unsigned(self) -> Option<u64> {
        match self {
            JsonValue::Unsigned(n) => Some(n),
            _ => None,
        }
    }

    pub open spec fn boolean(self) -> Option<bool> {
        match self {
            JsonValue::Bool(b) => Some(b),
            _ => None,
        }
    }

    pub open spec fn items(self) -> Option<Seq<JsonValue>> {
        match self {
            JsonValue::Array(v) => Some(v@),
            _ => None,
        }
    }

    pub open spec fn members(self) -> Option<Seq<(String, JsonValue)>> {
        match self {
            JsonValue::Object(ms) => Some(ms@),
            _ => None,
        }
    }

    /// The text of member `key`, when it is a string.
    pub open spec fn field_text(self, key: Seq<char>) -> Option<Seq<char>> {
        match self.field(key) {
            Some(v) => v.text(),
            None => None,
        }
    }

    /// The integer of member `key`, when it is a non-negative integer.
    pub open spec fn field_unsigned(self, key: Seq<char>) -> Option<u64> {
        match self.field(key) {
            Some(v) => v.unsigned(),
            None => None,
        }
    }

    /// The member `key` of an object.
    pub fn get(&self, key: &str) -> (r: Option<&JsonValue>)
        ensures
            match self.field(key@) {
                Some(v) => r matches Some(x) && *x == v,
                None => r is None,
            },
    {
        match self {
            JsonValue::Object(ms) => {
                let mut i: usize = 0;
                proof {
                    assert(ms@.subrange(0, ms@.len() as int) =~= ms@);
                }
                while i < ms.len()
                    invariant
                        i <= ms@.len(),
                        self.field(key@) == member_of(ms@, key@),
                        member_of(ms@.subrange(i as int, ms@.len() as int), key@) == member_of(
                            ms@,
                            key@,
                        ),
                    decreases ms@.len() - i,
                {
                    let ghost rest = ms@.subrange(i as int, ms@.len() as int);
                    if str_eq(ms[i].0.as_str(), key) {
                        proof {
                            assert(rest[0] == ms@[i as int]);
                            assert(member_of(rest, key@) == Some(ms@[i as int].1));
                        }
                        return Some(&ms[i].1);
                    }
                    proof {
                        assert(rest.drop_first() =~= ms@.subrange(i + 1, ms@.len() as int));
                    }
                    i = i + 1;
                }
                None
            },
            _ => None,
        }
    }

    pub fn as_str(&self) -> (r: Option<&String>)
        ensures
            match self.text() {
                Some(t) => r matches Some(s) && s@ == t,
                None => r is None,
            },
    {
        match self {
            JsonValue::Str(s) => Some(s),
            _ => None,
        }
    }

    pub fn as_u64(&self) -> (r: Option<u64>)
        ensures
            r == self.unsigned(),
    {
        match self {
            JsonValue::Unsigned(n) => Some(*n),
            _ => None,
        }
    }

    pub fn as_bool(&self) -> (r: Option<bool>)
        ensures
            r == self.boolean(),
    {
        match self {
            JsonValue::Bool(b) => Some(*b),
            _ => None,
        }
    }

    pub fn as_array(&self) -> (r: Option<&Vec<JsonValue>>)
        ensures
            match self.items() {
                Some(t) => r matches Some(v) && v@ == t,
                None => r is None,
            },
    {
        match self {
            JsonValue::Array(v) => Some(v),
            _ => None,
        }
    }

    pub fn as_object(&self) -> (r: Option<&Vec<(String, JsonValue)>>)
        ensures
            match self.members() {
                Some(t) => r matches Some(v) && v@ == t,
                None => r is None,
            },
    {
        match self {
            JsonValue::Object(v) => Some(v),
            _ => None,
        }
    }

    /// The string member `key`, if there is one.
    pub fn get_str(&self, key: &str) -> (r: Option<&String>)
        ensures
            match self.field_text(key@) {
                Some(t) => r matches Some(s) && s@ == t,
                None => r is None,
            },
    {
        match self.get(key) {
            Some(v) => v.as_str(),
            None => None,
        }
    }

    /// The non-negative integer member `key`, if there is one.
    pub fn get_u64(&self, key: &str) -> (r: Option<u64>)
        ensures
            r == self.field_unsigned(key@),
    {
        match self.get(key) {
            Some(v) => v.as_u64(),
            None => None,
        }
    }
}


// ---- canonical form ----

/// Strict lexicographic order of byte strings, the order of Rust's `String`.
pub open spec fn bytes_lt(a: Seq<u8>, b: Seq<u8>) -> bool
    decreases a.len(),
{
    if b.len() == 0 {
        false
    } else if a.len() == 0 {
        true
    } else if a[0] != b[0] {
        a[0] < b[0]
    } else {
        bytes_lt(a.drop_first(), b.drop_first())
    }
}

/// Object keys are ordered by their UTF-8 bytes.
pub open spec fn key_lt(a: Seq<char>, b: Seq<char>) -> bool {
    bytes_lt(vstd::utf8::encode_utf8(a), vstd::utf8::encode_utf8(b))
}

/// Whether key `a` sorts strictly before key `b`.
pub fn key_less(a: &str, b: &str) -> (r: bool)
    ensures
        r == key_lt(a@, b@),
{
    let x = a.as_bytes();
    let y = b.as_bytes();
    let mut i: usize = 0;
    proof {
        assert(x@.subrange(0, x@.len() as int) =~= x@);
        assert(y@.subrange(0, y@.len() as int) =~= y@);
    }
    while i < x.len() && i < y.len()
        invariant
            x@ == vstd::utf8::encode_utf8(a@),
            y@ == vstd::utf8::encode_utf8(b@),
            i <= x@.len(),
            i <= y@.len(),
            bytes_lt(x@.subrange(i as int, x@.len() as int), y@.subrange(i as int, y@.len() as int))
                == bytes_lt(x@, y@),
        decreases x@.len() - i,
    {
        let ghost xs = x@.subrange(i as int, x@.len() as int);
        let ghost ys = y@.subrange(i as int, y@.len() as int);
        if x[i] != y[i] {
            proof {
                assert(xs[0] == x@[i as int]);
                assert(ys[0] == y@[i as int]);
            }
            return x[i] < y[i];
        }
        proof {
            assert(xs.drop_first() =~= x@.subrange(i + 1, x@.len() as int));
            assert(ys.drop_first() =~= y@.subrange(i + 1, y@.len() as int));
        }
        i = i + 1;
    }
    i == x.len() && i < y.len()
}

/// Inserts a (key, text) member after every member whose key does not sort after it.
pub open spec fn insert_member(m: (Seq<char>, Seq<char>), s: Seq<(Seq<char>, Seq<char>)>) -> Seq<
    (Seq<char>, Seq<char>),
>
    decreases s.len(),
{
    if s.len() == 0 {
        seq![m]
    } else if key_lt(m.0, s[0].0) {
        seq![m] + s
    } else {
        seq![s[0]] + insert_member(m, s.drop_first())
    }
}

/// The members ordered by key (equal keys keep their order).
pub open spec fn sort_members(ms: Seq<(Seq<char>, Seq<char>)>) -> Seq<(Seq<char>, Seq<char>)>
    decreases ms.len(),
{
    if ms.len() == 0 {
        Seq::empty()
    } else {
        insert_member(ms.last(), sort_members(ms.drop_last()))
    }
}

/// The place `insert_member` puts `m`: before the first member whose key sorts after it.
pub open spec fn insert_position(m: (Seq<char>, Seq<char>), s: Seq<(Seq<char>, Seq<char>)>) -> int
    decreases s.len(),
{
    if s.len() == 0 {
        0
    } else if key_lt(m.0, s[0].0) {
        0
    } else {
        1 + insert_position(m, s.drop_first())
    }
}

proof fn lemma_insert_member(m: (Seq<char>, Seq<char>), s: Seq<(Seq<char>, Seq<char>)>)
    ensures
        0 <= insert_position(m, s) <= s.len(),
        insert_member(m, s) == s.take(insert_position(m, s)) + seq![m] + s.skip(
            insert_position(m, s),
        ),
        forall|j: int| 0 <= j < insert_position(m, s) ==> !key_lt(m.0, #[trigger] s[j].0),
        insert_position(m, s) < s.len() ==> key_lt(m.0, s[insert_position(m, s)].0),
    decreases s.len(),
{
    if s.len() > 0 && !key_lt(m.0, s[0].0) {
        lemma_insert_member(m, s.drop_first());
        let p = insert_position(m, s.drop_first());
        assert(s.take(p + 1) =~= seq![s[0]] + s.drop_first().take(p));
        assert(s.skip(p + 1) =~= s.drop_first().skip(p));
        assert forall|j: int| 0 <= j < p + 1 implies !key_lt(m.0, #[trigger] s[j].0) by {
            if j > 0 {
                assert(s[j] == s.drop_first()[j - 1]);
            }
        }
    } else if s.len() > 0 {
        assert(s.take(0) =~= Seq::<(Seq<char>, Seq<char>)>::empty());
        assert(s.skip(0) =~= s);
    } else {
        assert(s.take(0) =~= Seq::<(Seq<char>, Seq<char>)>::empty());
        assert(s.skip(0) =~= s);
    }
}

pub open spec fn pair_views(v: Seq<(String, String)>) -> Seq<(Seq<char>, Seq<char>)> {
    v.map_values(|p: (String, String)| (p.0@, p.1@))
}

/// Orders (key, text) members by key, as `sort_members` does.
fn sort_pairs(ms: Vec<(String, String)>) -> (r: Vec<(String, String)>)
    ensures
        pair_views(r@) == sort_members(pair_views(ms@)),
{
    let mut out: Vec<(String, String)> = Vec::new();
    let mut rest = ms;
    let ghost all = pair_views(rest@);
    let mut i: usize = 0;
    let n = rest.len();
    proof {
        assert(all.take(0) =~= Seq::<(Seq<char>, Seq<char>)>::empty());
    }
    while i < n
        invariant
            n == rest@.len(),
            all == pair_views(rest@),
            i <= n,
            pair_views(out@) == sort_members(all.take(i as int)),
        decreases n - i,
    {
        let ghost m = all[i as int];
        let ghost before = pair_views(out@);
        let key = rest[i].0.clone();
        let text = rest[i].1.clone();
        let mut p: usize = 0;
        while p < out.len() && !key_less(key.as_str(), out[p].0.as_str())
            invariant
                p <= out@.len(),
                key@ == m.0,
                before == pair_views(out@),
                forall|j: int| 0 <= j < p ==> !key_lt(m.0, #[trigger] before[j].0),
            decreases out@.len() - p,
        {
            p = p + 1;
        }
        proof {
            lemma_insert_member(m, before);
            let q = insert_position(m, before);
            if p < q {
                assert(key_lt(m.0, before[p as int].0));
                assert(!key_lt(m.0, before[p as int].0));
            }
            if q < p {
                assert(!key_lt(m.0, before[q].0));
            }
            assert(p == q);
        }
        out.insert(p, (key, text));
        proof {
            assert(all.take(i + 1).drop_last() =~= all.take(i as int));
            assert(all.take(i + 1).last() == m);
            assert(pair_views(out@) =~= before.take(p as int) + seq![m] + before.skip(p as int));
        }
        i = i + 1;
    }
    proof {
        assert(all.take(n as int) =~= all);
    }
    out
}


/// `,`-separated texts.
pub open spec fn comma_joined(ts: Seq<Seq<char>>) -> Seq<char>
    decreases ts.len(),
{
    if ts.len() == 0 {
        Seq::empty()
    } else if ts.len() == 1 {
        ts[0]
    } else {
        comma_joined(ts.drop_last()) + seq![','] + ts.last()
    }
}

/// `"key":text` for each member.
pub open spec fn member_texts_joined(ps: Seq<(Seq<char>, Seq<char>)>) -> Seq<char> {
    comma_joined(ps.map_values(|p: (Seq<char>, Seq<char>)| json_quoted(p.0) + seq![':'] + p.1))
}

/// The canonical text of a value: compact JSON with object members ordered by key; `None` when
/// the value holds a number that is not an integer.
pub open spec fn canonical(v: JsonValue) -> Option<Seq<char>>
    decreases v,
{
    match v {
        JsonValue::Null => Some(seq!['n', 'u', 'l', 'l']),
        JsonValue::Bool(b) => Some(
            if b {
                seq!['t', 'r', 'u', 'e']
            } else {
                seq!['f', 'a', 'l', 's', 'e']
            },
        ),
        JsonValue::Unsigned(n) => Some(decimal(n as nat)),
        JsonValue::Negative(n) => Some(
            if n < 0 {
                seq!['-'] + decimal((0 - n) as nat)
            } else {
                decimal(n as nat)
            },
        ),
        JsonValue::Fraction => None,
        JsonValue::Str(s) => Some(json_quoted(s@)),
        JsonValue::Array(items) => match item_texts(items@) {
            Some(ts) => Some(seq!['['] + comma_joined(ts) + seq![']']),
            None => None,
        },
        JsonValue::Object(ms) => match member_texts(ms@) {
            Some(ps) => Some(seq!['{'] + member_texts_joined(sort_members(ps)) + seq!['}']),
            None => None,
        },
    }
}

/// The canonical texts of the items, or `None` when one has none.
pub open spec fn item_texts(items: Seq<JsonValue>) -> Option<Seq<Seq<char>>>
    decreases items,
{
    if items.len() == 0 {
        Some(Seq::empty())
    } else {
        match item_texts(items.drop_last()) {
            Some(ts) => match canonical(items.last()) {
                Some(t) => Some(ts.push(t)),
                None => None,
            },
            None => None,
        }
    }
}

/// Each member's key with the canonical text of its value, in the given order.
pub open spec fn member_texts(ms: Seq<(String, JsonValue)>) -> Option<Seq<(Seq<char>, Seq<char>)>>
    decreases ms,
{
    if ms.len() == 0 {
        Some(Seq::empty())
    } else {
        match member_texts(ms.drop_last()) {
            Some(ps) => match canonical(ms.last().1) {
                Some(t) => Some(ps.push((ms.last().0@, t))),
                None => None,
            },
            None => None,
        }
    }
}


proof fn lemma_item_texts_prefix(items: Seq<JsonValue>, k: int)
    requires
        0 <= k <= items.len(),
        item_texts(items.take(k)) is None,
    ensures
        item_texts(items) is None,
    decreases items.len() - k,
{
    if k < items.len() {
        let t = items.take(k + 1);
        assert(t.drop_last() =~= items.take(k));
        lemma_item_texts_prefix(items, k + 1);
    } else {
        assert(items.take(k) =~= items);
    }
}

proof fn lemma_member_texts_prefix(ms: Seq<(String, JsonValue)>, k: int)
    requires
        0 <= k <= ms.len(),
        member_texts(ms.take(k)) is None,
    ensures
        member_texts(ms) is None,
    decreases ms.len() - k,
{
    if k < ms.len() {
        let t = ms.take(k + 1);
        assert(t.drop_last() =~= ms.take(k));
        lemma_member_texts_prefix(ms, k + 1);
    } else {
        assert(ms.take(k) =~= ms);
    }
}

pub open spec fn string_views_of(v: Seq<String>) -> Seq<Seq<char>> {
    v.map_values(|s: String| s@)
}

/// Appends the texts, `,`-separated.
fn push_joined(out: &mut String, texts: &Vec<String>)
    ensures
        final(out)@ == old(out)@ + comma_joined(string_views_of(texts@)),
{
    let ghost start = out@;
    let mut i: usize = 0;
    proof {
        assert(string_views_of(texts@).take(0) =~= Seq::<Seq<char>>::empty());
        assert(out@ =~= start + comma_joined(string_views_of(texts@).take(0)));
    }
    while i < texts.len()
        invariant
            i <= texts@.len(),
            out@ == start + comma_joined(string_views_of(texts@).take(i as int)),
        decreases texts@.len() - i,
    {
        let ghost before = out@;
        if i > 0 {
            push_char(out, ',');
        }
        out.append(texts[i].as_str());
        proof {
            let all = string_views_of(texts@);
            let cur = all.take(i + 1);
            assert(cur.drop_last() =~= all.take(i as int));
            assert(cur.last() == texts@[i as int]@);
            if i == 0 {
                assert(out@ =~= start + comma_joined(cur));
            } else {
                assert(out@ =~= before + seq![','] + cur.last());
                assert(out@ =~= start + comma_joined(cur));
            }
        }
        i = i + 1;
    }
    proof {
        assert(string_views_of(texts@).take(texts@.len() as int) =~= string_views_of(texts@));
    }
}

/// Appends `"key":text` for each member, `,`-separated.
fn push_members(out: &mut String, pairs: &Vec<(String, String)>)
    ensures
        final(out)@ == old(out)@ + member_texts_joined(pair_views(pairs@)),
{
    let mut texts: Vec<String> = Vec::new();
    let mut i: usize = 0;
    let ghost f = |p: (Seq<char>, Seq<char>)| json_quoted(p.0) + seq![':'] + p.1;
    while i < pairs.len()
        invariant
            i <= pairs@.len(),
            f == (|p: (Seq<char>, Seq<char>)| json_quoted(p.0) + seq![':'] + p.1),
            string_views_of(texts@) == pair_views(pairs@).take(i as int).map_values(f),
        decreases pairs@.len() - i,
    {
        let mut t = json_quote(pairs[i].0.as_str());
        push_char(&mut t, ':');
        t.append(pairs[i].1.as_str());
        let ghost before = string_views_of(texts@);
        texts.push(t);
        proof {
            let ps = pair_views(pairs@);
            assert(ps[i as int] == (pairs@[i as int].0@, pairs@[i as int].1@));
            assert(t@ =~= f(ps[i as int]));
            assert(ps.take(i + 1) =~= ps.take(i as int).push(ps[i as int]));
            assert(string_views_of(texts@) =~= before.push(t@));
            assert(ps.take(i + 1).map_values(f) =~= ps.take(i as int).map_values(f).push(
                f(ps[i as int]),
            ));
        }
        i = i + 1;
    }
    proof {
        assert(pair_views(pairs@).take(pairs@.len() as int) =~= pair_views(pairs@));
    }
    push_joined(out, &texts);
}

/// The canonical text of a value (see `canonical`).
pub fn canonical_text(v: &JsonValue) -> (r: Option<String>)
    ensures
        opt_view(r) == canonical(*v),
    decreases v,
{
    match v {
        JsonValue::Null => {
            proof {
                reveal_strlit("null");
            }
            Some(String::from_str("null"))
        },
        JsonValue::Bool(b) => {
            proof {
                reveal_strlit("true");
                reveal_strlit("false");
            }
            if *b {
                Some(String::from_str("true"))
            } else {
                Some(String::from_str("false"))
            }
        },
        JsonValue::Unsigned(n) => {
            let mut out = String::new();
            push_decimal(&mut out, *n);
            Some(out)
        },
        JsonValue::Negative(n) => {
            let mut out = String::new();
            if *n < 0 {
                push_char(&mut out, '-');
                let m: u64 = if *n == i64::MIN {
                    9223372036854775808u64
                } else {
                    (0 - *n) as u64
                };
                push_decimal(&mut out, m);
            } else {
                push_decimal(&mut out, *n as u64);
            }
            Some(out)
        },
        JsonValue::Fraction => None,
        JsonValue::Str(s) => Some(json_quote(s.as_str())),
        JsonValue::Array(items) => {
            let mut texts: Vec<String> = Vec::new();
            let mut i: usize = 0;
            proof {
                assert(items@.take(0) =~= Seq::<JsonValue>::empty());
            }
            while i < items.len()
                invariant
                    *v == JsonValue::Array(*items),
                    i <= items@.len(),
                    item_texts(items@.take(i as int)) == Some(string_views_of(texts@)),
                decreases items@.len() - i,
            {
                proof {
                    assert(decreases_to!(*v => items@[i as int]));
                }
                let t = canonical_text(&items[i]);
                let ghost cur = items@.take(i + 1);
                proof {
                    assert(cur.drop_last() =~= items@.take(i as int));
                    assert(cur.last() == items@[i as int]);
                }
                match t {
                    Some(t) => {
                        let ghost before = string_views_of(texts@);
                        texts.push(t);
                        proof {
                            assert(string_views_of(texts@) =~= before.push(t@));
                        }
                    },
                    None => {
                        proof {
                            lemma_item_texts_prefix(items@, i + 1);
                        }
                        return None;
                    },
                }
                i = i + 1;
            }
            proof {
                assert(items@.take(items@.len() as int) =~= items@);
            }
            let mut out = String::new();
            push_char(&mut out, '[');
            push_joined(&mut out, &texts);
            push_char(&mut out, ']');
            Some(out)
        },
        JsonValue::Object(ms) => {
            let mut pairs: Vec<(String, String)> = Vec::new();
            let mut i: usize = 0;
            proof {
                assert(ms@.take(0) =~= Seq::<(String, JsonValue)>::empty());
            }
            while i < ms.len()
                invariant
                    *v == JsonValue::Object(*ms),
                    i <= ms@.len(),
                    member_texts(ms@.take(i as int)) == Some(pair_views(pairs@)),
                decreases ms@.len() - i,
            {
                proof {
                    assert(decreases_to!(*v => ms@[i as int].1));
                }
                let t = canonical_text(&ms[i].1);
                let ghost cur = ms@.take(i + 1);
                proof {
                    assert(cur.drop_last() =~= ms@.take(i as int));
                    assert(cur.last() == ms@[i as int]);
                }
                match t {
                    Some(t) => {
                        let ghost before = pair_views(pairs@);
                        let key = ms[i].0.clone();
                        pairs.push((key, t));
                        proof {
                            assert(pair_views(pairs@) =~= before.push((ms@[i as int].0@, t@)));
                        }
                    },
                    None => {
                        proof {
                            lemma_member_texts_prefix(ms@, i + 1);
                        }
                        return None;
                    },
                }
                i = i + 1;
            }
            proof {
                assert(ms@.take(ms@.len() as int) =~= ms@);
            }
            let sorted = sort_pairs(pairs);
            let mut out = String::new();
            push_char(&mut out, '{');
            push_members(&mut out, &sorted);
            push_char(&mut out, '}');
            Some(out)
        },
    }
}


/// The members other than those named `key`.
pub open spec fn without_key(ms: Seq<(String, JsonValue)>, key: Seq<char>) -> Seq<(String, JsonValue)>
    decreases ms.len(),
{
    if ms.len() == 0 {
        Seq::empty()
    } else if ms.last().0@ == key {
        without_key(ms.drop_last(), key)
    } else {
        without_key(ms.drop_last(), key).push(ms.last())
    }
}

/// The canonical text of an object with the given members.
pub open spec fn object_canonical(ms: Seq<(String, JsonValue)>) -> Option<Seq<char>> {
    match member_texts(ms) {
        Some(ps) => Some(seq!['{'] + member_texts_joined(sort_members(ps)) + seq!['}']),
        None => None,
    }
}

proof fn lemma_member_texts_without_prefix(ms: Seq<(String, JsonValue)>, key: Seq<char>, k: int)
    requires
        0 <= k <= ms.len(),
        member_texts(without_key(ms.take(k), key)) is None,
    ensures
        member_texts(without_key(ms, key)) is None,
    decreases ms.len() - k,
{
    if k < ms.len() {
        let t = ms.take(k + 1);
        assert(t.drop_last() =~= ms.take(k));
        if t.last().0@ != key {
            assert(without_key(t, key).drop_last() =~= without_key(ms.take(k), key));
        }
        lemma_member_texts_without_prefix(ms, key, k + 1);
    } else {
        assert(ms.take(k) =~= ms);
    }
}

/// The canonical text of the object `ms` without its members named `skip`.
pub fn canonical_object_without(ms: &Vec<(String, JsonValue)>, skip: &str) -> (r: Option<String>)
    ensures
        opt_view(r) == object_canonical(without_key(ms@, skip@)),
{
    let mut pairs: Vec<(String, String)> = Vec::new();
    let mut i: usize = 0;
    proof {
        assert(ms@.take(0) =~= Seq::<(String, JsonValue)>::empty());
    }
    while i < ms.len()
        invariant
            i <= ms@.len(),
            member_texts(without_key(ms@.take(i as int), skip@)) == Some(pair_views(pairs@)),
        decreases ms@.len() - i,
    {
        let ghost cur = ms@.take(i + 1);
        proof {
            assert(cur.drop_last() =~= ms@.take(i as int));
            assert(cur.last() == ms@[i as int]);
        }
        if str_eq(ms[i].0.as_str(), skip) {
            i = i + 1;
            continue;
        }
        let t = canonical_text(&ms[i].1);
        proof {
            assert(without_key(cur, skip@).drop_last() =~= without_key(ms@.take(i as int), skip@));
            assert(without_key(cur, skip@).last() == ms@[i as int]);
        }
        match t {
            Some(t) => {
                let ghost before = pair_views(pairs@);
                let key = ms[i].0.clone();
                pairs.push((key, t));
                proof {
                    assert(pair_views(pairs@) =~= before.push((ms@[i as int].0@, t@)));
                }
            },
            None => {
                proof {
                    lemma_member_texts_without_prefix(ms@, skip@, i + 1);
                }
                return None;
            },
        }
        i = i + 1;
    }
    proof {
        assert(ms@.take(ms@.len() as int) =~= ms@);
    }
    let sorted = sort_pairs(pairs);
    let mut out = String::new();
    push_char(&mut out, '{');
    push_members(&mut out, &sorted);
    push_char(&mut out, '}');
    Some(out)
}


// ---- wrapped attestation reports ----

/// One top-level member merged into a report: added unless it is the wrapper list or the report
/// already has it.
pub open spec fn merge_member(acc: Seq<(String, JsonValue)>, m: (String, JsonValue)) -> Seq<
    (String, JsonValue),
> {
    if m.0@ == "model_attestations"@ || member_of(acc, m.0@) is Some {
        acc
    } else {
        acc.push(m)
    }
}

pub open spec fn merge_members(acc: Seq<(String, JsonValue)>, top: Seq<(String, JsonValue)>) -> Seq<
    (String, JsonValue),
>
    decreases top.len(),
{
    if top.len() == 0 {
        acc
    } else {
        merge_members(merge_member(acc, top[0]), top.drop_first())
    }
}

/// The first wrapped report, when a report wraps per-model reports in a non-empty
/// `model_attestations` list.
pub open spec fn wrapped_report(v: JsonValue) -> Option<JsonValue> {
    match v.field("model_attestations"@) {
        Some(list) => match list.items() {
            Some(items) => if items.len() > 0 {
                Some(items[0])
            } else {
                None
            },
            None => None,
        },
        None => None,
    }
}

proof fn lemma_merge_skips_wrapper(acc: Seq<(String, JsonValue)>, top: Seq<(String, JsonValue)>, i: int)
    requires
        0 <= i < top.len(),
        top[i].0@ == "model_attestations"@,
    ensures
        merge_members(acc, top.remove(i)) == merge_members(acc, top),
    decreases i,
{
    if i == 0 {
        assert(top.remove(0) =~= top.drop_first());
    } else {
        let t = top.remove(i);
        assert(t[0] == top[0]);
        assert(t.drop_first() =~= top.drop_first().remove(i - 1));
        lemma_merge_skips_wrapper(merge_member(acc, top[0]), top.drop_first(), i - 1);
    }
}

fn has_member(ms: &Vec<(String, JsonValue)>, key: &str) -> (r: bool)
    ensures
        r == member_of(ms@, key@) is Some,
{
    let mut i: usize = 0;
    proof {
        assert(ms@.subrange(0, ms@.len() as int) =~= ms@);
    }
    while i < ms.len()
        invariant
            i <= ms@.len(),
            member_of(ms@.subrange(i as int, ms@.len() as int), key@) == member_of(ms@, key@),
        decreases ms@.len() - i,
    {
        let ghost rest = ms@.subrange(i as int, ms@.len() as int);
        if str_eq(ms[i].0.as_str(), key) {
            proof {
                assert(rest[0] == ms@[i as int]);
            }
            return true;
        }
        proof {
            assert(rest.drop_first() =~= ms@.subrange(i + 1, ms@.len() as int));
        }
        i = i + 1;
    }
    false
}

/// Unwraps a report that wraps per-model reports in `model_attestations`: the first wrapped
/// report, completed by the top-level members it lacks; any other report is returned as is.
pub fn normalize_report(value: JsonValue) -> (r: JsonValue)
    ensures
        match wrapped_report(value) {
            None => r == value,
            Some(first) => match first {
                JsonValue::Object(fm) => r.members() == Some(merge_members(fm@, value.members()->0)),
                _ => r == first,
            },
        },
{
    proof {
        reveal_strlit("model_attestations");
    }
    let wrapped = match value.get("model_attestations") {
        Some(list) => match list.as_array() {
            Some(items) => items.len() > 0,
            None => false,
        },
        None => false,
    };
    if !wrapped {
        return value;
    }
    let ghost original = value;
    let mut top = match value {
        JsonValue::Object(ms) => ms,
        _ => {
            return value;
        },
    };
    let mut i: usize = 0;
    proof {
        assert(top@.subrange(0, top@.len() as int) =~= top@);
    }
    while i < top.len() && !str_eq(top[i].0.as_str(), "model_attestations")
        invariant
            i <= top@.len(),
            member_of(top@.subrange(i as int, top@.len() as int), "model_attestations"@)
                == member_of(top@, "model_attestations"@),
        decreases top@.len() - i,
    {
        let ghost rest = top@.subrange(i as int, top@.len() as int);
        proof {
            assert(rest.drop_first() =~= top@.subrange(i + 1, top@.len() as int));
        }
        i = i + 1;
    }
    if i >= top.len() {
        proof {
            assert(top@.subrange(i as int, top@.len() as int) =~= Seq::<(String, JsonValue)>::empty());
        }
        return JsonValue::Object(top);
    }
    proof {
        let rest = top@.subrange(i as int, top@.len() as int);
        assert(rest[0] == top@[i as int]);
    }
    let ghost full = top@;
    let (_, list) = top.remove(i);
    let mut items = match list {
        JsonValue::Array(items) => items,
        _ => {
            return JsonValue::Null;
        },
    };
    if items.len() == 0 {
        return JsonValue::Null;
    }
    let first = items.remove(0);
    let mut merged = match first {
        JsonValue::Object(fm) => fm,
        other => {
            return other;
        },
    };
    let ghost start = merged@;
    let ghost rest_top = top@;
    proof {
        assert(rest_top =~= full.remove(i as int));
        lemma_merge_skips_wrapper(start, full, i as int);
    }
    let mut remaining = top;
    while remaining.len() > 0
        invariant
            merge_members(start, rest_top) == merge_members(merged@, remaining@),
        decreases remaining@.len(),
    {
        let ghost rem = remaining@;
        let m = remaining.remove(0);
        proof {
            assert(rem.remove(0) =~= rem.drop_first());
        }
        if !str_eq(m.0.as_str(), "model_attestations") && !has_member(&merged, m.0.as_str()) {
            merged.push(m);
        }
    }
    JsonValue::Object(merged)
}

/// What serde_json parses the bytes into, or `None` when it refuses them.
pub uninterp spec fn json_parsed(bytes: Seq<u8>) -> Option<JsonValue>;

/// The display text of serde_json's error for refused bytes.
pub uninterp spec fn json_error_text(bytes: Seq<u8>) -> Seq<char>;

/// Converts a serde_json value one for one.
#[verifier::external_body]
fn from_serde(v: &serde_json::Value) -> JsonValue {
    match v {
        serde_json::Value::Null => JsonValue::Null,
        serde_json::Value::Bool(b) => JsonValue::Bool(*b),
        serde_json::Value::Number(n) => match (n.as_u64(), n.as_i64()) {
            (Some(u), _) => JsonValue::Unsigned(u),
            (None, Some(i)) => JsonValue::Negative(i),
            (None, None) => JsonValue::Fraction,
        },
        serde_json::Value::String(s) => JsonValue::Str(s.clone()),
        serde_json::Value::Array(a) => JsonValue::Array(a.iter().map(from_serde).collect()),
        serde_json::Value::Object(m) => JsonValue::Object(
            m.iter().map(|(k, x)| (k.clone(), from_serde(x))).collect(),
        ),
    }
}

/// `serde_json::from_slice` into a dynamic value. The contract names the result and the error
/// text; both depend on the bytes alone.
#[verifier::external_body]
pub fn parse_json(bytes: &[u8]) -> (r: Result<JsonValue, String>)
    ensures
        r is Ok <==> json_parsed(bytes@) is Some,
        r matches Ok(v) ==> json_parsed(bytes@) == Some(v),
        r matches Err(e) ==> e@ == json_error_text(bytes@),
{
    match serde_json::from_slice::<serde_json::Value>(bytes) {
        Ok(v) => Ok(from_serde(&v)),
        Err(e) => Err(e.to_string()),
    }
}

} // verus!
