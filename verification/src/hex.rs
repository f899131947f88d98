//! Lowercase hex encoding and case-insensitive hex decoding (the `hex` crate), specified exactly,
//! with the byte-sequence helpers the wire formats are assembled from.

use vstd::prelude::*;

verus! {

/// The lowercase hex digit for a nibble `n < 16`.
pub open spec fn hex_digit(n: int) -> char {
    if n < 10 {
        ((48 + n) as u8) as char
    } else {
        ((87 + n) as u8) as char
    }
}

/// The value of a hex digit of either case.
pub open spec fn hex_value(c: char) -> Option<int> {
    if '0' <= c <= '9' {
        Some(c as int - 48)
    } else if 'a' <= c <= 'f' {
        Some(c as int - 87)
    } else if 'A' <= c <= 'F' {
        Some(c as int - 55)
    } else {
        None
    }
}

pub open spec fn is_hex_char(c: char) -> bool {
    hex_value(c) is Some
}

/// `hex::encode`: two lowercase digits per byte, high nibble first.
pub open spec fn hex_encode(b: Seq<u8>) -> Seq<char> {
    Seq::new(
        2 * b.len(),
        |i: int|
            if i % 2 == 0 {
                hex_digit(b[i / 2] as int / 16)
            } else {
                hex_digit(b[i / 2] as int % 16)
            },
    )
}

/// Whether `hex::decode` accepts `s`: an even number of hex digits of either case.
pub open spec fn hex_valid(s: Seq<char>) -> bool {
    s.len() % 2 == 0 && forall|i: int| 0 <= i < s.len() ==> is_hex_char(#[trigger] s[i])
}

/// `hex::decode`: the bytes spelled by consecutive digit pairs, or `None` when refused.
pub open spec fn hex_decode(s: Seq<char>) -> Option<Seq<u8>> {
    if hex_valid(s) {
        Some(
            Seq::new(
                s.len() / 2,
                |i: int| (hex_value(s[2 * i])->0 * 16 + hex_value(s[2 * i + 1])->0) as u8,
            ),
        )
    } else {
        None
    }
}

/// Decoding inverts encoding.
pub proof fn lemma_hex_roundtrip(b: Seq<u8>)
    ensures
        hex_decode(hex_encode(b)) == Some(b),
{
    let s = hex_encode(b);
    assert forall|i: int| 0 <= i < s.len() implies is_hex_char(#[trigger] s[i]) by {
        let v = b[i / 2];
        assert(v / 16 < 16);
        assert(v % 16 < 16);
    }
    let d = hex_decode(s)->0;
    assert forall|j: int| 0 <= j < b.len() implies #[trigger] d[j] == b[j] by {
        assert((2 * j) / 2 == j);
        assert((2 * j + 1) / 2 == j);
        assert((2 * j) % 2 == 0);
        assert((2 * j + 1) % 2 == 1);
        let v = b[j];
        assert(hex_value(hex_digit(v as int / 16))->0 == v as int / 16);
        assert(hex_value(hex_digit(v as int % 16))->0 == v as int % 16);
        assert((v / 16) * 16 + v % 16 == v);
    }
    assert(d =~= b);
}

/// Every character of an encoding is a lowercase hex digit (so it is never whitespace, `x` or
/// upper case).
pub proof fn lemma_hex_encode_chars(b: Seq<u8>, i: int)
    requires
        0 <= i < hex_encode(b).len(),
    ensures
        ('0' <= hex_encode(b)[i] <= '9') || ('a' <= hex_encode(b)[i] <= 'f'),
{
    let v = b[i / 2];
    assert(v / 16 < 16);
    assert(v % 16 < 16);
}

/// `hex::encode`.
#[verifier::external_body]
pub fn encode_hex(bytes: &[u8]) -> (r: String)
    ensures
        r@ == hex_encode(bytes@),
{
    hex::encode(bytes)
}

/// The display text of the `hex` crate's error for refused input; it depends on the input alone.
pub uninterp spec fn hex_error_text(s: Seq<char>) -> Seq<char>;

/// `hex::decode` on the text of `s`; a refusal carries the crate's error text.
#[verifier::external_body]
pub fn decode_hex(s: &str) -> (r: Result<Vec<u8>, String>)
    ensures
        r is Ok <==> hex_decode(s@) is Some,
        r matches Ok(v) ==> Some(v@) == hex_decode(s@),
        r matches Err(e) ==> e@ == hex_error_text(s@),
{
    hex::decode(s).map_err(|e| e.to_string())
}

/// Appends `tail` to `out`.
pub fn extend_bytes(out: &mut Vec<u8>, tail: &[u8])
    ensures
        final(out)@ == old(out)@ + tail@,
{
    let mut i: usize = 0;
    while i < tail.len()
        invariant
            i <= tail@.len(),
            out@ == old(out)@ + tail@.subrange(0, i as int),
        decreases tail@.len() - i,
    {
        out.push(tail[i]);
        i = i + 1;
        proof {
            assert(tail@.subrange(0, i as int) =~= tail@.subrange(0, i - 1).push(tail@[i - 1]));
        }
    }
    proof {
        assert(tail@.subrange(0, tail@.len() as int) =~= tail@);
    }
}

/// The bytes `from..to` of `b` as a fresh vector.
pub fn byte_range(b: &[u8], from: usize, to: usize) -> (r: Vec<u8>)
    requires
        from <= to <= b@.len(),
    ensures
        r@ == b@.subrange(from as int, to as int),
{
    let mut out: Vec<u8> = Vec::new();
    let mut i: usize = from;
    while i < to
        invariant
            from <= i <= to <= b@.len(),
            out@ == b@.subrange(from as int, i as int),
        decreases to - i,
    {
        out.push(b[i]);
        i = i + 1;
        proof {
            assert(b@.subrange(from as int, i as int) =~= b@.subrange(from as int, i - 1).push(
                b@[i - 1],
            ));
        }
    }
    out
}

/// The first 64 bytes of `b` as an array.
pub fn array64(b: &[u8]) -> (r: [u8; 64])
    requires
        b@.len() >= 64,
    ensures
        r@ == b@.subrange(0, 64),
{
    let mut out = [0u8; 64];
    let mut i: usize = 0;
    while i < 64
        invariant
            b@.len() >= 64,
            i <= 64,
            forall|j: int| 0 <= j < i ==> out@[j] == b@[j],
        decreases 64 - i,
    {
        out[i] = b[i];
        i = i + 1;
    }
    proof {
        assert(out@ =~= b@.subrange(0, 64));
    }
    out
}

/// The first 32 bytes of `b` as an array.
pub fn array32(b: &[u8]) -> (r: [u8; 32])
    requires
        b@.len() >= 32,
    ensures
        r@ == b@.subrange(0, 32),
{
    let mut out = [0u8; 32];
    let mut i: usize = 0;
    while i < 32
        invariant
            b@.len() >= 32,
            i <= 32,
            forall|j: int| 0 <= j < i ==> out@[j] == b@[j],
        decreases 32 - i,
    {
        out[i] = b[i];
        i = i + 1;
    }
    proof {
        assert(out@ =~= b@.subrange(0, 32));
    }
    out
}

/// Byte-wise equality.
pub fn bytes_eq(a: &[u8], b: &[u8]) -> (r: bool)
    ensures
        r == (a@ == b@),
{
    if a.len() != b.len() {
        return false;
    }
    let mut i: usize = 0;
    while i < a.len()
        invariant
            a@.len() == b@.len(),
            i <= a@.len(),
            forall|j: int| 0 <= j < i ==> a@[j] == b@[j],
        decreases a@.len() - i,
    {
        if a[i] != b[i] {
            return false;
        }
        i = i + 1;
    }
    proof {
        assert(a@ =~= b@);
    }
    true
}

} // verus!
