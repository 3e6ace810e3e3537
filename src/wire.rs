use diesel::deserialize::FromSql;
use diesel::pg::types::sql_types::Record;
use diesel::pg::Pg;
use diesel::sql_types::Text;
use vstd::prelude::*;
use vstd::utf8::{encode_utf8, valid_utf8};

verus! {

/// The OID of the built-in `text` type.
pub const TEXT_OID: u32 = 25;

/// The largest length a field may have on the wire: lengths travel as signed 32-bit integers.
pub const MAX_FIELD_LEN: usize = 0x7fff_ffff;

/// Why a value could not be read back from its wire form.
#[derive(Debug, Clone, Copy, PartialEq, Eq, Structural)]
pub enum DecodeError {
    /// No bytes were given where a value is required.
    UnexpectedNull,
    /// The bytes do not have the expected shape.
    Malformed,
}

/// Why a value could not be written in its wire form.
#[derive(Debug, Clone, Copy, PartialEq, Eq, Structural)]
pub enum EncodeError {
    /// A field is longer than a wire length can say.
    FieldTooLong,
}

/// The unsigned big-endian integer held in the four bytes of `b` from `at`.
pub open spec fn be_u32_at(b: Seq<u8>, at: int) -> u32 {
    ((b[at] as u32) << 24u32) | ((b[at + 1] as u32) << 16u32) | ((b[at + 2] as u32) << 8u32) | (
    b[at + 3] as u32)
}

/// The signed (two's complement) big-endian integer held in the four bytes of `b` from `at`.
pub open spec fn be_i32_at(b: Seq<u8>, at: int) -> int {
    let u = be_u32_at(b, at);
    if u >= 0x8000_0000 {
        u - 0x1_0000_0000
    } else {
        u as int
    }
}

/// The four big-endian bytes of `v`.
pub open spec fn be_u32_bytes(v: u32) -> Seq<u8> {
    seq![(v >> 24u32) as u8, (v >> 16u32) as u8, (v >> 8u32) as u8, v as u8]
}

/// One field of a record: its type's OID, its length and its bytes.
pub open spec fn field_frame(oid: u32, payload: Seq<u8>) -> Seq<u8> {
    be_u32_bytes(oid) + be_u32_bytes(payload.len() as u32) + payload
}

/// A record of two present fields.
pub open spec fn pair_frame(oid0: u32, f0: Seq<u8>, oid1: u32, f1: Seq<u8>) -> Seq<u8> {
    be_u32_bytes(2) + field_frame(oid0, f0) + field_frame(oid1, f1)
}

/// Whether the field whose header starts at `at` stays inside `b`, where the header is there:
/// its length is either -1 (no value) or at most what follows the header.
pub open spec fn field_in_bounds(b: Seq<u8>, at: int) -> bool {
    b.len() >= at + 8 ==> {
        let n = be_i32_at(b, at + 4);
        n == -1 || (0 <= n && at + 8 + n <= b.len())
    }
}

/// Whether reading `b` as a record of two fields stays inside `b`.
pub open spec fn pair_in_bounds(b: Seq<u8>) -> bool {
    (b.len() >= 4 && be_i32_at(b, 0) == 2) ==> {
        &&& field_in_bounds(b, 4)
        &&& (b.len() >= 12 && be_i32_at(b, 8) >= 0) ==> field_in_bounds(b, 12 + be_i32_at(b, 8))
    }
}

/// The bytes of the two fields of `b`, where `b` is a record of exactly two present fields
/// with nothing after them.
pub open spec fn pair_payloads(b: Seq<u8>) -> Option<(Seq<u8>, Seq<u8>)> {
    if b.len() < 12 || be_i32_at(b, 0) != 2 {
        None
    } else {
        let n0 = be_i32_at(b, 8);
        if n0 < 0 || 20 + n0 > b.len() {
            None
        } else {
            let n1 = be_i32_at(b, 16 + n0);
            if n1 < 0 || 20 + n0 + n1 != b.len() {
                None
            } else {
                Some((b.subrange(12, 12 + n0), b.subrange(20 + n0, b.len() as int)))
            }
        }
    }
}

/// The two texts of `b`, where `b` is a record of two present fields that are both UTF-8.
pub open spec fn text_pair(b: Seq<u8>) -> Option<(Seq<u8>, Seq<u8>)> {
    match pair_payloads(b) {
        Some(p) => if valid_utf8(p.0) && valid_utf8(p.1) {
            Some(p)
        } else {
            None
        },
        None => None,
    }
}

/// Four big-endian bytes read back as the integer they were written from.
pub proof fn lemma_be_u32_round_trip(v: u32)
    ensures
        be_u32_at(be_u32_bytes(v), 0) == v,
{
    assert(((((v >> 24u32) as u8) as u32) << 24u32) | ((((v >> 16u32) as u8) as u32) << 16u32) | ((
    ((v >> 8u32) as u8) as u32) << 8u32) | ((v as u8) as u32) == v) by (bit_vector);
}

/// Where the four bytes of `b` from `at` are those of `v`, they read as `v`.
pub proof fn lemma_be_u32_at(b: Seq<u8>, at: int, v: u32)
    requires
        0 <= at,
        at + 4 <= b.len(),
        b.subrange(at, at + 4) == be_u32_bytes(v),
    ensures
        be_u32_at(b, at) == v,
{
    lemma_be_u32_round_trip(v);
    let w = b.subrange(at, at + 4);
    assert(b[at] == w[0] && b[at + 1] == w[1] && b[at + 2] == w[2] && b[at + 3] == w[3]);
}

/// A record written from two fields that fit reads back as those two fields, and reading it
/// stays inside it.
pub proof fn lemma_pair_frame_reads(oid0: u32, f0: Seq<u8>, oid1: u32, f1: Seq<u8>)
    requires
        f0.len() <= MAX_FIELD_LEN,
        f1.len() <= MAX_FIELD_LEN,
    ensures
        pair_in_bounds(pair_frame(oid0, f0, oid1, f1)),
        pair_payloads(pair_frame(oid0, f0, oid1, f1)) == Some((f0, f1)),
{
    let b = pair_frame(oid0, f0, oid1, f1);
    let n0 = f0.len() as int;
    let n1 = f1.len() as int;
    assert(b.len() == 20 + n0 + n1);
    assert(b.subrange(0, 4) =~= be_u32_bytes(2));
    assert(b.subrange(8, 12) =~= be_u32_bytes(n0 as u32));
    assert(b.subrange(16 + n0, 20 + n0) =~= be_u32_bytes(n1 as u32));
    lemma_be_u32_at(b, 0, 2);
    lemma_be_u32_at(b, 8, n0 as u32);
    lemma_be_u32_at(b, 16 + n0, n1 as u32);
    assert(b.subrange(12, 12 + n0) =~= f0);
    assert(b.subrange(20 + n0, b.len() as int) =~= f1);
}

/// Relies on diesel's `FromSql<Text, Pg>` for `String`: a present value that is UTF-8 is read
/// as the text it encodes; an absent value or one that is not UTF-8 fails.
#[verifier::external_body]
pub(crate) fn read_text(bytes: Option<&[u8]>) -> (r: Option<String>)
    ensures
        r is Some <==> (bytes is Some && valid_utf8(bytes->0@)),
        r is Some ==> encode_utf8(r->0@) == bytes->0@,
{
    <String as FromSql<Text, Pg>>::from_sql(bytes).ok()
}

/// Relies on diesel's `FromSql<Record<(Text, Text)>, Pg>` for `(String, String)`: a record of
/// two present UTF-8 fields with nothing after them is read as its two texts, and anything
/// else fails. Where a field's length points past the end diesel's reader panics, so such
/// input is not admitted.
#[verifier::external_body]
pub(crate) fn read_text_pair(bytes: Option<&[u8]>) -> (r: Option<(String, String)>)
    requires
        bytes is Some ==> pair_in_bounds(bytes->0@),
    ensures
        r is Some <==> (bytes is Some && text_pair(bytes->0@) is Some),
        r matches Some((a, c)) ==> text_pair(bytes->0@) == Some((encode_utf8(a@), encode_utf8(c@))),
{
    <(String, String) as FromSql<Record<(Text, Text)>, Pg>>::from_sql(bytes).ok()
}

/// Reads the unsigned big-endian integer in the four bytes of `b` from `at`.
pub fn read_be_u32(b: &[u8], at: usize) -> (r: u32)
    requires
        at + 4 <= b@.len(),
    ensures
        r == be_u32_at(b@, at as int),
{
    ((b[at] as u32) << 24u32) | ((b[at + 1] as u32) << 16u32) | ((b[at + 2] as u32) << 8u32) | (
    b[at + 3] as u32)
}

/// Reads the signed big-endian integer in the four bytes of `b` from `at`.
pub fn read_be_i32(b: &[u8], at: usize) -> (r: i64)
    requires
        at + 4 <= b@.len(),
    ensures
        r == be_i32_at(b@, at as int),
{
    let u = read_be_u32(b, at);
    if u >= 0x8000_0000 {
        u as i64 - 0x1_0000_0000
    } else {
        u as i64
    }
}

/// Appends the four big-endian bytes of `v` to `out`.
pub fn write_be_u32(v: u32, out: &mut Vec<u8>)
    ensures
        final(out)@ == old(out)@ + be_u32_bytes(v),
{
    out.push((v >> 24u32) as u8);
    out.push((v >> 16u32) as u8);
    out.push((v >> 8u32) as u8);
    out.push(v as u8);
    assert(final(out)@ =~= old(out)@ + be_u32_bytes(v));
}

/// Appends `bytes` to `out`.
pub fn write_bytes(bytes: &[u8], out: &mut Vec<u8>)
    ensures
        final(out)@ == old(out)@ + bytes@,
{
    let ghost start = out@;
    let mut i: usize = 0;
    while i < bytes.len()
        invariant
            i <= bytes@.len(),
            out@ == start + bytes@.subrange(0, i as int),
        decreases bytes@.len() - i,
    {
        out.push(bytes[i]);
        i = i + 1;
        assert(out@ =~= start + bytes@.subrange(0, i as int));
    }
    assert(bytes@.subrange(0, i as int) =~= bytes@);
}

/// Whether reading `b` as a record of two fields stays inside `b`.
pub fn check_pair_in_bounds(b: &[u8]) -> (r: bool)
    ensures
        r == pair_in_bounds(b@),
{
    let len = b.len();
    if len < 4 || read_be_i32(b, 0) != 2 {
        return true;
    }
    if len < 12 {
        return true;
    }
    let n0 = read_be_i32(b, 8);
    if n0 == -1 {
        return true;
    }
    if n0 < 0 || n0 as usize > len - 12 {
        return false;
    }
    let at = 12 + n0 as usize;
    if len - at < 8 {
        return true;
    }
    let n1 = read_be_i32(b, at + 4);
    n1 == -1 || (0 <= n1 && n1 as usize <= len - (at + 8))
}

} // verus!
