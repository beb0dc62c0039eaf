use vstd::prelude::*;
use vstd::arithmetic::div_mod::lemma_fundamental_div_mod_converse;

verus! {

#[verifier::external_type_specification]
#[verifier::external_body]
pub struct ExBytesMut(bytes::BytesMut);

/// The bytes that a buffer holds, first to last.
pub uninterp spec fn buffer_bytes(buf: bytes::BytesMut) -> Seq<u8>;

/// The four bytes of a 32-bit two's complement integer, most significant first.
pub open spec fn be_bytes_4(v: int) -> Seq<u8> {
    seq![
        (v / 0x100_0000 % 256) as u8,
        (v / 0x1_0000 % 256) as u8,
        (v / 0x100 % 256) as u8,
        (v % 256) as u8,
    ]
}

/// The eight bytes of a 64-bit two's complement integer, most significant first.
pub open spec fn be_bytes_8(v: int) -> Seq<u8> {
    be_bytes_4(v / 0x1_0000_0000) + be_bytes_4(v)
}

/// The unsigned number that four bytes spell, most significant first.
pub open spec fn be_unsigned_4(s: Seq<u8>) -> int {
    s[0] as int * 0x100_0000 + s[1] as int * 0x1_0000 + s[2] as int * 0x100 + s[3] as int
}

/// The signed 32-bit number that four bytes spell in two's complement.
pub open spec fn be_signed_4(s: Seq<u8>) -> int {
    let u = be_unsigned_4(s);
    if u >= 0x8000_0000 {
        u - 0x1_0000_0000
    } else {
        u
    }
}

/// The signed 64-bit number that eight bytes spell in two's complement.
pub open spec fn be_signed_8(s: Seq<u8>) -> int {
    be_signed_4(s.subrange(0, 4)) * 0x1_0000_0000 + be_unsigned_4(s.subrange(4, 8))
}

/// Reading back the bytes of a 32-bit integer gives the integer.
pub proof fn be_4_round_trip(v: int)
    requires
        i32::MIN <= v <= i32::MAX,
    ensures
        be_bytes_4(v).len() == 4,
        be_signed_4(be_bytes_4(v)) == v,
{
}

/// Reading back the bytes of an unsigned 32-bit integer gives the integer.
pub proof fn be_4_unsigned_round_trip(u: int)
    requires
        0 <= u <= u32::MAX,
    ensures
        be_unsigned_4(be_bytes_4(u)) == u,
{
}

/// The four low bytes of a number do not change when a multiple of 2^32 is
/// added to it.
pub proof fn be_bytes_4_of_low_part(x: int, m: int)
    ensures
        be_bytes_4(x + m * 0x1_0000_0000) == be_bytes_4(x),
{
    let y = x + m * 0x1_0000_0000;
    lemma_fundamental_div_mod_converse(y, 256, x / 256 + m * 0x100_0000, x % 256);
    lemma_fundamental_div_mod_converse(y, 0x1_0000, x / 0x1_0000 + m * 0x1_0000, x % 0x1_0000);
    lemma_fundamental_div_mod_converse(
        y,
        0x100_0000,
        x / 0x100_0000 + m * 0x100,
        x % 0x100_0000,
    );
    let a = x / 256;
    lemma_fundamental_div_mod_converse(a + m * 0x100_0000, 256, a / 256 + m * 0x1_0000, a % 256);
    let b = x / 0x1_0000;
    lemma_fundamental_div_mod_converse(b + m * 0x1_0000, 256, b / 256 + m * 0x100, b % 256);
    let c = x / 0x100_0000;
    lemma_fundamental_div_mod_converse(c + m * 0x100, 256, c / 256 + m, c % 256);
    assert(be_bytes_4(y) =~= be_bytes_4(x));
}

/// Reading back the bytes of a 64-bit integer gives the integer.
pub proof fn be_8_round_trip(v: int)
    requires
        i64::MIN <= v <= i64::MAX,
    ensures
        be_bytes_8(v).len() == 8,
        be_signed_8(be_bytes_8(v)) == v,
{
    let hi = v / 0x1_0000_0000;
    let lo = v % 0x1_0000_0000;
    be_4_round_trip(hi);
    be_4_unsigned_round_trip(lo);
    be_bytes_4_of_low_part(lo, hi);
    assert(v == lo + hi * 0x1_0000_0000);
    let s = be_bytes_8(v);
    assert(s.subrange(0, 4) =~= be_bytes_4(hi));
    assert(s.subrange(4, 8) =~= be_bytes_4(v));
}

/// Writing the number that four bytes spell gives the four bytes.
pub proof fn be_4_bytes_round_trip(s: Seq<u8>)
    requires
        s.len() == 4,
    ensures
        i32::MIN <= be_signed_4(s) <= i32::MAX,
        be_bytes_4(be_signed_4(s)) == s,
        be_bytes_4(be_unsigned_4(s)) == s,
{
    let a = s[0] as int;
    let b = s[1] as int;
    let c = s[2] as int;
    let d = s[3] as int;
    let u = be_unsigned_4(s);
    lemma_fundamental_div_mod_converse(u, 256, a * 0x1_0000 + b * 0x100 + c, d);
    lemma_fundamental_div_mod_converse(u, 0x1_0000, a * 0x100 + b, c * 0x100 + d);
    lemma_fundamental_div_mod_converse(u, 0x100_0000, a, b * 0x1_0000 + c * 0x100 + d);
    lemma_fundamental_div_mod_converse(a * 0x1_0000 + b * 0x100 + c, 256, a * 0x100 + b, c);
    lemma_fundamental_div_mod_converse(a * 0x100 + b, 256, a, b);
    lemma_fundamental_div_mod_converse(a, 256, 0, a);
    assert(be_bytes_4(u) =~= s);
    if u >= 0x8000_0000 {
        be_bytes_4_of_low_part(u, -1);
    }
}

/// Writing the number that eight bytes spell gives the eight bytes.
pub proof fn be_8_bytes_round_trip(s: Seq<u8>)
    requires
        s.len() == 8,
    ensures
        i64::MIN <= be_signed_8(s) <= i64::MAX,
        be_bytes_8(be_signed_8(s)) == s,
{
    let hi = s.subrange(0, 4);
    let lo = s.subrange(4, 8);
    let v = be_signed_8(s);
    be_4_bytes_round_trip(hi);
    be_4_bytes_round_trip(lo);
    lemma_fundamental_div_mod_converse(v, 0x1_0000_0000, be_signed_4(hi), be_unsigned_4(lo));
    be_bytes_4_of_low_part(be_unsigned_4(lo), be_signed_4(hi));
    assert(be_bytes_8(v) =~= s);
}

/// Calls `postgres_protocol::types::date_from_sql`, which reads a big-endian
/// `i32` and fails unless the input is exactly four bytes long.
#[verifier::external_body]
pub(crate) fn read_date(raw: &[u8]) -> (r: Option<i32>)
    ensures
        r is Some <==> raw@.len() == 4,
        r is Some ==> r.unwrap() == be_signed_4(raw@),
{
    postgres_protocol::types::date_from_sql(raw).ok()
}

/// Calls `postgres_protocol::types::time_from_sql`, which reads a big-endian
/// `i64` and fails unless the input is exactly eight bytes long.
#[verifier::external_body]
pub(crate) fn read_time(raw: &[u8]) -> (r: Option<i64>)
    ensures
        r is Some <==> raw@.len() == 8,
        r is Some ==> r.unwrap() == be_signed_8(raw@),
{
    postgres_protocol::types::time_from_sql(raw).ok()
}

/// Calls `postgres_protocol::types::timestamp_from_sql`, which reads a
/// big-endian `i64` and fails unless the input is exactly eight bytes long.
#[verifier::external_body]
pub(crate) fn read_timestamp(raw: &[u8]) -> (r: Option<i64>)
    ensures
        r is Some <==> raw@.len() == 8,
        r is Some ==> r.unwrap() == be_signed_8(raw@),
{
    postgres_protocol::types::timestamp_from_sql(raw).ok()
}

/// Calls `postgres_protocol::types::date_to_sql`, which appends the four
/// big-endian bytes of `v` to the buffer.
#[verifier::external_body]
pub(crate) fn write_date(v: i32, buf: &mut bytes::BytesMut)
    ensures
        buffer_bytes(*final(buf)) == buffer_bytes(*old(buf)) + be_bytes_4(v as int),
{
    postgres_protocol::types::date_to_sql(v, buf)
}

/// Calls `postgres_protocol::types::time_to_sql`, which appends the eight
/// big-endian bytes of `v` to the buffer.
#[verifier::external_body]
pub(crate) fn write_time(v: i64, buf: &mut bytes::BytesMut)
    ensures
        buffer_bytes(*final(buf)) == buffer_bytes(*old(buf)) + be_bytes_8(v as int),
{
    postgres_protocol::types::time_to_sql(v, buf)
}

/// Calls `postgres_protocol::types::timestamp_to_sql`, which appends the
/// eight big-endian bytes of `v` to the buffer.
#[verifier::external_body]
pub(crate) fn write_timestamp(v: i64, buf: &mut bytes::BytesMut)
    ensures
        buffer_bytes(*final(buf)) == buffer_bytes(*old(buf)) + be_bytes_8(v as int),
{
    postgres_protocol::types::timestamp_to_sql(v, buf)
}

} // verus!
