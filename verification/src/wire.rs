use crate::address::Address;
use vstd::prelude::*;
use vstd::utf8::{encode_utf8, valid_utf8};

verus! {

/// The two bytes of `x`, the low byte first.
pub open spec fn le16(x: u16) -> Seq<u8> {
    seq![(x % 256) as u8, (x / 256) as u8]
}

/// The four bytes of `x`, the lowest byte first.
pub open spec fn le32(x: u32) -> Seq<u8> {
    seq![
        (x % 256) as u8,
        (x / 256 % 256) as u8,
        (x / 256 / 256 % 256) as u8,
        (x / 256 / 256 / 256) as u8,
    ]
}

/// The eight bytes of `x`, the lowest byte first.
pub open spec fn le64(x: u64) -> Seq<u8> {
    seq![
        (x % 256) as u8,
        (x / 256 % 256) as u8,
        (x / 256 / 256 % 256) as u8,
        (x / 256 / 256 / 256 % 256) as u8,
        (x / 256 / 256 / 256 / 256 % 256) as u8,
        (x / 256 / 256 / 256 / 256 / 256 % 256) as u8,
        (x / 256 / 256 / 256 / 256 / 256 / 256 % 256) as u8,
        (x / 256 / 256 / 256 / 256 / 256 / 256 / 256) as u8,
    ]
}

/// The number that `bytes` spell, the lowest byte first.
pub open spec fn le_value(bytes: Seq<u8>) -> nat
    decreases bytes.len(),
{
    if bytes.len() == 0 {
        0
    } else {
        bytes[0] as nat + 256 * le_value(bytes.drop_first())
    }
}

/// The number that two bytes spell.
pub proof fn lemma_le_value_2(b: Seq<u8>)
    requires
        b.len() == 2,
    ensures
        le_value(b) == b[0] + 0x100 * b[1],
        le_value(b) <= u16::MAX,
{
    reveal_with_fuel(le_value, 3);
    let b1 = b.drop_first();
    assert(b1[0] == b[1]);
    assert(b1.drop_first().len() == 0);
}

/// The number that four bytes spell.
pub proof fn lemma_le_value_4(b: Seq<u8>)
    requires
        b.len() == 4,
    ensures
        le_value(b) == b[0] + 0x100 * b[1] + 0x1_0000 * b[2] + 0x100_0000 * b[3],
        le_value(b) <= u32::MAX,
{
    let lo = b.subrange(0, 2);
    let hi = b.subrange(2, 4);
    lemma_le_value_2(hi);
    reveal_with_fuel(le_value, 3);
    let b1 = b.drop_first();
    let b2 = b1.drop_first();
    assert(b2 =~= hi);
    assert(b1[0] == b[1]);
}

/// The number that eight bytes spell.
pub proof fn lemma_le_value_8(b: Seq<u8>)
    requires
        b.len() == 8,
    ensures
        le_value(b) == b[0] + 0x100 * b[1] + 0x1_0000 * b[2] + 0x100_0000 * b[3] + 0x1_0000_0000
            * b[4] + 0x100_0000_0000 * b[5] + 0x1_0000_0000_0000 * b[6] + 0x100_0000_0000_0000
            * b[7],
        le_value(b) <= u64::MAX,
{
    let hi = b.subrange(4, 8);
    lemma_le_value_4(hi);
    reveal_with_fuel(le_value, 5);
    let b1 = b.drop_first();
    let b2 = b1.drop_first();
    let b3 = b2.drop_first();
    let b4 = b3.drop_first();
    assert(b4 =~= hi);
    assert(b1[0] == b[1]);
    assert(b2[0] == b[2]);
    assert(b3[0] == b[3]);
}

/// The bytes of a number spell the number, and the number that bytes spell
/// has those bytes.
pub proof fn lemma_le16(x: u16, b: Seq<u8>)
    ensures
        le16(x).len() == 2,
        le_value(le16(x)) == x,
        b.len() == 2 ==> le16(le_value(b) as u16) == b,
{
    lemma_le_value_2(le16(x));
    if b.len() == 2 {
        lemma_le_value_2(b);
        assert(le16(le_value(b) as u16) =~= b);
    }
}

/// The bytes of a number spell the number, and the number that bytes spell
/// has those bytes.
pub proof fn lemma_le32(x: u32, b: Seq<u8>)
    ensures
        le32(x).len() == 4,
        le_value(le32(x)) == x,
        b.len() == 4 ==> le32(le_value(b) as u32) == b,
{
    lemma_le_value_4(le32(x));
    let q1 = x / 256;
    let q2 = q1 / 256;
    let q3 = q2 / 256;
    assert(q2 == q3 * 256 + q2 % 256);
    assert(q1 == q2 * 256 + q1 % 256);
    assert(x == q1 * 256 + x % 256);
    assert(le_value(le32(x)) == x);
    if b.len() == 4 {
        lemma_le_value_4(b);
        let v = le_value(b) as u32;
        let t3 = b[3] as int;
        let t2 = b[2] + 256 * t3;
        let t1 = b[1] + 256 * t2;
        let t0 = b[0] + 256 * t1;
        assert(v == t0);
        assert(v / 256 == t1 && v % 256 == b[0]);
        assert(t1 / 256 == t2 && t1 % 256 == b[1]);
        assert(t2 / 256 == t3 && t2 % 256 == b[2]);
        assert(le32(v) =~= b);
    }
}

/// The bytes of a number spell the number, and the number that bytes spell
/// has those bytes.
pub proof fn lemma_le64(x: u64, b: Seq<u8>)
    ensures
        le64(x).len() == 8,
        le_value(le64(x)) == x,
        b.len() == 8 ==> le64(le_value(b) as u64) == b,
{
    lemma_le_value_8(le64(x));
    let q1 = x / 256;
    let q2 = q1 / 256;
    let q3 = q2 / 256;
    let q4 = q3 / 256;
    let q5 = q4 / 256;
    let q6 = q5 / 256;
    let q7 = q6 / 256;
    assert(q6 == q7 * 256 + q6 % 256);
    assert(q5 == q6 * 256 + q5 % 256);
    assert(q4 == q5 * 256 + q4 % 256);
    assert(q3 == q4 * 256 + q3 % 256);
    assert(q2 == q3 * 256 + q2 % 256);
    assert(q1 == q2 * 256 + q1 % 256);
    assert(x == q1 * 256 + x % 256);
    assert(le_value(le64(x)) == x);
    if b.len() == 8 {
        lemma_le_value_8(b);
        let v = le_value(b) as u64;
        let t7 = b[7] as int;
        let t6 = b[6] + 256 * t7;
        let t5 = b[5] + 256 * t6;
        let t4 = b[4] + 256 * t5;
        let t3 = b[3] + 256 * t4;
        let t2 = b[2] + 256 * t3;
        let t1 = b[1] + 256 * t2;
        let t0 = b[0] + 256 * t1;
        assert(v == t0);
        assert(v / 256 == t1 && v % 256 == b[0]);
        assert(t1 / 256 == t2 && t1 % 256 == b[1]);
        assert(t2 / 256 == t3 && t2 % 256 == b[2]);
        assert(t3 / 256 == t4 && t3 % 256 == b[3]);
        assert(t4 / 256 == t5 && t4 % 256 == b[4]);
        assert(t5 / 256 == t6 && t5 % 256 == b[5]);
        assert(t6 / 256 == t7 && t6 % 256 == b[6]);
        assert(le64(v) =~= b);
    }
}

/// Appends the two bytes of `x`, the low byte first.
pub fn put_u16(out: &mut Vec<u8>, x: u16)
    ensures
        final(out)@ == old(out)@ + le16(x),
{
    out.push((x % 256) as u8);
    out.push((x / 256) as u8);
    assert(out@ =~= old(out)@ + le16(x));
}

/// Appends the four bytes of `x`, the lowest byte first.
pub fn put_u32(out: &mut Vec<u8>, x: u32)
    ensures
        final(out)@ == old(out)@ + le32(x),
{
    let q1: u32 = x / 256;
    let q2: u32 = q1 / 256;
    let q3: u32 = q2 / 256;
    out.push((x % 256) as u8);
    out.push((q1 % 256) as u8);
    out.push((q2 % 256) as u8);
    out.push(q3 as u8);
    assert(out@ =~= old(out)@ + le32(x));
}

/// Appends the eight bytes of `x`, the lowest byte first.
pub fn put_u64(out: &mut Vec<u8>, x: u64)
    ensures
        final(out)@ == old(out)@ + le64(x),
{
    let q1: u64 = x / 256;
    let q2: u64 = q1 / 256;
    let q3: u64 = q2 / 256;
    let q4: u64 = q3 / 256;
    let q5: u64 = q4 / 256;
    let q6: u64 = q5 / 256;
    let q7: u64 = q6 / 256;
    out.push((x % 256) as u8);
    out.push((q1 % 256) as u8);
    out.push((q2 % 256) as u8);
    out.push((q3 % 256) as u8);
    out.push((q4 % 256) as u8);
    out.push((q5 % 256) as u8);
    out.push((q6 % 256) as u8);
    out.push(q7 as u8);
    assert(out@ =~= old(out)@ + le64(x));
}

/// Appends the bytes of `from`.
pub fn put_bytes(out: &mut Vec<u8>, from: &[u8])
    ensures
        final(out)@ == old(out)@ + from@,
{
    let mut i: usize = 0;
    while i < from.len()
        invariant
            i <= from@.len(),
            out@ == old(out)@ + from@.subrange(0, i as int),
        decreases from@.len() - i,
    {
        out.push(from[i]);
        i += 1;
        assert(out@ =~= old(out)@ + from@.subrange(0, i as int));
    }
    assert(from@.subrange(0, i as int) =~= from@);
}

/// Appends the 32 bytes of `address`.
pub fn put_address(out: &mut Vec<u8>, address: &Address)
    ensures
        final(out)@ == old(out)@ + address@,
{
    let mut i: usize = 0;
    while i < 32
        invariant
            i <= 32,
            out@ == old(out)@ + address@.subrange(0, i as int),
        decreases 32 - i,
    {
        out.push(address.bytes[i]);
        i += 1;
        assert(out@ =~= old(out)@ + address@.subrange(0, i as int));
    }
    assert(address@.subrange(0, 32) =~= address@);
}

/// The number that the two bytes from `at` on spell.
pub fn get_u16(bytes: &[u8], at: usize) -> (r: u16)
    requires
        at + 2 <= bytes@.len(),
    ensures
        r == le_value(bytes@.subrange(at as int, at + 2)),
        le16(r) == bytes@.subrange(at as int, at + 2),
{
    proof {
        let part = bytes@.subrange(at as int, at + 2);
        lemma_le_value_2(part);
        lemma_le16(0, part);
    }
    bytes[at] as u16 + 0x100 * (bytes[at + 1] as u16)
}

/// The number that the four bytes from `at` on spell.
pub fn get_u32(bytes: &[u8], at: usize) -> (r: u32)
    requires
        at + 4 <= bytes@.len(),
    ensures
        r == le_value(bytes@.subrange(at as int, at + 4)),
        le32(r) == bytes@.subrange(at as int, at + 4),
{
    proof {
        let part = bytes@.subrange(at as int, at + 4);
        lemma_le_value_4(part);
        lemma_le32(0, part);
    }
    bytes[at] as u32 + 0x100 * (bytes[at + 1] as u32) + 0x1_0000 * (bytes[at + 2] as u32)
        + 0x100_0000 * (bytes[at + 3] as u32)
}

/// The number that the eight bytes from `at` on spell.
pub fn get_u64(bytes: &[u8], at: usize) -> (r: u64)
    requires
        at + 8 <= bytes@.len(),
    ensures
        r == le_value(bytes@.subrange(at as int, at + 8)),
        le64(r) == bytes@.subrange(at as int, at + 8),
{
    proof {
        let part = bytes@.subrange(at as int, at + 8);
        lemma_le_value_8(part);
        lemma_le64(0, part);
    }
    bytes[at] as u64 + 0x100 * (bytes[at + 1] as u64) + 0x1_0000 * (bytes[at + 2] as u64)
        + 0x100_0000 * (bytes[at + 3] as u64) + 0x1_0000_0000 * (bytes[at + 4] as u64)
        + 0x100_0000_0000 * (bytes[at + 5] as u64) + 0x1_0000_0000_0000 * (bytes[at + 6] as u64)
        + 0x100_0000_0000_0000 * (bytes[at + 7] as u64)
}

/// The address that the 32 bytes from `at` on are.
pub fn get_address(bytes: &[u8], at: usize) -> (r: Address)
    requires
        at + 32 <= bytes@.len(),
    ensures
        r@ == bytes@.subrange(at as int, at + 32),
{
    let mut out = [0u8; 32];
    let mut i: usize = 0;
    let n = bytes.len();
    while i < 32
        invariant
            i <= 32,
            n == bytes@.len(),
            at + 32 <= n,
            forall|j: int| 0 <= j < i ==> out@[j] == bytes@[at + j],
        decreases 32 - i,
    {
        out[i] = bytes[at + i];
        i += 1;
    }
    let r = Address { bytes: out };
    assert(r@ =~= bytes@.subrange(at as int, at + 32));
    r
}

/// Calls `String::from_utf8`. Assumed, not proved: a string comes back just
/// where the bytes are valid UTF-8, and the string then is those bytes.
#[verifier::external_body]
fn string_from_utf8(bytes: Vec<u8>) -> (r: Option<String>)
    ensures
        r is Some <==> valid_utf8(bytes@),
        r matches Some(s) ==> encode_utf8(s@) == bytes@,
{
    match String::from_utf8(bytes) {
        Ok(s) => Some(s),
        Err(_) => None,
    }
}

/// The text that the bytes from `at` to the end are, where they are text.
pub fn get_text(bytes: &[u8], at: usize) -> (r: Option<String>)
    requires
        at <= bytes@.len(),
    ensures
        r is Some <==> valid_utf8(bytes@.subrange(at as int, bytes@.len() as int)),
        r matches Some(s) ==> encode_utf8(s@) == bytes@.subrange(at as int, bytes@.len() as int),
{
    let mut tail: Vec<u8> = Vec::new();
    let mut i: usize = at;
    while i < bytes.len()
        invariant
            at <= i <= bytes@.len(),
            tail@ == bytes@.subrange(at as int, i as int),
        decreases bytes@.len() - i,
    {
        tail.push(bytes[i]);
        i += 1;
        assert(tail@ =~= bytes@.subrange(at as int, i as int));
    }
    string_from_utf8(tail)
}

} // verus!
