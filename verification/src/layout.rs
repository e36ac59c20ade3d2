//! The persisted fixed-width layout of an escrow record.
//!
//! The host stores one record per (namespace tag, owner) pair in a
//! fixed-size account: owner identity, optional renter identity, custody
//! reference, price, expiration, the two custody flags and the proof byte,
//! in that order. The size is reserved at creation time and never grows.
//! [`record_bytes`] is the layout itself; the encoder and decoder below are
//! proved against it, and the layout loses no information
//! ([`lemma_record_bytes_injective`]).

use vstd::prelude::*;

use crate::record::{Address, RentableToken};

verus! {

broadcast use vstd::array::group_array_axioms;

/// Exact size, in bytes, reserved for a persisted record.
pub const RECORD_SPACE: usize = 117;

/// Little-endian base-256 digits of an unsigned 64-bit field.
pub open spec fn u64_le(x: u64) -> Seq<u8> {
    let r0 = x as int;
    let r1 = r0 / 256;
    let r2 = r1 / 256;
    let r3 = r2 / 256;
    let r4 = r3 / 256;
    let r5 = r4 / 256;
    let r6 = r5 / 256;
    let r7 = r6 / 256;
    seq![
        (r0 % 256) as u8,
        (r1 % 256) as u8,
        (r2 % 256) as u8,
        (r3 % 256) as u8,
        (r4 % 256) as u8,
        (r5 % 256) as u8,
        (r6 % 256) as u8,
        (r7 % 256) as u8,
    ]
}

/// The timestamp's non-negative magnitude under its sign convention: the
/// value itself when the sign byte is 0, and one less than the negation when
/// it is 1, so that every 64-bit timestamp has a magnitude below 2^63.
pub open spec fn timestamp_magnitude(x: i64) -> u64 {
    if x >= 0 {
        x as u64
    } else {
        (-(x as int) - 1) as u64
    }
}

/// A signed timestamp as a sign byte followed by the little-endian digits of
/// its magnitude.
pub open spec fn i64_le(x: i64) -> Seq<u8> {
    seq![(if x >= 0 { 0u8 } else { 1u8 })] + u64_le(timestamp_magnitude(x))
}

/// A boolean flag as one byte.
pub open spec fn flag_byte(b: bool) -> u8 {
    if b {
        1u8
    } else {
        0u8
    }
}

/// The optional renter as a presence byte followed by the identity, padded
/// with zeroes while no renter is assigned.
pub open spec fn renter_bytes(renter: Option<Address>) -> Seq<u8> {
    match renter {
        None => seq![0u8] + Seq::new(32, |i: int| 0u8),
        Some(a) => seq![1u8] + a.bytes@,
    }
}

/// The persisted layout of one record.
pub open spec fn record_bytes(rec: RentableToken) -> Seq<u8> {
    rec.token_owner.bytes@ + renter_bytes(rec.renter) + rec.associated_token_acc.bytes@ + u64_le(
        rec.price,
    ) + i64_le(rec.expiration) + seq![
        flag_byte(rec.locked),
        flag_byte(rec.wrapper_outstanding),
        rec.bump,
    ]
}

/// Appends one identity's 32 bytes.
fn push_address(out: &mut Vec<u8>, a: &Address)
    ensures
        final(out)@ == old(out)@ + a.bytes@,
{
    let mut i: usize = 0;
    while i < 32
        invariant
            0 <= i <= 32,
            out@ == old(out)@ + a.bytes@.take(i as int),
        decreases 32 - i,
    {
        out.push(a.bytes[i]);
        proof {
            assert(a.bytes@.take((i + 1) as int) =~= a.bytes@.take(i as int).push(
                a.bytes[i as int],
            ));
        }
        i += 1;
    }
    proof {
        assert(a.bytes@.take(32) =~= a.bytes@);
    }
}

/// Appends an unsigned field's eight little-endian digits.
fn push_u64(out: &mut Vec<u8>, x: u64)
    ensures
        final(out)@ == old(out)@ + u64_le(x),
{
    let r1 = x / 256;
    let r2 = r1 / 256;
    let r3 = r2 / 256;
    let r4 = r3 / 256;
    let r5 = r4 / 256;
    let r6 = r5 / 256;
    let r7 = r6 / 256;
    out.push((x % 256) as u8);
    out.push((r1 % 256) as u8);
    out.push((r2 % 256) as u8);
    out.push((r3 % 256) as u8);
    out.push((r4 % 256) as u8);
    out.push((r5 % 256) as u8);
    out.push((r6 % 256) as u8);
    out.push((r7 % 256) as u8);
    proof {
        assert(out@ =~= old(out)@ + u64_le(x));
    }
}

/// Appends a timestamp's sign byte and eight magnitude digits.
fn push_i64(out: &mut Vec<u8>, x: i64)
    ensures
        final(out)@ == old(out)@ + i64_le(x),
{
    if x >= 0 {
        out.push(0);
        push_u64(out, x as u64);
    } else {
        out.push(1);
        push_u64(out, (-(x + 1)) as u64);
    }
    proof {
        assert(out@ =~= old(out)@ + i64_le(x));
    }
}

/// Serializes a record into its fixed-width persisted form.
pub fn encode_record(rec: &RentableToken) -> (r: Vec<u8>)
    ensures
        r@ == record_bytes(*rec),
        r@.len() == RECORD_SPACE,
{
    let mut out: Vec<u8> = Vec::new();
    push_address(&mut out, &rec.token_owner);
    match &rec.renter {
        None => {
            out.push(0);
            let mut i: usize = 0;
            while i < 32
                invariant
                    0 <= i <= 32,
                    out@ == rec.token_owner.bytes@ + seq![0u8] + Seq::new(
                        i as nat,
                        |k: int| 0u8,
                    ),
                decreases 32 - i,
            {
                out.push(0);
                proof {
                    assert(Seq::new((i + 1) as nat, |k: int| 0u8) =~= Seq::new(
                        i as nat,
                        |k: int| 0u8,
                    ).push(0u8));
                }
                i += 1;
            }
            proof {
                assert(out@ =~= rec.token_owner.bytes@ + renter_bytes(rec.renter));
            }
        },
        Some(a) => {
            out.push(1);
            push_address(&mut out, a);
            proof {
                assert(out@ =~= rec.token_owner.bytes@ + renter_bytes(rec.renter));
            }
        },
    }
    push_address(&mut out, &rec.associated_token_acc);
    push_u64(&mut out, rec.price);
    push_i64(&mut out, rec.expiration);
    out.push(if rec.locked { 1 } else { 0 });
    out.push(if rec.wrapper_outstanding { 1 } else { 0 });
    out.push(rec.bump);
    proof {
        assert(out@ =~= record_bytes(*rec));
    }
    out
}

/// The layout loses no information: two records with the same persisted
/// form are the same record.
pub proof fn lemma_record_bytes_injective(a: RentableToken, b: RentableToken)
    requires
        record_bytes(a) == record_bytes(b),
    ensures
        a == b,
{
    lemma_record_shape(a);
    lemma_record_shape(b);
    assert(a.token_owner.bytes@ == b.token_owner.bytes@);
    assert(a.token_owner.bytes =~= b.token_owner.bytes);
    match (a.renter, b.renter) {
        (Some(x), Some(y)) => {
            assert(x.bytes@ == y.bytes@);
            assert(x.bytes =~= y.bytes);
        },
        (None, None) => {},
        _ => {
            assert(flag_byte(a.renter is Some) == flag_byte(b.renter is Some));
            assert(false);
        },
    }
    assert(a.associated_token_acc.bytes@ == b.associated_token_acc.bytes@);
    assert(a.associated_token_acc.bytes =~= b.associated_token_acc.bytes);
    lemma_u64_le_injective(a.price, b.price);
    lemma_u64_le_injective(timestamp_magnitude(a.expiration), timestamp_magnitude(b.expiration));
    assert(flag_byte(a.expiration < 0) == flag_byte(b.expiration < 0));
    assert(a.expiration == b.expiration);
    assert(a.locked == b.locked);
    assert(a.wrapper_outstanding == b.wrapper_outstanding);
}

/// The digits of an unsigned field determine it: the layout loses no
/// information in its 64-bit fields.
pub proof fn lemma_u64_le_injective(a: u64, b: u64)
    requires
        u64_le(a) == u64_le(b),
    ensures
        a == b,
{
    lemma_u64_le_digits(a);
    lemma_u64_le_digits(b);
}

/// An unsigned field is recovered from its digits by the little-endian sum.
proof fn lemma_u64_le_digits(x: u64)
    ensures
        x == u64_le(x)[0] + 256 * (u64_le(x)[1] + 256 * (u64_le(x)[2] + 256 * (u64_le(x)[3] + 256
            * (u64_le(x)[4] + 256 * (u64_le(x)[5] + 256 * (u64_le(x)[6] + 256 * u64_le(
            x,
        )[7])))))),
{
    let r0 = x as int;
    let r1 = r0 / 256;
    let r2 = r1 / 256;
    let r3 = r2 / 256;
    let r4 = r3 / 256;
    let r5 = r4 / 256;
    let r6 = r5 / 256;
    let r7 = r6 / 256;
    assert(r7 < 256);
    assert(r7 % 256 == r7);
    assert(r6 == r6 % 256 + 256 * r7);
    assert(r5 == r5 % 256 + 256 * r6);
    assert(r4 == r4 % 256 + 256 * r5);
    assert(r3 == r3 % 256 + 256 * r4);
    assert(r2 == r2 % 256 + 256 * r3);
    assert(r1 == r1 % 256 + 256 * r2);
    assert(r0 == r0 % 256 + 256 * r1);
}

/// Reads one identity's 32 bytes.
fn read_address(bytes: &[u8], off: usize) -> (a: Address)
    requires
        off + 32 <= bytes@.len(),
    ensures
        a.bytes@ == bytes@.subrange(off as int, off as int + 32),
{
    let n: usize = bytes.len();
    let mut arr: [u8; 32] = [0; 32];
    let mut i: usize = 0;
    while i < 32
        invariant
            0 <= i <= 32,
            off + 32 <= n == bytes@.len(),
            forall|k: int| 0 <= k < i ==> arr[k] == bytes@[off + k],
        decreases 32 - i,
    {
        arr[i] = bytes[off + i];
        i += 1;
    }
    proof {
        assert(arr@ =~= bytes@.subrange(off as int, off as int + 32));
    }
    Address { bytes: arr }
}

/// Reads an unsigned field back from its eight little-endian digits.
fn read_u64(bytes: &[u8], off: usize) -> (x: u64)
    requires
        off + 8 <= bytes@.len(),
    ensures
        u64_le(x) == bytes@.subrange(off as int, off as int + 8),
{
    let d0 = bytes[off] as u64;
    let d1 = bytes[off + 1] as u64;
    let d2 = bytes[off + 2] as u64;
    let d3 = bytes[off + 3] as u64;
    let d4 = bytes[off + 4] as u64;
    let d5 = bytes[off + 5] as u64;
    let d6 = bytes[off + 6] as u64;
    let d7 = bytes[off + 7] as u64;
    let x = d0 + 256 * (d1 + 256 * (d2 + 256 * (d3 + 256 * (d4 + 256 * (d5 + 256 * (d6 + 256
        * d7))))));
    proof {
        let t7 = d7 as int;
        let t6 = d6 + 256 * t7;
        let t5 = d5 + 256 * t6;
        let t4 = d4 + 256 * t5;
        let t3 = d3 + 256 * t4;
        let t2 = d2 + 256 * t3;
        let t1 = d1 + 256 * t2;
        assert(x == d0 + 256 * t1);
        assert(x as int % 256 == d0 && x as int / 256 == t1);
        assert(t1 % 256 == d1 && t1 / 256 == t2);
        assert(t2 % 256 == d2 && t2 / 256 == t3);
        assert(t3 % 256 == d3 && t3 / 256 == t4);
        assert(t4 % 256 == d4 && t4 / 256 == t5);
        assert(t5 % 256 == d5 && t5 / 256 == t6);
        assert(t6 % 256 == d6 && t6 / 256 == t7);
        assert(t7 % 256 == d7);
        assert(u64_le(x) =~= bytes@.subrange(off as int, off as int + 8));
    }
    x
}

/// Where each field of a record stands in its persisted form.
proof fn lemma_record_shape(rec: RentableToken)
    ensures
        record_bytes(rec).len() == 117,
        record_bytes(rec).subrange(0, 32) == rec.token_owner.bytes@,
        record_bytes(rec)[32] == flag_byte(rec.renter is Some),
        rec.renter matches Some(a) ==> record_bytes(rec).subrange(33, 65) == a.bytes@,
        rec.renter is None ==> record_bytes(rec).subrange(33, 65) == Seq::new(32, |i: int| 0u8),
        record_bytes(rec).subrange(65, 97) == rec.associated_token_acc.bytes@,
        record_bytes(rec).subrange(97, 105) == u64_le(rec.price),
        record_bytes(rec)[105] == flag_byte(rec.expiration < 0),
        record_bytes(rec).subrange(106, 114) == u64_le(timestamp_magnitude(rec.expiration)),
        record_bytes(rec)[114] == flag_byte(rec.locked),
        record_bytes(rec)[115] == flag_byte(rec.wrapper_outstanding),
        record_bytes(rec)[116] == rec.bump,
        timestamp_magnitude(rec.expiration) <= i64::MAX,
{
    assert(record_bytes(rec).subrange(0, 32) =~= rec.token_owner.bytes@);
    match rec.renter {
        Some(a) => {
            assert(record_bytes(rec).subrange(33, 65) =~= a.bytes@);
        },
        None => {
            assert(record_bytes(rec).subrange(33, 65) =~= Seq::new(32, |i: int| 0u8));
        },
    }
    assert(record_bytes(rec).subrange(65, 97) =~= rec.associated_token_acc.bytes@);
    assert(record_bytes(rec).subrange(97, 105) =~= u64_le(rec.price));
    assert(record_bytes(rec).subrange(106, 114) =~= u64_le(timestamp_magnitude(rec.expiration)));
}

/// Deserializes a persisted record. Returns the one record whose persisted
/// form is exactly the given bytes, and `None` exactly when no record has
/// that form — a wrong length, an out-of-range tag byte, a non-canonical
/// renter padding or an oversized timestamp magnitude all fail closed.
pub fn decode_record(bytes: &[u8]) -> (r: Option<RentableToken>)
    ensures
        r matches Some(rec) ==> record_bytes(rec) == bytes@,
        r is None ==> forall|rec: RentableToken| record_bytes(rec) != bytes@,
{
    let n: usize = bytes.len();
    if n != RECORD_SPACE {
        proof {
            assert forall|rec: RentableToken| record_bytes(rec) != bytes@ by {
                lemma_record_shape(rec);
            }
        }
        return None;
    }
    let token_owner = read_address(bytes, 0);
    let rflag = bytes[32];
    if rflag > 1 {
        proof {
            assert forall|rec: RentableToken| record_bytes(rec) != bytes@ by {
                lemma_record_shape(rec);
            }
        }
        return None;
    }
    let renter: Option<Address> = if rflag == 1 {
        Some(read_address(bytes, 33))
    } else {
        let mut i: usize = 0;
        while i < 32
            invariant
                0 <= i <= 32,
                bytes@.len() == 117,
                rflag == bytes@[32] && rflag == 0,
                forall|k: int| 0 <= k < i ==> #[trigger] bytes@[33 + k] == 0u8,
            decreases 32 - i,
        {
            if bytes[33 + i] != 0 {
                proof {
                    assert forall|rec: RentableToken| record_bytes(rec) != bytes@ by {
                        lemma_record_shape(rec);
                        if record_bytes(rec) == bytes@ {
                            assert(flag_byte(rec.renter is Some) == 0u8);
                            assert(rec.renter is None);
                            assert(record_bytes(rec).subrange(33, 65)[i as int] == 0u8);
                        }
                    }
                }
                return None;
            }
            i += 1;
        }
        None
    };
    let associated_token_acc = read_address(bytes, 65);
    let price = read_u64(bytes, 97);
    let sign = bytes[105];
    if sign > 1 {
        proof {
            assert forall|rec: RentableToken| record_bytes(rec) != bytes@ by {
                lemma_record_shape(rec);
            }
        }
        return None;
    }
    let m = read_u64(bytes, 106);
    if m > i64::MAX as u64 {
        proof {
            assert forall|rec: RentableToken| record_bytes(rec) != bytes@ by {
                lemma_record_shape(rec);
                if record_bytes(rec) == bytes@ {
                    lemma_u64_le_injective(timestamp_magnitude(rec.expiration), m);
                }
            }
        }
        return None;
    }
    let expiration: i64 = if sign == 0 {
        m as i64
    } else {
        -(m as i64) - 1
    };
    let locked_b = bytes[114];
    if locked_b > 1 {
        proof {
            assert forall|rec: RentableToken| record_bytes(rec) != bytes@ by {
                lemma_record_shape(rec);
            }
        }
        return None;
    }
    let wrapper_b = bytes[115];
    if wrapper_b > 1 {
        proof {
            assert forall|rec: RentableToken| record_bytes(rec) != bytes@ by {
                lemma_record_shape(rec);
            }
        }
        return None;
    }
    let rec = RentableToken {
        token_owner,
        renter,
        associated_token_acc,
        price,
        expiration,
        locked: locked_b == 1,
        wrapper_outstanding: wrapper_b == 1,
        bump: bytes[116],
    };
    proof {
        lemma_record_shape(rec);
        assert(u64_le(timestamp_magnitude(rec.expiration)) == u64_le(m));
        assert forall|i: int| 0 <= i < 117 implies record_bytes(rec)[i] == bytes@[i] by {
            let s = record_bytes(rec);
            if i < 32 {
                assert(s[i] == s.subrange(0, 32)[i]);
                assert(bytes@.subrange(0, 32)[i] == bytes@[i]);
            } else if i == 32 {
            } else if i < 65 {
                assert(s[i] == s.subrange(33, 65)[i - 33]);
                assert(bytes@.subrange(33, 65)[i - 33] == bytes@[i]);
                match rec.renter {
                    Some(a) => {
                        assert(a.bytes@ == bytes@.subrange(33, 65));
                    },
                    None => {
                        assert(bytes@[33 + (i - 33)] == 0u8);
                    },
                }
            } else if i < 97 {
                assert(s[i] == s.subrange(65, 97)[i - 65]);
                assert(bytes@.subrange(65, 97)[i - 65] == bytes@[i]);
            } else if i < 105 {
                assert(s[i] == s.subrange(97, 105)[i - 97]);
                assert(bytes@.subrange(97, 105)[i - 97] == bytes@[i]);
            } else if i == 105 {
            } else if i < 114 {
                assert(s[i] == s.subrange(106, 114)[i - 106]);
                assert(bytes@.subrange(106, 114)[i - 106] == bytes@[i]);
            } else {
            }
        }
        assert(record_bytes(rec) =~= bytes@);
    }
    Some(rec)
}

} // verus!
