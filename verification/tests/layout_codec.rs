//! The persisted record layout: size, round trips, and rejected forms.

use rentable_sol::{decode_record, encode_record, Address, RentableToken, RECORD_SPACE};

fn addr(fill: u8) -> Address {
    Address { bytes: [fill; 32] }
}

fn sample(renter: Option<Address>, expiration: i64) -> RentableToken {
    RentableToken {
        token_owner: addr(1),
        renter,
        associated_token_acc: addr(2),
        price: 100,
        expiration,
        locked: true,
        wrapper_outstanding: renter.is_some(),
        bump: 254,
    }
}

#[test]
fn encoded_size_is_fixed() {
    assert_eq!(encode_record(&sample(None, 3600)).len(), RECORD_SPACE);
    assert_eq!(encode_record(&sample(Some(addr(3)), -1)).len(), RECORD_SPACE);
}

#[test]
fn round_trip_without_renter() {
    let rec = sample(None, 3600);
    assert_eq!(decode_record(&encode_record(&rec)), Some(rec));
}

#[test]
fn round_trip_with_renter_and_negative_time() {
    let rec = sample(Some(addr(3)), -7_200);
    assert_eq!(decode_record(&encode_record(&rec)), Some(rec));
}

#[test]
fn round_trip_extreme_fields() {
    let mut rec = sample(Some(addr(255)), i64::MIN);
    rec.price = u64::MAX;
    rec.locked = false;
    rec.wrapper_outstanding = false;
    rec.bump = 0;
    assert_eq!(decode_record(&encode_record(&rec)), Some(rec));
    rec.expiration = i64::MAX;
    assert_eq!(decode_record(&encode_record(&rec)), Some(rec));
}

#[test]
fn known_bytes_of_the_price_field() {
    // price 100 sits little-endian at offsets 97..105.
    let bytes = encode_record(&sample(None, 3600));
    assert_eq!(&bytes[97..105], &[100, 0, 0, 0, 0, 0, 0, 0]);
    // expiration 3600 = 0x0E10: sign byte then magnitude digits.
    assert_eq!(&bytes[105..114], &[0, 0x10, 0x0E, 0, 0, 0, 0, 0, 0]);
}

#[test]
fn wrong_length_is_rejected() {
    let mut bytes = encode_record(&sample(None, 3600));
    bytes.push(0);
    assert_eq!(decode_record(&bytes), None);
    assert_eq!(decode_record(&[]), None);
}

#[test]
fn corrupted_tag_bytes_are_rejected() {
    let rec = sample(None, 3600);
    for (pos, bad) in [(32usize, 2u8), (105, 9), (114, 3), (115, 7)] {
        let mut bytes = encode_record(&rec);
        bytes[pos] = bad;
        assert_eq!(decode_record(&bytes), None, "tag byte at {pos}");
    }
}

#[test]
fn non_canonical_renter_padding_is_rejected() {
    let mut bytes = encode_record(&sample(None, 3600));
    bytes[40] = 1;
    assert_eq!(decode_record(&bytes), None);
}

#[test]
fn oversized_magnitude_is_rejected() {
    let mut bytes = encode_record(&sample(None, 3600));
    bytes[113] = 0x80;
    assert_eq!(decode_record(&bytes), None);
}
