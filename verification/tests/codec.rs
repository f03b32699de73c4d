use kipt::errors::Error;
use kipt::felt::{felt_from_hex, Felt};

#[test]
fn encode_zero_is_zero_padded() {
    let z = Felt::zero();
    let h = z.to_hex();
    assert_eq!(h.len(), 66);
    assert_eq!(h, format!("0x{}", "0".repeat(64)));
}

#[test]
fn decode_short_hex_with_prefix() {
    let f = felt_from_hex("0xabc").unwrap();
    assert_eq!(f, Felt { d0: 0xabc, d1: 0, d2: 0, d3: 0 });
}

#[test]
fn decode_short_hex_without_prefix() {
    let f = felt_from_hex("abc").unwrap();
    assert_eq!(f, Felt { d0: 0xabc, d1: 0, d2: 0, d3: 0 });
}

#[test]
fn decode_accepts_upper_case() {
    let a = felt_from_hex("0xABCDEF").unwrap();
    let b = felt_from_hex("0xabcdef").unwrap();
    assert_eq!(a, b);
}

#[test]
fn decode_empty_is_zero() {
    assert_eq!(felt_from_hex("").unwrap(), Felt::zero());
    assert_eq!(felt_from_hex("0x").unwrap(), Felt::zero());
}

#[test]
fn round_trip_simple_values() {
    for s in ["0x0", "0x1", "0x2", "0xdeadbeef", "0x123456789abcdef0123456789abcdef0"] {
        let f = felt_from_hex(s).unwrap();
        let h = f.to_hex();
        assert_eq!(h.len(), 66);
        assert_eq!(felt_from_hex(&h).unwrap(), f);
    }
}

#[test]
fn round_trip_spans_all_limbs() {
    let f = Felt {
        d0: 0x0123456789abcdef,
        d1: 0xfedcba9876543210,
        d2: 0x0011223344556677,
        d3: 0x0700000000000010,
    };
    let h = f.to_hex();
    assert_eq!(h.len(), 66);
    assert_eq!(felt_from_hex(&h).unwrap(), f);
}

#[test]
fn round_trip_largest_field_element() {
    // P - 1 = 2^251 + 17 * 2^192
    let max = Felt { d0: 0, d1: 0, d2: 0, d3: 0x0800000000000011 };
    let h = max.to_hex();
    assert_eq!(h, format!("0x0800000000000011{}", "0".repeat(48)));
    assert_eq!(felt_from_hex(&h).unwrap(), max);
}

#[test]
fn decode_rejects_the_modulus() {
    // P itself is out of range.
    let p = format!("0x0800000000000011{}1", "0".repeat(47));
    assert!(matches!(felt_from_hex(&p), Err(Error::InvalidFieldElement(_))));
}

#[test]
fn decode_rejects_above_modulus() {
    let big = format!("0x1{}", "f".repeat(63));
    assert!(matches!(felt_from_hex(&big), Err(Error::InvalidFieldElement(_))));
}

#[test]
fn decode_rejects_too_many_digits() {
    let long = format!("0x{}", "1".repeat(65));
    assert!(matches!(felt_from_hex(&long), Err(Error::InvalidFieldElement(_))));
}

#[test]
fn decode_accepts_exactly_64_digits() {
    let s = format!("0x{}", "0".repeat(63)) + "5";
    let f = felt_from_hex(&s).unwrap();
    assert_eq!(f, Felt { d0: 5, d1: 0, d2: 0, d3: 0 });
}

#[test]
fn decode_rejects_non_hex_characters() {
    for s in ["0xzz", "hello!", "0x12g4", "12 34", "0x0x5"] {
        assert!(matches!(felt_from_hex(s), Err(Error::InvalidFieldElement(_))));
    }
}

#[test]
fn encode_is_lower_case() {
    let f = felt_from_hex("0xABCDEF").unwrap();
    let h = f.to_hex();
    assert!(h.ends_with("abcdef"));
    assert_eq!(h, format!("0x{}abcdef", "0".repeat(58)));
}
