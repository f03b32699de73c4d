use kipt::block::{parse_block_id, BlockReference};
use kipt::errors::Error;
use kipt::felt::Felt;

#[test]
fn latest_tag() {
    assert!(matches!(parse_block_id("latest"), Ok(BlockReference::Latest)));
}

#[test]
fn pending_tag() {
    assert!(matches!(parse_block_id("pending"), Ok(BlockReference::Pending)));
}

#[test]
fn decimal_is_block_number() {
    assert!(matches!(parse_block_id("123"), Ok(BlockReference::Number(123))));
    assert!(matches!(parse_block_id("0"), Ok(BlockReference::Number(0))));
}

#[test]
fn largest_block_number_fits() {
    assert!(matches!(
        parse_block_id("18446744073709551615"),
        Ok(BlockReference::Number(u64::MAX))
    ));
}

#[test]
fn oversized_decimal_is_invalid_block_number() {
    match parse_block_id("18446744073709551616") {
        Err(Error::InvalidBlockNumber(m)) => assert_eq!(m, "18446744073709551616"),
        other => panic!("expected InvalidBlockNumber, got {:?}", other),
    }
}

#[test]
fn prefixed_hex_is_block_hash() {
    match parse_block_id("0xabc").unwrap() {
        BlockReference::Hash(f) => assert_eq!(f, Felt { d0: 0xabc, d1: 0, d2: 0, d3: 0 }),
        other => panic!("expected a hash, got {:?}", other),
    }
}

#[test]
fn undecodable_string_is_invalid_block_reference() {
    match parse_block_id("xyz") {
        Err(Error::InvalidBlockReference(m)) => assert_eq!(m, "xyz"),
        other => panic!("expected InvalidBlockReference, got {:?}", other),
    }
}

#[test]
fn tags_take_precedence_over_hex() {
    // Every character of "dead" is a hex digit, but the two tags are
    // matched before any decode is attempted; their own letters never
    // reach the hex branch.
    assert!(matches!(parse_block_id("latest"), Ok(BlockReference::Latest)));
    assert!(matches!(parse_block_id("dead"), Ok(BlockReference::Hash(_))));
}
