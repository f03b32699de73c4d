use kipt::block::BlockReference;
use kipt::call::{build_function_call, encode_call_result, resolve_block_option};
use kipt::errors::Error;
use kipt::felt::{felt_from_hex, Felt};

#[test]
fn absent_block_option_defaults_to_pending() {
    assert!(matches!(resolve_block_option(&None), Ok(BlockReference::Pending)));
}

#[test]
fn present_block_option_is_parsed() {
    assert!(matches!(
        resolve_block_option(&Some(String::from("latest"))),
        Ok(BlockReference::Latest)
    ));
    assert!(matches!(
        resolve_block_option(&Some(String::from("7"))),
        Ok(BlockReference::Number(7))
    ));
    assert!(matches!(
        resolve_block_option(&Some(String::from("xyz"))),
        Err(Error::InvalidBlockReference(_))
    ));
}

#[test]
fn function_call_is_fully_decoded() {
    let calldata = vec![String::from("0x11"), String::from("0x22")];
    let req = build_function_call("0x5", "balance_of", &calldata, BlockReference::Latest)
        .unwrap();
    assert_eq!(req.contract_address, felt_from_hex("0x5").unwrap());
    assert_eq!(req.calldata.len(), 2);
    assert_eq!(req.calldata[0], felt_from_hex("0x11").unwrap());
    assert_eq!(req.calldata[1], felt_from_hex("0x22").unwrap());
    assert_eq!(req.block, BlockReference::Latest);
    // The selector comes from the name hash, not from any argument.
    assert_ne!(req.entry_point_selector, req.contract_address);
}

#[test]
fn bad_contract_address_fails_the_call() {
    let calldata: Vec<String> = vec![];
    assert!(matches!(
        build_function_call("zz", "f", &calldata, BlockReference::Pending),
        Err(Error::InvalidFieldElement(_))
    ));
}

#[test]
fn call_result_is_reencoded_in_order() {
    let values = vec![
        felt_from_hex("0x1").unwrap(),
        felt_from_hex("0xff").unwrap(),
        Felt::zero(),
    ];
    let out = encode_call_result(&values);
    assert_eq!(out.len(), 3);
    assert_eq!(out[0], format!("0x{}1", "0".repeat(63)));
    assert_eq!(out[1], format!("0x{}ff", "0".repeat(62)));
    assert_eq!(out[2], format!("0x{}", "0".repeat(64)));
}
