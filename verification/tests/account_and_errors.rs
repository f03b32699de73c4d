use kipt::account::{account_with_chain_id, setup_account};
use kipt::bridge::{envelope_from_result, format_str_array, LuaOutput};
use kipt::config::get_watch_from_options;
use kipt::endpoint::Endpoint;
use kipt::errors::{Error, ErrorExtLua};
use kipt::felt::felt_from_hex;

#[test]
fn account_preparation_decodes_everything() {
    let pa = setup_account("http://node", "0x123", "0x987", true).unwrap();
    assert!(matches!(pa.endpoint, Endpoint::HttpRpc(_)));
    assert_eq!(pa.address, felt_from_hex("0x123").unwrap());
    assert_eq!(pa.private_key, felt_from_hex("0x987").unwrap());
    assert!(pa.legacy_encoding);
}

#[test]
fn account_preparation_rejects_unknown_network() {
    assert!(matches!(
        setup_account("testnet9", "0x123", "0x987", false),
        Err(Error::InvalidNetwork(_))
    ));
}

#[test]
fn account_preparation_rejects_bad_address() {
    assert!(matches!(
        setup_account("MAINNET", "junk!", "0x987", false),
        Err(Error::InvalidFieldElement(_))
    ));
}

#[test]
fn account_preparation_rejects_bad_key() {
    assert!(matches!(
        setup_account("MAINNET", "0x123", "junk!", false),
        Err(Error::InvalidFieldElement(_))
    ));
}

#[test]
fn chain_id_completes_the_account() {
    let pa = setup_account("http://node", "0x123", "0x987", false).unwrap();
    let cid = felt_from_hex("0x534e5f4d41494e").unwrap();
    let acct = account_with_chain_id(pa, Ok(cid)).unwrap();
    assert_eq!(acct.chain_id, cid);
    assert_eq!(acct.address, felt_from_hex("0x123").unwrap());
    assert!(!acct.legacy_encoding);
}

#[test]
fn chain_id_failure_surfaces_the_transport_error_verbatim() {
    let pa = setup_account("http://node", "0x123", "0x987", false).unwrap();
    match account_with_chain_id(pa, Err(String::from("connection reset by peer"))) {
        Err(Error::TransportError(m)) => assert_eq!(m, "connection reset by peer"),
        other => panic!("expected the transport error back, got {:?}", other),
    }
}

#[test]
fn error_messages_carry_label_and_detail() {
    assert_eq!(
        Error::InvalidFieldElement(String::from("0xzz")).message(),
        "invalid field element: 0xzz"
    );
    assert_eq!(
        Error::TransactionReverted(String::from("out of gas")).message(),
        "transaction reverted: out of gas"
    );
    assert_eq!(
        Error::ConfigurationMissing(String::from("RPC")).message(),
        "configuration missing: RPC"
    );
}

#[test]
fn error_ext_lua_keeps_the_reason() {
    let e = ErrorExtLua::new("something went wrong");
    assert_eq!(e.reason(), "something went wrong");
}

#[test]
fn envelope_has_exactly_one_live_side() {
    let ok = envelope_from_result::<u64>(Ok(7));
    assert_eq!(ok.data, Some(7));
    assert_eq!(ok.error, "");
    let err = envelope_from_result::<u64>(Err(Error::IOError(String::from("no such file"))));
    assert!(err.data.is_none());
    assert_eq!(err.error, "i/o error: no such file");
    let direct: LuaOutput<u64> = LuaOutput::ok(1);
    assert_eq!(direct.data, Some(1));
    assert_eq!(direct.error, "");
}

#[test]
fn watch_interval_converts_to_milliseconds() {
    assert_eq!(get_watch_from_options(Some(100)), Some(100u64));
    assert_eq!(get_watch_from_options(None), None);
}

#[test]
fn str_array_formatting_matches_the_host_shape() {
    let empty: Vec<String> = vec![];
    assert_eq!(format_str_array(&empty), "[]");
    assert_eq!(format_str_array(&vec![String::from("0x1")]), "[0x1]");
    assert_eq!(
        format_str_array(&vec![String::from("a"), String::from("b"), String::from("c")]),
        "[a, b, c]"
    );
}
