use kipt::bridge::envelope_from_result;
use kipt::config::{get_account, get_provider, ScriptConfig};
use kipt::errors::Error;
use kipt::felt::{felt_from_hex, Felt};
use kipt::invoke::{build_invoke_calls, InvokeCall};
use kipt::transaction::{poll_exec_succeeded, PollState, ReceiptOutcome};

fn full_config() -> ScriptConfig {
    ScriptConfig {
        rpc: Some(String::from("http://localhost:5050")),
        account_address: Some(String::from("0x123")),
        account_privkey: Some(String::from("0x987")),
        account_is_legacy: None,
    }
}

#[test]
fn invoke_end_to_end_through_the_pure_pipeline() {
    // The script binds the three required globals, then invokes one call
    // of `transfer` with two calldata felts and a watch interval.
    let config = full_config();
    let (rpc, address, privkey, legacy) = get_account(&config).unwrap();
    assert_eq!(rpc, "http://localhost:5050");
    assert_eq!(address, "0x123");
    assert_eq!(privkey, "0x987");
    assert!(!legacy);

    let calls = vec![InvokeCall {
        to: String::from("0x1"),
        func: String::from("transfer"),
        calldata: vec![String::from("0x2"), String::from("0x3")],
    }];
    let prepared = build_invoke_calls(&calls).unwrap();
    assert_eq!(prepared.len(), 1);
    assert_eq!(prepared[0].to, felt_from_hex("0x1").unwrap());
    assert_eq!(prepared[0].calldata.len(), 2);
    assert_eq!(prepared[0].calldata[0], felt_from_hex("0x2").unwrap());
    assert_eq!(prepared[0].calldata[1], felt_from_hex("0x3").unwrap());
    // The selector is the network's hash of the name "transfer".
    let expected_selector =
        felt_from_hex("0x0083afd3f4caedc6eebf44246fe54e38c95e3179a5ec9ea81740eca5b482d12e")
            .unwrap();
    assert_eq!(prepared[0].selector, expected_selector);

    // The submitted transaction's hash comes back as 66-character hex.
    let tx_hash = Felt { d0: 0xfeed, d1: 7, d2: 0, d3: 0 };
    let tx_hex = tx_hash.to_hex();
    assert_eq!(tx_hex.len(), 66);

    // Polling converges to Confirmed, and the envelope carries the result.
    let events = vec![ReceiptOutcome::TransactionHashNotFound, ReceiptOutcome::Succeeded];
    let (state, _) = poll_exec_succeeded(&events);
    assert!(matches!(state, PollState::Confirmed));
    let envelope = envelope_from_result::<String>(Ok(tx_hex.clone()));
    assert_eq!(envelope.data.unwrap(), tx_hex);
    assert_eq!(envelope.error, "");
}

#[test]
fn selector_of_execute_matches_the_known_value() {
    let calls = vec![InvokeCall {
        to: String::from("0x1"),
        func: String::from("execute"),
        calldata: vec![],
    }];
    let prepared = build_invoke_calls(&calls).unwrap();
    let expected =
        felt_from_hex("0x0240060cdb34fcc260f41eac7474ee1d7c80b7e3607daff9ac67c7ea2ebb1c44")
            .unwrap();
    assert_eq!(prepared[0].selector, expected);
}

#[test]
fn call_order_is_preserved() {
    let calls = vec![
        InvokeCall { to: String::from("0xa"), func: String::from("f"), calldata: vec![] },
        InvokeCall { to: String::from("0xb"), func: String::from("g"), calldata: vec![] },
        InvokeCall { to: String::from("0xc"), func: String::from("h"), calldata: vec![] },
    ];
    let prepared = build_invoke_calls(&calls).unwrap();
    assert_eq!(prepared.len(), 3);
    assert_eq!(prepared[0].to, felt_from_hex("0xa").unwrap());
    assert_eq!(prepared[1].to, felt_from_hex("0xb").unwrap());
    assert_eq!(prepared[2].to, felt_from_hex("0xc").unwrap());
}

#[test]
fn bad_call_target_fails_the_build() {
    let calls = vec![InvokeCall {
        to: String::from("0xzz"),
        func: String::from("transfer"),
        calldata: vec![],
    }];
    assert!(matches!(build_invoke_calls(&calls), Err(Error::InvalidFieldElement(_))));
}

#[test]
fn bad_calldata_element_fails_the_build() {
    let calls = vec![InvokeCall {
        to: String::from("0x1"),
        func: String::from("transfer"),
        calldata: vec![String::from("0x2"), String::from("bogus!")],
    }];
    assert!(matches!(build_invoke_calls(&calls), Err(Error::InvalidFieldElement(_))));
}

#[test]
fn non_ascii_function_name_fails_the_build() {
    let calls = vec![InvokeCall {
        to: String::from("0x1"),
        func: String::from("transf\u{e9}rer"),
        calldata: vec![],
    }];
    assert!(matches!(build_invoke_calls(&calls), Err(Error::Other(_))));
}

#[test]
fn missing_rpc_rejects_signing_before_any_network_io() {
    // No RPC bound: every signing operation stops at configuration
    // validation, a pure function — there is no endpoint to talk to yet.
    let config = ScriptConfig {
        rpc: None,
        account_address: Some(String::from("0x123")),
        account_privkey: Some(String::from("0x987")),
        account_is_legacy: None,
    };
    assert!(matches!(get_account(&config), Err(Error::ConfigurationMissing(_))));
    assert!(matches!(get_provider(&config), Err(Error::ConfigurationMissing(_))));
}

#[test]
fn missing_key_rejects_signing() {
    let config = ScriptConfig {
        rpc: Some(String::from("http://x")),
        account_address: Some(String::from("0x123")),
        account_privkey: None,
        account_is_legacy: None,
    };
    assert!(matches!(get_account(&config), Err(Error::ConfigurationMissing(_))));
    // The read-only side only needs the endpoint.
    assert_eq!(get_provider(&config).unwrap(), "http://x");
}

#[test]
fn legacy_flag_defaults_to_false_and_follows_the_option() {
    let mut config = full_config();
    let (_, _, _, legacy) = get_account(&config).unwrap();
    assert!(!legacy);
    config.account_is_legacy = Some(true);
    let (_, _, _, legacy) = get_account(&config).unwrap();
    assert!(legacy);
    config.account_is_legacy = Some(false);
    let (_, _, _, legacy) = get_account(&config).unwrap();
    assert!(!legacy);
}
