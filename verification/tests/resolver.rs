use kipt::endpoint::{setup_provider, Endpoint, Network};
use kipt::errors::Error;

#[test]
fn url_resolves_to_http_rpc() {
    match setup_provider("http://x").unwrap() {
        Endpoint::HttpRpc(u) => assert_eq!(u, "http://x"),
        other => panic!("expected an HTTP-RPC endpoint, got {:?}", other),
    }
}

#[test]
fn https_url_resolves_to_http_rpc() {
    match setup_provider("https://node.example/rpc").unwrap() {
        Endpoint::HttpRpc(u) => assert_eq!(u, "https://node.example/rpc"),
        other => panic!("expected an HTTP-RPC endpoint, got {:?}", other),
    }
}

#[test]
fn mainnet_resolves_to_named_gateway() {
    match setup_provider("MAINNET").unwrap() {
        Endpoint::NamedGateway(n) => assert_eq!(n, Network::Mainnet),
        other => panic!("expected a named gateway, got {:?}", other),
    }
}

#[test]
fn both_goerli_names_resolve() {
    assert!(matches!(
        setup_provider("GOERLI-1").unwrap(),
        Endpoint::NamedGateway(Network::Goerli1)
    ));
    assert!(matches!(
        setup_provider("GOERLI-2").unwrap(),
        Endpoint::NamedGateway(Network::Goerli2)
    ));
}

#[test]
fn unknown_name_is_invalid_network() {
    match setup_provider("nope") {
        Err(Error::InvalidNetwork(m)) => assert_eq!(m, "nope"),
        other => panic!("expected InvalidNetwork, got {:?}", other),
    }
}

#[test]
fn lower_case_name_is_not_recognized() {
    assert!(matches!(setup_provider("mainnet"), Err(Error::InvalidNetwork(_))));
}
