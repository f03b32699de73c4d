use vstd::prelude::*;
use crate::endpoint::{endpoint_resolution_ok, endpoint_unresolvable, setup_provider, Endpoint};
use crate::errors::Error;
use crate::felt::{felt_from_hex, felt_from_hex_spec, Felt};

verus! {

/// Everything a signing identity is built from before the one network
/// round-trip: the resolved endpoint, the decoded address and private key
/// (sensitive; dropped with the account), and the encoding mode.
#[derive(Clone, Debug)]
pub struct PreparedAccount {
    pub endpoint: Endpoint,
    pub address: Felt,
    pub private_key: Felt,
    pub legacy_encoding: bool,
}

/// A signing identity: endpoint, address, key, the chain id fetched once
/// from the endpoint at construction, and the encoding mode.
#[derive(Clone, Debug)]
pub struct SigningAccount {
    pub endpoint: Endpoint,
    pub address: Felt,
    pub private_key: Felt,
    pub chain_id: Felt,
    pub legacy_encoding: bool,
}

/// The pure half of building a signing identity: resolves the endpoint
/// and decodes the address and key. No network traffic; the chain-id
/// round-trip follows in `account_with_chain_id`.
///
/// Fails with `InvalidNetwork` on an unresolvable endpoint string and with
/// `InvalidFieldElement` on an address or key that does not decode.
pub fn setup_account(
    url_network: &str,
    account_address: &str,
    account_privkey: &str,
    is_legacy: bool,
) -> (r: Result<PreparedAccount, Error>)
    ensures
        match r {
            Ok(pa) => endpoint_resolution_ok(url_network@, pa.endpoint) && felt_from_hex_spec(
                account_address@,
            ) == Some(pa.address) && felt_from_hex_spec(account_privkey@) == Some(pa.private_key)
                && pa.legacy_encoding == is_legacy,
            Err(e) => (endpoint_unresolvable(url_network@) && e is InvalidNetwork) || (
            !endpoint_unresolvable(url_network@) && (felt_from_hex_spec(account_address@) is None
                || felt_from_hex_spec(account_privkey@) is None) && e is InvalidFieldElement),
        },
{
    let endpoint = match setup_provider(url_network) {
        Ok(ep) => ep,
        Err(e) => return Err(e),
    };
    let address = match felt_from_hex(account_address) {
        Ok(f) => f,
        Err(e) => return Err(e),
    };
    let private_key = match felt_from_hex(account_privkey) {
        Ok(f) => f,
        Err(e) => return Err(e),
    };
    Ok(PreparedAccount { endpoint, address, private_key, legacy_encoding: is_legacy })
}

/// Completes the identity with the chain id the endpoint answered, or
/// fails atomically: a transport failure during the fetch surfaces
/// verbatim as `TransportError`, never wrapped, so configuration errors
/// stay distinguishable from connectivity errors.
pub fn account_with_chain_id(prepared: PreparedAccount, chain_id: Result<Felt, String>) -> (r:
    Result<SigningAccount, Error>)
    ensures
        match r {
            Ok(acct) => chain_id matches Ok(cid) && acct == (SigningAccount {
                endpoint: prepared.endpoint,
                address: prepared.address,
                private_key: prepared.private_key,
                chain_id: cid,
                legacy_encoding: prepared.legacy_encoding,
            }),
            Err(e) => chain_id matches Err(msg) && (e matches Error::TransportError(m) && m@
                == msg@),
        },
{
    match chain_id {
        Ok(cid) => Ok(
            SigningAccount {
                endpoint: prepared.endpoint,
                address: prepared.address,
                private_key: prepared.private_key,
                chain_id: cid,
                legacy_encoding: prepared.legacy_encoding,
            },
        ),
        Err(msg) => Err(Error::TransportError(msg)),
    }
}

} // verus!
