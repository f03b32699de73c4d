use vstd::prelude::*;
use vstd::string::StringExecFns;
use vstd::utf8::is_ascii_chars;
use crate::block::{block_parse_err, block_parse_ok, parse_block_id, BlockReference};
use crate::errors::Error;
use crate::felt::{felt_from_hex, felt_from_hex_spec, lemma_canonical_decodes, Felt};
use crate::protocol::{selector_from_name, selector_hex_of};

verus! {

/// A read-only function call, fully decoded: target, selector, calldata
/// and the block it is evaluated against. No signer is involved.
#[derive(Clone, Debug)]
pub struct FunctionCallRequest {
    pub contract_address: Felt,
    pub entry_point_selector: Felt,
    pub calldata: Vec<Felt>,
    pub block: BlockReference,
}

/// Resolves the optional `block_id` option: absent means the pending
/// block; present, it is parsed by the block-reference grammar.
pub fn resolve_block_option(block_id: &Option<String>) -> (r: Result<BlockReference, Error>)
    ensures
        match block_id {
            None => r == Ok::<BlockReference, Error>(BlockReference::Pending),
            Some(s) => match r {
                Ok(br) => block_parse_ok(s@, br),
                Err(e) => block_parse_err(s@, e),
            },
        },
{
    match block_id {
        None => Ok(BlockReference::Pending),
        Some(s) => parse_block_id(s.as_str()),
    }
}

/// Builds a read-only call request: decodes the contract address and the
/// calldata, resolves the function name to its selector, and takes the
/// block reference as parsed.
pub fn build_function_call(
    contract_address: &str,
    function_name: &str,
    calldata: &Vec<String>,
    block: BlockReference,
) -> (r: Result<FunctionCallRequest, Error>)
    ensures
        match r {
            Ok(req) => felt_from_hex_spec(contract_address@) == Some(req.contract_address)
                && is_ascii_chars(function_name@) && felt_from_hex_spec(
                selector_hex_of(function_name@),
            ) == Some(req.entry_point_selector) && req.calldata@.len() == calldata@.len() && (forall|j: int|
                0 <= j < calldata@.len() ==> felt_from_hex_spec(#[trigger] calldata@[j]@)
                    == Some(req.calldata@[j])) && req.block == block,
            Err(e) => (felt_from_hex_spec(contract_address@) is None || !is_ascii_chars(
                function_name@,
            ) || exists|j: int|
                0 <= j < calldata@.len() && felt_from_hex_spec(#[trigger] calldata@[j]@) is None)
                && (e is InvalidFieldElement || e is Other),
        },
{
    let mut sn_calldata: Vec<Felt> = Vec::new();
    let n = calldata.len();
    let mut i: usize = 0;
    while i < n
        invariant
            i <= n,
            n == calldata@.len(),
            sn_calldata@.len() == i,
            forall|j: int|
                0 <= j < i ==> felt_from_hex_spec(#[trigger] calldata@[j]@) == Some(
                    sn_calldata@[j],
                ),
        decreases n - i,
    {
        let f = match felt_from_hex(calldata[i].as_str()) {
            Ok(f) => f,
            Err(e) => return Err(e),
        };
        sn_calldata.push(f);
        i += 1;
    }
    let address = match felt_from_hex(contract_address) {
        Ok(f) => f,
        Err(e) => return Err(e),
    };
    let selector_hex = match selector_from_name(function_name) {
        Ok(h) => h,
        Err(msg) => return Err(Error::Other(msg)),
    };
    let selector = match felt_from_hex(selector_hex.as_str()) {
        Ok(f) => f,
        Err(_) => {
            proof {
                lemma_canonical_decodes(selector_hex@);
                assert(false);
            }
            return Err(Error::Other(selector_hex));
        },
    };
    Ok(
        FunctionCallRequest {
            contract_address: address,
            entry_point_selector: selector,
            calldata: sn_calldata,
            block,
        },
    )
}

/// Re-encodes the felts a call returned as canonical hex strings, in the
/// order the network returned them.
pub fn encode_call_result(values: &Vec<Felt>) -> (r: Vec<String>)
    ensures
        r@.len() == values@.len(),
        forall|i: int| 0 <= i < values@.len() ==> #[trigger] r@[i]@ == values@[i].to_hex_spec(),
{
    let n = values.len();
    let mut out: Vec<String> = Vec::new();
    let mut i: usize = 0;
    while i < n
        invariant
            i <= n,
            n == values@.len(),
            out@.len() == i,
            forall|j: int| 0 <= j < i ==> #[trigger] out@[j]@ == values@[j].to_hex_spec(),
        decreases n - i,
    {
        let h = values[i].to_hex();
        out.push(h);
        i += 1;
    }
    out
}

} // verus!
