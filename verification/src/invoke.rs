use vstd::prelude::*;
use vstd::string::StringExecFns;
use vstd::utf8::is_ascii_chars;
use crate::errors::Error;
use crate::felt::{felt_from_hex, felt_from_hex_spec, lemma_canonical_decodes, Felt};
use crate::protocol::{selector_from_name, selector_hex_of};

verus! {

/// One call of an invoke transaction, as the script hands it in: a target
/// address, a function name, and calldata, all as strings.
#[derive(Clone, Debug)]
pub struct InvokeCall {
    pub to: String,
    pub func: String,
    pub calldata: Vec<String>,
}

/// One call with everything decoded and the selector resolved, ready to
/// be placed in the transaction.
#[derive(Clone, Debug)]
pub struct PreparedCall {
    pub to: Felt,
    pub selector: Felt,
    pub calldata: Vec<Felt>,
}

/// `p` is exactly `c` decoded: the target address decodes to `p.to`, the
/// selector is the hash of the function name, and the calldata decodes
/// element for element, in order.
pub open spec fn call_prepared(c: InvokeCall, p: PreparedCall) -> bool {
    felt_from_hex_spec(c.to@) == Some(p.to) && is_ascii_chars(c.func@) && felt_from_hex_spec(
        selector_hex_of(c.func@),
    ) == Some(p.selector) && p.calldata@.len() == c.calldata@.len() && forall|j: int|
        0 <= j < c.calldata@.len() ==> felt_from_hex_spec(#[trigger] c.calldata@[j]@) == Some(
            p.calldata@[j],
        )
}

/// Something in `c` does not build: the target does not decode, the
/// function name is not ASCII, or some calldata element does not decode.
pub open spec fn call_ill_formed(c: InvokeCall) -> bool {
    felt_from_hex_spec(c.to@) is None || !is_ascii_chars(c.func@) || exists|j: int|
        0 <= j < c.calldata@.len() && felt_from_hex_spec(#[trigger] c.calldata@[j]@) is None
}

/// Builds the calls of one multi-call invoke transaction from the
/// script's calls: order preserved — it is the on-chain execution order —
/// and each call decoded exactly.
pub fn build_invoke_calls(calls: &Vec<InvokeCall>) -> (r: Result<Vec<PreparedCall>, Error>)
    ensures
        match r {
            Ok(pcs) => pcs@.len() == calls@.len() && forall|i: int|
                0 <= i < calls@.len() ==> call_prepared(calls@[i], #[trigger] pcs@[i]),
            Err(e) => (exists|i: int|
                0 <= i < calls@.len() && call_ill_formed(#[trigger] calls@[i])) && (
            e is InvalidFieldElement || e is Other),
        },
{
    let n = calls.len();
    let mut out: Vec<PreparedCall> = Vec::new();
    let mut i: usize = 0;
    while i < n
        invariant
            i <= n,
            n == calls@.len(),
            out@.len() == i,
            forall|k: int| 0 <= k < i ==> call_prepared(calls@[k], #[trigger] out@[k]),
        decreases n - i,
    {
        let c = &calls[i];
        let to = match felt_from_hex(c.to.as_str()) {
            Ok(f) => f,
            Err(e) => {
                proof {
                    assert(call_ill_formed(calls@[i as int]));
                }
                return Err(e);
            },
        };
        let selector_hex = match selector_from_name(c.func.as_str()) {
            Ok(h) => h,
            Err(msg) => {
                proof {
                    assert(call_ill_formed(calls@[i as int]));
                }
                return Err(Error::Other(msg));
            },
        };
        let selector = match felt_from_hex(selector_hex.as_str()) {
            Ok(f) => f,
            Err(_) => {
                proof {
                    lemma_canonical_decodes(selector_hex@);
                    assert(false);
                }
                return Err(Error::Other(selector_hex));
            },
        };
        let m = c.calldata.len();
        let mut data: Vec<Felt> = Vec::new();
        let mut j: usize = 0;
        while j < m
            invariant
                j <= m,
                i < n,
                n == calls@.len(),
                c.calldata@ == calls@[i as int].calldata@,
                m == c.calldata@.len(),
                felt_from_hex_spec(calls@[i as int].to@) == Some(to),
                is_ascii_chars(calls@[i as int].func@),
                felt_from_hex_spec(selector_hex_of(calls@[i as int].func@)) == Some(selector),
                data@.len() == j,
                forall|k: int|
                    0 <= k < j ==> felt_from_hex_spec(#[trigger] c.calldata@[k]@) == Some(
                        data@[k],
                    ),
            decreases m - j,
        {
            let f = match felt_from_hex(c.calldata[j].as_str()) {
                Ok(f) => f,
                Err(e) => {
                    proof {
                        assert(felt_from_hex_spec(calls@[i as int].calldata@[j as int]@) is None);
                        assert(call_ill_formed(calls@[i as int]));
                    }
                    return Err(e);
                },
            };
            data.push(f);
            j += 1;
        }
        out.push(PreparedCall { to, selector, calldata: data });
        i += 1;
    }
    Ok(out)
}

} // verus!
