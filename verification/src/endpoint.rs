use vstd::prelude::*;
use vstd::string::{StrSliceExecFns, StringExecFns};
use crate::errors::Error;

verus! {

/// The fixed set of named gateway networks.
#[derive(Clone, Copy, Debug, PartialEq, Eq, Structural)]
pub enum Network {
    Mainnet,
    Goerli1,
    Goerli2,
}

/// A network access capability: either a JSON-RPC endpoint reached over
/// HTTP at the given URL, or one of the named sequencer gateways.
///
/// Exactly one variant is live; resolution from a string is a pure
/// function and performs no network traffic.
#[derive(Clone, Debug)]
pub enum Endpoint {
    HttpRpc(String),
    NamedGateway(Network),
}

/// The string starts with the four characters `http`.
pub open spec fn starts_with_http(s: Seq<char>) -> bool {
    s.len() >= 4 && s[0] == 'h' && s[1] == 't' && s[2] == 't' && s[3] == 'p'
}

/// `ep` is what the resolution grammar maps `s` to.
pub open spec fn endpoint_resolution_ok(s: Seq<char>, ep: Endpoint) -> bool {
    match ep {
        Endpoint::HttpRpc(u) => starts_with_http(s) && u@ == s,
        Endpoint::NamedGateway(n) => !starts_with_http(s) && ((s == "MAINNET"@ && n
            == Network::Mainnet) || (s == "GOERLI-1"@ && n == Network::Goerli1) || (s
            == "GOERLI-2"@ && n == Network::Goerli2)),
    }
}

/// `s` is neither a URL nor a recognized gateway name.
pub open spec fn endpoint_unresolvable(s: Seq<char>) -> bool {
    !starts_with_http(s) && s != "MAINNET"@ && s != "GOERLI-1"@ && s != "GOERLI-2"@
}

/// Character-wise string equality.
pub fn str_eq(a: &str, b: &str) -> (r: bool)
    ensures
        r == (a@ == b@),
{
    let na = a.unicode_len();
    let nb = b.unicode_len();
    if na != nb {
        return false;
    }
    let mut i: usize = 0;
    while i < na
        invariant
            i <= na,
            na == a@.len(),
            na == b@.len(),
            forall|j: int| 0 <= j < i ==> a@[j] == b@[j],
        decreases na - i,
    {
        if a.get_char(i) != b.get_char(i) {
            return false;
        }
        i += 1;
    }
    proof {
        assert(a@ =~= b@);
    }
    true
}

/// Resolves a URL-or-network-name string into an endpoint.
///
/// A string starting with `http` is an HTTP-RPC endpoint carrying that
/// URL verbatim; otherwise the string must be one of the recognized
/// gateway names, and anything else is `InvalidNetwork`. Pure and total
/// over this grammar; no I/O.
pub fn setup_provider(url_network: &str) -> (r: Result<Endpoint, Error>)
    ensures
        match r {
            Ok(ep) => endpoint_resolution_ok(url_network@, ep),
            Err(e) => endpoint_unresolvable(url_network@) && (e matches Error::InvalidNetwork(m)
                && m@ == url_network@),
        },
{
    let n = url_network.unicode_len();
    if n >= 4 && url_network.get_char(0) == 'h' && url_network.get_char(1) == 't'
        && url_network.get_char(2) == 't' && url_network.get_char(3) == 'p' {
        return Ok(Endpoint::HttpRpc(String::from_str(url_network)));
    }
    if str_eq(url_network, "MAINNET") {
        Ok(Endpoint::NamedGateway(Network::Mainnet))
    } else if str_eq(url_network, "GOERLI-1") {
        Ok(Endpoint::NamedGateway(Network::Goerli1))
    } else if str_eq(url_network, "GOERLI-2") {
        Ok(Endpoint::NamedGateway(Network::Goerli2))
    } else {
        Err(Error::InvalidNetwork(String::from_str(url_network)))
    }
}

} // verus!
