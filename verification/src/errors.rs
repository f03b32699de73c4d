use vstd::prelude::*;
use vstd::string::StringExecFns;

verus! {

/// Error taxonomy of the orchestration core.
///
/// Every failure of an operation is eventually turned into one of these
/// variants; the payload carries the human-readable detail that ends up in
/// the output envelope crossing back to the scripting host.
#[derive(Debug, Clone)]
pub enum Error {
    /// A required script-level configuration value is absent.
    ConfigurationMissing(String),
    /// A string could not be decoded as a field element.
    InvalidFieldElement(String),
    /// A string is neither a block tag, a block number nor a block hash.
    InvalidBlockReference(String),
    /// A numeric block reference does not fit in 64 bits.
    InvalidBlockNumber(String),
    /// A network name is not one of the recognized gateways.
    InvalidNetwork(String),
    /// The artifact locator found no match, or an ambiguous one.
    ArtifactsMissing(String),
    /// The endpoint was unreachable or answered malformed data;
    /// carried through unmodified.
    TransportError(String),
    /// The transaction was included and reverted on-chain, with the reason.
    TransactionReverted(String),
    /// A local file could not be read.
    IOError(String),
    /// Any other failure, described in prose.
    Other(String),
}

impl Error {
    /// The detail string the variant carries.
    pub open spec fn detail_spec(&self) -> Seq<char> {
        match self {
            Error::ConfigurationMissing(s) => s@,
            Error::InvalidFieldElement(s) => s@,
            Error::InvalidBlockReference(s) => s@,
            Error::InvalidBlockNumber(s) => s@,
            Error::InvalidNetwork(s) => s@,
            Error::ArtifactsMissing(s) => s@,
            Error::TransportError(s) => s@,
            Error::TransactionReverted(s) => s@,
            Error::IOError(s) => s@,
            Error::Other(s) => s@,
        }
    }

    /// A short label naming the variant; never empty.
    pub open spec fn label_spec(&self) -> Seq<char> {
        match self {
            Error::ConfigurationMissing(_) => "configuration missing: "@,
            Error::InvalidFieldElement(_) => "invalid field element: "@,
            Error::InvalidBlockReference(_) => "invalid block reference: "@,
            Error::InvalidBlockNumber(_) => "invalid block number: "@,
            Error::InvalidNetwork(_) => "invalid network: "@,
            Error::ArtifactsMissing(_) => "contract artifacts missing: "@,
            Error::TransportError(_) => "transport error: "@,
            Error::TransactionReverted(_) => "transaction reverted: "@,
            Error::IOError(_) => "i/o error: "@,
            Error::Other(_) => "error: "@,
        }
    }

    /// Renders the error as the message handed to the scripting host:
    /// the variant's label followed by the full, unredacted detail.
    pub fn message(&self) -> (r: String)
        ensures
            r@ == self.label_spec() + self.detail_spec(),
            r@.len() > 0,
    {
        let label: &str = match self {
            Error::ConfigurationMissing(_) => "configuration missing: ",
            Error::InvalidFieldElement(_) => "invalid field element: ",
            Error::InvalidBlockReference(_) => "invalid block reference: ",
            Error::InvalidBlockNumber(_) => "invalid block number: ",
            Error::InvalidNetwork(_) => "invalid network: ",
            Error::ArtifactsMissing(_) => "contract artifacts missing: ",
            Error::TransportError(_) => "transport error: ",
            Error::TransactionReverted(_) => "transaction reverted: ",
            Error::IOError(_) => "i/o error: ",
            Error::Other(_) => "error: ",
        };
        let detail: &String = match self {
            Error::ConfigurationMissing(s) => s,
            Error::InvalidFieldElement(s) => s,
            Error::InvalidBlockReference(s) => s,
            Error::InvalidBlockNumber(s) => s,
            Error::InvalidNetwork(s) => s,
            Error::ArtifactsMissing(s) => s,
            Error::TransactionReverted(s) => s,
            Error::TransportError(s) => s,
            Error::IOError(s) => s,
            Error::Other(s) => s,
        };
        proof {
            reveal_strlit("configuration missing: ");
            reveal_strlit("invalid field element: ");
            reveal_strlit("invalid block reference: ");
            reveal_strlit("invalid block number: ");
            reveal_strlit("invalid network: ");
            reveal_strlit("contract artifacts missing: ");
            reveal_strlit("transport error: ");
            reveal_strlit("transaction reverted: ");
            reveal_strlit("i/o error: ");
            reveal_strlit("error: ");
        }
        let mut out = String::from_str(label);
        out.append(detail.as_str());
        out
    }
}

/// Error shape expected by the scripting host's binding layer, which wants
/// a single struct carrying a reason string.
#[derive(Debug, Clone)]
pub struct ErrorExtLua {
    reason: String,
}

impl ErrorExtLua {
    /// The reason string the error was built from.
    pub closed spec fn reason_view(&self) -> Seq<char> {
        self.reason@
    }

    pub fn new(reason: &str) -> (r: Self)
        ensures
            r.reason_view() == reason@,
    {
        Self { reason: String::from_str(reason) }
    }

    /// The reason string, as handed back to the host.
    pub fn reason(&self) -> (r: &String)
        ensures
            r@ == self.reason_view(),
    {
        &self.reason
    }
}

} // verus!
