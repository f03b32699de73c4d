use vstd::prelude::*;
use vstd::string::StringExecFns;
use crate::errors::Error;

verus! {

/// The script-level configuration consumed by the operations: the values
/// the host script binds before invoking any of them. Handed in explicitly
/// at invocation time; the core never reads ambient global state.
#[derive(Clone, Debug)]
pub struct ScriptConfig {
    /// URL or network name of the endpoint; required by every operation.
    pub rpc: Option<String>,
    /// Address of the signing account; required by signing operations.
    pub account_address: Option<String>,
    /// Private key of the signing account; required by signing operations.
    pub account_privkey: Option<String>,
    /// Selects the legacy transaction-encoding mode; absent means current.
    pub account_is_legacy: Option<bool>,
}

impl ScriptConfig {
    /// All three values a signing operation needs are present.
    pub open spec fn has_signing_config(&self) -> bool {
        self.rpc is Some && self.account_address is Some && self.account_privkey is Some
    }

    /// The legacy-encoding flag, defaulted to false when absent.
    pub open spec fn legacy_spec(&self) -> bool {
        self.account_is_legacy == Some(true)
    }
}

/// Retrieves the endpoint, address, key and encoding mode a signing
/// operation needs.
///
/// Fails with a recoverable `ConfigurationMissing` — never by terminating
/// the process — when any of the three required values is absent, before
/// any network traffic could happen.
pub fn get_account(config: &ScriptConfig) -> (r: Result<(String, String, String, bool), Error>)
    ensures
        match r {
            Ok(t) => config.has_signing_config() && t.0@ == config.rpc->0@ && t.1@
                == config.account_address->0@ && t.2@ == config.account_privkey->0@ && t.3
                == config.legacy_spec(),
            Err(e) => !config.has_signing_config() && e is ConfigurationMissing,
        },
{
    match (&config.rpc, &config.account_address, &config.account_privkey) {
        (Some(un), Some(a), Some(p)) => {
            let legacy: bool = match &config.account_is_legacy {
                Some(true) => true,
                _ => false,
            };
            Ok((un.clone(), a.clone(), p.clone(), legacy))
        },
        _ => Err(
            Error::ConfigurationMissing(
                String::from_str(
                    "RPC, ACCOUNT_ADDRESS and ACCOUNT_PRIVKEY are required by a transaction",
                ),
            ),
        ),
    }
}

/// Retrieves the endpoint string alone, for read-only operations.
///
/// Fails with a recoverable `ConfigurationMissing` when it is absent.
pub fn get_provider(config: &ScriptConfig) -> (r: Result<String, Error>)
    ensures
        match r {
            Ok(u) => config.rpc is Some && u@ == config.rpc->0@,
            Err(e) => config.rpc is None && e is ConfigurationMissing,
        },
{
    match &config.rpc {
        Some(un) => Ok(un.clone()),
        None => Err(
            Error::ConfigurationMissing(String::from_str("RPC is required by a call")),
        ),
    }
}

/// Converts the optional watch-interval option, in milliseconds, into the
/// poll interval handed to the confirmation poller; absence means
/// fire-and-forget.
pub fn get_watch_from_options(watch_interval: Option<u32>) -> (r: Option<u64>)
    ensures
        match watch_interval {
            Some(ms) => r == Some(ms as u64),
            None => r is None,
        },
{
    match watch_interval {
        Some(ms) => Some(ms as u64),
        None => None,
    }
}

} // verus!
