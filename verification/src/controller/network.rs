//! The latest ledger of a Stellar network, as the public Horizon servers tell it.

use vstd::prelude::*;

use crate::crd::StellarNetwork;
use crate::error::Error;
use crate::json;
use crate::json::{get_member, parse_json, Json};
use crate::text::cat2;

verus! {

/// The public Horizon server of a network; custom networks have none.
pub fn horizon_url(network: &StellarNetwork) -> (r: Result<&'static str, Error>)
    ensures
        match network {
            StellarNetwork::Mainnet => r is Ok && r->Ok_0@ == "https://horizon.stellar.org"@,
            StellarNetwork::Testnet => r is Ok && r->Ok_0@
                == "https://horizon-testnet.stellar.org"@,
            StellarNetwork::Futurenet => r is Ok && r->Ok_0@
                == "https://horizon-futurenet.stellar.org"@,
            StellarNetwork::Custom(_) => r matches Err(Error::ConfigError(e)) && e@
                == "Custom network not supported for lag calculation yet"@,
        },
{
    match network {
        StellarNetwork::Mainnet => Ok("https://horizon.stellar.org"),
        StellarNetwork::Testnet => Ok("https://horizon-testnet.stellar.org"),
        StellarNetwork::Futurenet => Ok("https://horizon-futurenet.stellar.org"),
        StellarNetwork::Custom(_) => Err(
            Error::ConfigError("Custom network not supported for lag calculation yet".to_owned()),
        ),
    }
}

/// The latest ledger that a document of Horizon tells.
pub open spec fn told_ledger(document: Json) -> Option<u64> {
    document.member("history_latest_ledger"@).number()
}

/// The latest ledger that a document of Horizon tells.
pub fn ledger_in(document: &serde_json::Value) -> (r: Result<u64, Error>)
    ensures
        match told_ledger(json::json_of(*document)) {
            Some(ledger) => r is Ok && r->Ok_0 == ledger,
            None => r matches Err(Error::ConfigError(e)) && e@
                == "Failed to get latest ledger from horizon"@,
        },
{
    if let Some(member) = get_member(document, "history_latest_ledger") {
        if let Some(ledger) = member.as_u64() {
            return Ok(ledger);
        }
    }
    Err(Error::ConfigError("Failed to get latest ledger from horizon".to_owned()))
}

/// Helper to get the latest ledger from the Stellar network: what the reply of the
/// Horizon server tells.
pub fn get_latest_network_ledger(body: &str) -> (r: Result<u64, Error>)
    ensures
        match json::parsed_json(body@) {
            Ok(document) => match told_ledger(document) {
                Some(ledger) => r is Ok && r->Ok_0 == ledger,
                None => r matches Err(Error::ConfigError(e)) && e@
                    == "Failed to get latest ledger from horizon"@,
            },
            Err(error) => r matches Err(Error::ConfigError(e)) && e@
                == "error decoding response body: "@ + error,
        },
{
    match parse_json(body) {
        Ok(document) => ledger_in(&document),
        Err(error) => Err(
            Error::ConfigError(cat2("error decoding response body: ", error.as_str())),
        ),
    }
}

/// The ledger that a document tells is the number under its name, and without a number
/// there it tells none.
pub proof fn ledger_is_read_by_its_name(document: Json, ledger: u64)
    ensures
        document.member("history_latest_ledger"@).number() == Some(ledger) ==> told_ledger(
            document,
        ) == Some(ledger),
        document.member("history_latest_ledger"@).number() is None ==> told_ledger(document)
            is None,
{
}

} // verus!
