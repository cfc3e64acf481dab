//! The fixed set of networks a wallet can run on, and the spelling of
//! their names as they appear in command-line flags and directory names.

use vstd::prelude::*;
use vstd::string::StringExecFns;

use crate::text::str_eq;

verus! {

/// A network the wallet daemon can operate on.  Exactly one is chosen per
/// wallet; the per-network configuration lives in a subdirectory of the
/// data directory named after it.
#[derive(Clone, Copy, Debug, PartialEq, Eq, Structural)]
pub enum Network {
    Bitcoin,
    Testnet,
    Signet,
    Regtest,
}

impl Network {
    /// The canonical lower-case name of the network.
    pub open spec fn name_spec(self) -> Seq<char> {
        match self {
            Network::Bitcoin => "bitcoin"@,
            Network::Testnet => "testnet"@,
            Network::Signet => "signet"@,
            Network::Regtest => "regtest"@,
        }
    }

    /// The canonical lower-case name of the network, used to build the
    /// per-network configuration directory path.
    pub fn name(&self) -> (r: String)
        ensures
            r@ == self.name_spec(),
    {
        match self {
            Network::Bitcoin => String::from_str("bitcoin"),
            Network::Testnet => String::from_str("testnet"),
            Network::Signet => String::from_str("signet"),
            Network::Regtest => String::from_str("regtest"),
        }
    }
}

/// Which network, if any, a canonical name denotes.
pub open spec fn network_of_name(s: Seq<char>) -> Option<Network> {
    if s == "bitcoin"@ {
        Some(Network::Bitcoin)
    } else if s == "testnet"@ {
        Some(Network::Testnet)
    } else if s == "signet"@ {
        Some(Network::Signet)
    } else if s == "regtest"@ {
        Some(Network::Regtest)
    } else {
        None
    }
}

/// Parses a canonical network name, accepting exactly the four known
/// spellings.
pub fn network_from_name(s: &str) -> (r: Option<Network>)
    ensures
        r == network_of_name(s@),
{
    if str_eq(s, "bitcoin") {
        Some(Network::Bitcoin)
    } else if str_eq(s, "testnet") {
        Some(Network::Testnet)
    } else if str_eq(s, "signet") {
        Some(Network::Signet)
    } else if str_eq(s, "regtest") {
        Some(Network::Regtest)
    } else {
        None
    }
}

} // verus!
