//! The network registry: chain selectors, the canonical network identity each
//! one names, and the network-dependent tables (RPC port, directory suffix)
//! that every derived default routes through.

use vstd::prelude::*;
use vstd::string::StringExecFns;

verus! {

/// User-facing selector for the network to index. Aliases map many-to-one
/// onto network identities: `Main`/`Mainnet` and `Test`/`Testnet` are
/// indistinguishable in every derived value.
#[derive(Clone, Copy, Debug, PartialEq, Eq, Structural)]
pub enum Chain {
    Main,
    Mainnet,
    Regtest,
    Signet,
    Test,
    Testnet,
}

/// Canonical, alias-free network identity. Every environment-dependent
/// default is a total function of this value.
#[derive(Clone, Copy, Debug, PartialEq, Eq, Structural)]
pub enum Network {
    Bitcoin,
    Regtest,
    Signet,
    Testnet,
}

/// `base` extended by one further path segment.
pub open spec fn path_join_spec(base: Seq<char>, segment: Seq<char>) -> Seq<char> {
    base + "/"@ + segment
}

/// `base` extended by one further path segment.
pub fn path_join(base: &str, segment: &str) -> (r: String)
    ensures
        r@ == path_join_spec(base@, segment@),
{
    let mut joined = base.to_owned();
    joined.append("/");
    joined.append(segment);
    joined
}

impl Network {
    /// The lowercase name of this network, used as a directory segment.
    pub open spec fn name_spec(self) -> Seq<char> {
        match self {
            Network::Bitcoin => "bitcoin"@,
            Network::Regtest => "regtest"@,
            Network::Signet => "signet"@,
            Network::Testnet => "testnet"@,
        }
    }

    /// The lowercase name of this network, used as a directory segment.
    pub fn name(self) -> (r: &'static str)
        ensures
            r@ == self.name_spec(),
    {
        match self {
            Network::Bitcoin => "bitcoin",
            Network::Regtest => "regtest",
            Network::Signet => "signet",
            Network::Testnet => "testnet",
        }
    }

    /// The default RPC port of this network. Fixed table; no error path.
    pub open spec fn port_spec(self) -> Seq<char> {
        match self {
            Network::Bitcoin => "8332"@,
            Network::Regtest => "18443"@,
            Network::Signet => "38332"@,
            Network::Testnet => "18332"@,
        }
    }

    /// The default RPC port of this network. Fixed table; no error path.
    pub fn port(self) -> (r: &'static str)
        ensures
            r@ == self.port_spec(),
    {
        match self {
            Network::Bitcoin => "8332",
            Network::Regtest => "18443",
            Network::Signet => "38332",
            Network::Testnet => "18332",
        }
    }
}

impl Chain {
    /// The network identity this selector names; aliases fold together here.
    pub open spec fn network_spec(self) -> Network {
        match self {
            Chain::Main | Chain::Mainnet => Network::Bitcoin,
            Chain::Regtest => Network::Regtest,
            Chain::Signet => Network::Signet,
            Chain::Test | Chain::Testnet => Network::Testnet,
        }
    }

    /// The network identity this selector names; aliases fold together here.
    pub fn network(self) -> (n: Network)
        ensures
            n == self.network_spec(),
    {
        match self {
            Chain::Main | Chain::Mainnet => Network::Bitcoin,
            Chain::Regtest => Network::Regtest,
            Chain::Signet => Network::Signet,
            Chain::Test | Chain::Testnet => Network::Testnet,
        }
    }

    /// The network-dependent directory suffix: the primary network leaves
    /// `data_dir` unchanged; every other network appends its lowercase name
    /// as one path segment.
    pub open spec fn join_network_spec(self, data_dir: Seq<char>) -> Seq<char> {
        if self.network_spec() == Network::Bitcoin {
            data_dir
        } else {
            path_join_spec(data_dir, self.network_spec().name_spec())
        }
    }

    /// The single place directory-suffixing lives: `data_dir` unchanged for
    /// the primary network, else joined with the network's lowercase name.
    pub fn join_network_with_data_dir(self, data_dir: &str) -> (r: String)
        ensures
            r@ == self.join_network_spec(data_dir@),
    {
        match self.network() {
            Network::Bitcoin => data_dir.to_owned(),
            other => path_join(data_dir, other.name()),
        }
    }
}

} // verus!
