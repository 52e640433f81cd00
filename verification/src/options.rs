//! The configuration resolver: an immutable set of optional user overrides
//! plus the selected chain, from which four values are derived on demand.
//! Each derived value is recomputed on every access as a pure function of the
//! overrides, the chain, and (where no override is given) one platform
//! directory lookup.

use vstd::prelude::*;
use vstd::string::StringExecFns;

use crate::bytes::{Bytes, MIB, TIB};
use crate::chain::{path_join, path_join_spec, Chain, Network};

verus! {

/// Why configuration resolution failed.
#[derive(Clone, Copy, Debug, PartialEq, Eq, Structural)]
pub enum Error {
    /// The platform's home directory could not be determined.
    HomeDir,
    /// The platform's application-data directory could not be determined.
    DataDir,
}

impl Error {
    /// A human-readable description of the failure.
    pub fn message(self) -> (r: &'static str)
        ensures
            self == Error::HomeDir ==> r@ == "Failed to retrieve home dir"@,
            self == Error::DataDir ==> r@ == "Failed to retrieve data dir"@,
    {
        match self {
            Error::HomeDir => "Failed to retrieve home dir",
            Error::DataDir => "Failed to retrieve data dir",
        }
    }
}

/// The resolver's immutable state: user-supplied overrides, each optional,
/// and the selected chain. No field changes after construction; every
/// accessor is a pure function of this state.
pub struct Options {
    /// Overrides the default limit on the index's size, in bytes.
    pub max_index_size: Option<Bytes>,
    /// Overrides the default path of the node's RPC cookie file.
    pub cookie_file: Option<String>,
    /// Overrides the network-derived default RPC endpoint.
    pub rpc_url: Option<String>,
    /// The chain to index.
    pub chain: Chain,
    /// Overrides the default directory the index is stored in.
    pub data_dir: Option<String>,
    /// Overrides the default location of the node's own data directory.
    pub bitcoin_data_dir: Option<String>,
    /// Limits indexing to this many blocks; passed through, not resolved here.
    pub height_limit: Option<u64>,
}

impl Default for Options {
    /// No overrides, and the primary chain.
    fn default() -> (r: Options)
        ensures
            r.max_index_size is None,
            r.cookie_file is None,
            r.rpc_url is None,
            r.chain == Chain::Mainnet,
            r.data_dir is None,
            r.bitcoin_data_dir is None,
            r.height_limit is None,
    {
        Options {
            max_index_size: None,
            cookie_file: None,
            rpc_url: None,
            chain: Chain::Mainnet,
            data_dir: None,
            bitcoin_data_dir: None,
            height_limit: None,
        }
    }
}

/// Relies on dirs::home_dir: the user's home directory, where the platform
/// defines one, converted to a string. The value depends on the environment,
/// so nothing is promised of it.
#[verifier::external_body]
fn home_dir() -> (r: Option<String>) {
    dirs::home_dir().and_then(|p| p.into_os_string().into_string().ok())
}

/// Relies on dirs::data_dir: the platform's per-user application-data
/// directory, converted to a string. The value depends on the environment,
/// so nothing is promised of it.
#[verifier::external_body]
fn data_dir_lookup() -> (r: Option<String>) {
    dirs::data_dir().and_then(|p| p.into_os_string().into_string().ok())
}

/// Relies on dirs::state_dir: the per-user state directory, which the dirs
/// crate defines under the XDG conventions of Linux-like platforms and on no
/// other. Whether the lookup yields anything is what tells those two
/// conventions apart at runtime; the value depends on the environment, so
/// nothing is promised of it.
#[verifier::external_body]
fn state_dir_lookup() -> (r: Option<String>) {
    dirs::state_dir().and_then(|p| p.into_os_string().into_string().ok())
}

impl Options {
    /// The limit on the index's size: the override verbatim if one was
    /// given (however small), else 10 MiB on regtest and 1 TiB elsewhere.
    pub open spec fn max_index_size_spec(self) -> Bytes {
        match self.max_index_size {
            Some(bytes) => bytes,
            None => match self.chain.network_spec() {
                Network::Regtest => Bytes((10 * MIB) as u64),
                Network::Bitcoin | Network::Signet | Network::Testnet => Bytes(TIB),
            },
        }
    }

    /// The limit on the index's size, in bytes.
    pub fn max_index_size(&self) -> (r: Bytes)
        ensures
            r == self.max_index_size_spec(),
    {
        match self.max_index_size {
            Some(bytes) => bytes,
            None => match self.chain.network() {
                Network::Regtest => Bytes(10 * MIB),
                Network::Bitcoin | Network::Signet | Network::Testnet => Bytes(TIB),
            },
        }
    }

    /// The RPC endpoint: the override verbatim if one was given (no
    /// cross-validation against the chain), else localhost at the active
    /// network's default port.
    pub open spec fn rpc_url_spec(self) -> Seq<char> {
        match self.rpc_url {
            Some(url) => url@,
            None => "127.0.0.1:"@ + self.chain.network_spec().port_spec(),
        }
    }

    /// The URL the RPC client should connect to.
    pub fn rpc_url(&self) -> (r: String)
        ensures
            r@ == self.rpc_url_spec(),
    {
        match &self.rpc_url {
            Some(url) => url.clone(),
            None => {
                let mut url = String::from_str("127.0.0.1:");
                url.append(self.chain.network().port());
                url
            },
        }
    }

    /// The credential file's location below a node-data base directory:
    /// the network suffix applied to `base`, then the fixed file name.
    pub open spec fn cookie_file_in_spec(self, base: Seq<char>) -> Seq<char> {
        path_join_spec(self.chain.join_network_spec(base), ".cookie"@)
    }

    /// Where the node's RPC cookie file is expected: the override verbatim
    /// if one was given, bypassing all network logic; else the network
    /// suffix and the fixed file name applied to the node-data directory
    /// override, or failing that to the platform's default node-data
    /// location (a dot-directory under the home directory where the
    /// platform follows Linux conventions, a named directory under the
    /// application-data area elsewhere). Never touches the filesystem: the
    /// credential file's tree is owned by the node process.
    pub fn cookie_file(&self) -> (r: Result<String, Error>)
        ensures
            self.cookie_file is Some ==> (r is Ok && r->Ok_0@ == self.cookie_file->0@),
            self.cookie_file is None && self.bitcoin_data_dir is Some ==> (
                r is Ok && r->Ok_0@ == self.cookie_file_in_spec(self.bitcoin_data_dir->0@)
            ),
            self.cookie_file is None && self.bitcoin_data_dir is None ==> (match r {
                Ok(p) => exists|base: Seq<char>| p@ == self.cookie_file_in_spec(base),
                Err(e) => e == Error::HomeDir || e == Error::DataDir,
            }),
    {
        if let Some(file) = &self.cookie_file {
            return Ok(file.clone());
        }

        let base: String = if let Some(dir) = &self.bitcoin_data_dir {
            dir.clone()
        } else if state_dir_lookup().is_some() {
            match home_dir() {
                Some(home) => path_join(home.as_str(), ".bitcoin"),
                None => {
                    return Err(Error::HomeDir);
                },
            }
        } else {
            match data_dir_lookup() {
                Some(data) => path_join(data.as_str(), "Bitcoin"),
                None => {
                    return Err(Error::DataDir);
                },
            }
        };

        let suffixed = self.chain.join_network_with_data_dir(base.as_str());
        let path = path_join(suffixed.as_str(), ".cookie");
        proof {
            assert(path@ == self.cookie_file_in_spec(base@));
        }
        Ok(path)
    }

    /// The index's directory below a platform data directory: the fixed
    /// program-name segment, then the network suffix.
    pub open spec fn data_dir_in_spec(self, base: Seq<char>) -> Seq<char> {
        self.chain.join_network_spec(path_join_spec(base, "ord"@))
    }

    /// Where the index is stored: the override verbatim if one was given,
    /// with no suffixing, else the program's directory under the platform's
    /// application-data location, with the network suffix applied. This
    /// computes the path only; creating the directory on disk is the
    /// caller's side effect, performed after resolution.
    pub fn data_dir(&self) -> (r: Result<String, Error>)
        ensures
            self.data_dir is Some ==> (r is Ok && r->Ok_0@ == self.data_dir->0@),
            self.data_dir is None ==> (match r {
                Ok(p) => exists|base: Seq<char>| p@ == self.data_dir_in_spec(base),
                Err(e) => e == Error::DataDir,
            }),
    {
        if let Some(dir) = &self.data_dir {
            return Ok(dir.clone());
        }

        let base = match data_dir_lookup() {
            Some(data) => data,
            None => {
                return Err(Error::DataDir);
            },
        };

        let program_dir = path_join(base.as_str(), "ord");
        let path = self.chain.join_network_with_data_dir(program_dir.as_str());
        proof {
            assert(path@ == self.data_dir_in_spec(base@));
        }
        Ok(path)
    }
}

} // verus!
