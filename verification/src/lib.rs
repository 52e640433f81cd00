//! Resolution of the runtime configuration a chain-indexing client needs to
//! reach a full node's RPC interface and to locate its on-disk storage: a
//! required chain selection plus a small set of optional user overrides,
//! from which the index-size limit, the RPC endpoint, the credential-file
//! path and the data-directory path are derived on demand.

pub mod bytes;
pub mod chain;
pub mod laws;
pub mod options;
