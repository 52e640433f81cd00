use vstd::prelude::*;

verus! {

/// One mebibyte: 2^20 bytes.
pub const MIB: u64 = 1048576;

/// One tebibyte: 2^40 bytes.
pub const TIB: u64 = 1099511627776;

/// A count of bytes.
#[derive(Clone, Copy, Debug, PartialEq, Eq, Structural)]
pub struct Bytes(pub u64);

} // verus!
