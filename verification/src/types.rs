//! The shared data model: addresses, block references, 256-bit words, the
//! per-operation and per-block auxiliary results, and the propagated error
//! kind.

use vstd::prelude::*;

verus! {

/// A 20-byte account or contract address.
#[derive(Clone, Copy, Debug, PartialEq, Eq)]
pub struct Address {
    pub bytes: [u8; 20],
}

/// A reference to a specific block, pinned either by its 32-byte hash or by
/// its height. Estimation is always pinned to one such reference so that the
/// result is reproducible.
#[derive(Clone, Copy, Debug, PartialEq, Eq)]
pub enum BlockHashOrNumber {
    Hash([u8; 32]),
    Number(u64),
}

/// An unsigned 256-bit word, held as four 64-bit limbs, least significant
/// first.
#[derive(Clone, Copy, Debug, PartialEq, Eq)]
pub struct U256 {
    pub limbs: [u64; 4],
}

/// Per-user-operation auxiliary data produced by an estimate. Callers treat
/// it as opaque beyond the tagged-empty variant; a rollup stack whose DA
/// cost is charged per compressed byte may populate the size variant. The
/// Arbitrum-Nitro-style oracle always yields `Empty`.
#[derive(Clone, Copy, Debug, PartialEq, Eq)]
pub enum DAGasUOData {
    Empty,
    /// The operation's compressed size on the DA layer, in bytes.
    CompressedSize { size: u64 },
}

/// Per-block auxiliary data produced by an estimate, shareable across many
/// operations in the same block. The Arbitrum-Nitro-style oracle always
/// yields `Empty`.
#[derive(Clone, Copy, Debug, PartialEq, Eq)]
pub enum DAGasBlockData {
    Empty,
    /// A snapshot of the L1 base fee at the pinned block.
    L1BaseFee { base_fee: U256 },
}

/// The single error kind this component propagates: a failure of the
/// underlying blockchain query. The oracle never recovers locally; the
/// failure surfaces to the caller unchanged.
#[derive(Clone, Debug, PartialEq, Eq)]
pub enum ProviderError {
    /// The node was unreachable or the connection failed mid-call.
    Transport(String),
    /// The node answered with an RPC-level error, including a contract
    /// revert.
    Rpc(String),
    /// The response could not be decoded into the expected shape.
    Decode(String),
}

/// The result type of every operation that issues a blockchain query.
pub type ProviderResult<T> = Result<T, ProviderError>;

} // verus!
