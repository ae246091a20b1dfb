//! Data-availability (DA) gas estimation for layer-2 rollups.
//!
//! An L2 rollup charges, on top of execution gas, for publishing a user
//! operation's calldata to its data-availability layer. This library models
//! that cost estimate: the shared request and result shapes, a padding
//! strategy that simulates calldata bytes not yet present at estimation
//! time, and an Arbitrum-Nitro-style oracle that obtains the estimate from
//! the rollup's on-chain node-interface helper contract through a pluggable
//! query client.

mod oracle;
mod padding;
mod types;

pub use oracle::interpret_gas_estimate_response;
pub use oracle::prepare_gas_estimate_call;
pub use oracle::ArbitrumNitroDAGasOracle;
pub use oracle::DAGasOracle;
pub use oracle::GasEstimateL1ComponentCall;
pub use oracle::GasEstimateL1ComponentReturn;
pub use oracle::NodeInterfaceClient;
pub use padding::extend_bytes_with_random;
pub use padding::filler_byte;
pub use padding::filler_bytes;
pub use padding::filler_state;
pub use padding::lcg_step;
pub use padding::lemma_filler_independent_of_calldata;
pub use padding::pad_calldata;
pub use padding::FILLER_INCREMENT;
pub use padding::FILLER_MULTIPLIER;
pub use padding::FILLER_SEED;
pub use types::Address;
pub use types::BlockHashOrNumber;
pub use types::DAGasBlockData;
pub use types::DAGasUOData;
pub use types::ProviderError;
pub use types::ProviderResult;
pub use types::U256;
