//! The DA gas oracle capability and its Arbitrum-Nitro-style implementation.
//!
//! The oracle answers one question: how much gas will the rollup charge, on
//! top of execution, to publish a user operation's calldata to its DA layer?
//! The Arbitrum-Nitro-style variant answers it by one read-only query to the
//! rollup's node-interface helper contract, pinned to a caller-chosen block,
//! issued through a pluggable query client.

use vstd::prelude::*;

use crate::padding::extend_bytes_with_random;
use crate::padding::pad_calldata;
use crate::types::Address;
use crate::types::BlockHashOrNumber;
use crate::types::DAGasBlockData;
use crate::types::DAGasUOData;
use crate::types::ProviderResult;
use crate::types::U256;

verus! {

/// The argument tuple of the helper contract's gas-estimate method: the
/// operation's destination, a contract-creation flag, and the (possibly
/// padded) calldata. This shape is a hard compatibility contract with the
/// deployed helper contract.
pub struct GasEstimateL1ComponentCall {
    pub to: Address,
    pub contract_creation: bool,
    pub data: Vec<u8>,
}

/// The helper contract's answer: the L1 gas estimate, the current base fee,
/// and the L1 base-fee estimate. The Arbitrum-Nitro-style oracle uses only
/// the first value; the other two are returned for variants that need them.
#[derive(Clone, Copy, Debug, PartialEq, Eq)]
pub struct GasEstimateL1ComponentReturn {
    pub gas_estimate_for_l1: u64,
    pub base_fee: U256,
    pub l1_base_fee_estimate: U256,
}

/// The blockchain query client capability: issues one read-only call of the
/// node-interface helper contract at `node_interface`, pinned to `block`,
/// and returns the typed answer or the transport-level failure. The network
/// is free to fail or answer anything, so the method promises nothing; what
/// the oracle makes of the answer is specified where the answer is
/// interpreted.
pub trait NodeInterfaceClient {
    fn gas_estimate_l1_component(
        &self,
        node_interface: &Address,
        call: &GasEstimateL1ComponentCall,
        block: &BlockHashOrNumber,
    ) -> ProviderResult<GasEstimateL1ComponentReturn>;
}

/// The DA gas oracle capability: one estimate operation per user operation.
/// Each rollup stack implements it with its own native query; every
/// implementation maps the answer into the shared result shape.
pub trait DAGasOracle {
    /// Estimates the DA gas of an operation with calldata `uo_data` sent to
    /// `to`, pinned to `block`. `gas_price` is supplied for variants whose
    /// formula depends on the current price context. `extra_data_len` bytes
    /// not yet present in the calldata are simulated before estimation.
    fn estimate_da_gas(
        &self,
        uo_data: Vec<u8>,
        to: Address,
        block: BlockHashOrNumber,
        gas_price: u128,
        extra_data_len: usize,
    ) -> ProviderResult<(u128, DAGasUOData, DAGasBlockData)>;
}

/// Builds the helper-contract call for one estimate: the destination is
/// passed through, the contract-creation flag is always `true` — the
/// deliberate worst-case choice of this oracle, whatever the destination or
/// calldata — and the calldata is padded by `extra_data_len` filler bytes
/// (by none when `extra_data_len` is zero).
pub fn prepare_gas_estimate_call(
    uo_data: Vec<u8>,
    to: Address,
    extra_data_len: usize,
) -> (call: GasEstimateL1ComponentCall)
    ensures
        call.to == to,
        call.contract_creation == true,
        call.data@ == pad_calldata(uo_data@, extra_data_len as nat),
{
    let data = if extra_data_len > 0 {
        extend_bytes_with_random(uo_data, extra_data_len)
    } else {
        uo_data
    };
    GasEstimateL1ComponentCall { to, contract_creation: true, data }
}

/// Maps the helper contract's answer into the shared result shape: on
/// success, the L1 gas estimate widened to 128 bits beside the empty
/// per-operation and per-block data — the base fee and the L1 base-fee
/// estimate are discarded; on failure, the exact error, unwrapped and
/// unchanged.
pub fn interpret_gas_estimate_response(
    response: ProviderResult<GasEstimateL1ComponentReturn>,
) -> (r: ProviderResult<(u128, DAGasUOData, DAGasBlockData)>)
    ensures
        response matches Ok(ret) ==> r == Ok::<_, crate::types::ProviderError>(
            (ret.gas_estimate_for_l1 as u128, DAGasUOData::Empty, DAGasBlockData::Empty),
        ),
        response matches Err(e) ==> r == Err::<(u128, DAGasUOData, DAGasBlockData), _>(e),
{
    match response {
        Ok(ret) => Ok((ret.gas_estimate_for_l1 as u128, DAGasUOData::Empty, DAGasBlockData::Empty)),
        Err(e) => Err(e),
    }
}

/// The Arbitrum-Nitro-style oracle: the configured address of the
/// node-interface helper contract and the query client handle, bound at
/// construction. It holds no other state — estimates are independent and
/// carry nothing across calls.
pub struct ArbitrumNitroDAGasOracle<C: NodeInterfaceClient> {
    node_interface: Address,
    client: C,
}

impl<C: NodeInterfaceClient> ArbitrumNitroDAGasOracle<C> {
    /// The configured helper-contract address.
    pub closed spec fn spec_node_interface(&self) -> Address {
        self.node_interface
    }

    /// The held query client.
    pub closed spec fn spec_client(&self) -> C {
        self.client
    }

    /// Binds the helper-contract address and the query client together; the
    /// address is set once here and never mutated.
    pub fn new(oracle_address: Address, client: C) -> (r: Self)
        ensures
            r.spec_node_interface() == oracle_address,
            r.spec_client() == client,
    {
        ArbitrumNitroDAGasOracle { node_interface: oracle_address, client }
    }
}

impl<C: NodeInterfaceClient> DAGasOracle for ArbitrumNitroDAGasOracle<C> {
    /// Pads the calldata when `extra_data_len > 0`, issues exactly one
    /// helper-contract query pinned to `block`, and maps the answer. The
    /// query client decides success: whatever it returns, a successful
    /// estimate never exceeds the helper contract's 64-bit answer range and
    /// always carries the empty per-operation and per-block data; a failure
    /// is the client's error, propagated unchanged. `gas_price` plays no
    /// part in this variant's formula.
    fn estimate_da_gas(
        &self,
        uo_data: Vec<u8>,
        to: Address,
        block: BlockHashOrNumber,
        _gas_price: u128,
        extra_data_len: usize,
    ) -> (r: ProviderResult<(u128, DAGasUOData, DAGasBlockData)>)
        ensures
            r matches Ok(t) ==> t.0 <= u64::MAX && t.1 == DAGasUOData::Empty && t.2
                == DAGasBlockData::Empty,
    {
        let call = prepare_gas_estimate_call(uo_data, to, extra_data_len);
        let response = self.client.gas_estimate_l1_component(&self.node_interface, &call, &block);
        interpret_gas_estimate_response(response)
    }
}

} // verus!
