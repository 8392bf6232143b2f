//! The fixed policy of the broadcast loop and the per-send configuration
//! handed to the RPC layer.

use vstd::prelude::*;

verus! {

/// Number of broadcast attempts made for every dispatched transaction.
pub const SEND_ATTEMPTS: u64 = 100;

/// Retry count that the RPC layer may spend internally on one send.
pub const RPC_RETRIES: usize = 1;

/// How final a node's view of the ledger must be before it is trusted.
#[derive(Clone, Copy, Debug, PartialEq, Eq, Structural)]
pub enum Commitment {
    Processed,
    Confirmed,
    Finalized,
}

/// Wire encoding of the transaction payload in a send request.
#[derive(Clone, Copy, Debug, PartialEq, Eq, Structural)]
pub enum Encoding {
    Base58,
    Base64,
}

/// Options of one send request, as plain values.
#[derive(Clone, Copy, Debug, PartialEq, Eq, Structural)]
pub struct SendConfig {
    pub skip_preflight: bool,
    pub preflight_commitment: Option<Commitment>,
    pub encoding: Option<Encoding>,
    pub max_retries: Option<usize>,
    pub min_context_slot: Option<u64>,
}

/// The send configuration every broadcast attempt uses, given the slot at
/// which the blockhash was resolved.
pub open spec fn send_config_spec(min_slot: u64) -> SendConfig {
    SendConfig {
        skip_preflight: true,
        preflight_commitment: Some(Commitment::Confirmed),
        encoding: Some(Encoding::Base64),
        max_retries: Some(RPC_RETRIES),
        min_context_slot: Some(min_slot),
    }
}

/// Builds the send configuration: preflight skipped, confirmed preflight
/// commitment, base64 payload, one internal retry, and the node held to a
/// view no older than `min_slot`.
pub fn send_config(min_slot: u64) -> (r: SendConfig)
    ensures
        r == send_config_spec(min_slot),
{
    SendConfig {
        skip_preflight: true,
        preflight_commitment: Some(Commitment::Confirmed),
        encoding: Some(Encoding::Base64),
        max_retries: Some(RPC_RETRIES),
        min_context_slot: Some(min_slot),
    }
}

} // verus!
