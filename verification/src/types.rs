//! The values that the node's API sends back.
use std::collections::HashMap;
use vstd::prelude::*;

verus! {

/// A JSON value, as the `serde_json` crate holds it.
#[verifier::external_type_specification]
#[verifier::external_body]
pub struct ExJsonValue(serde_json::Value);

/// RPC list or value wrapper.
#[derive(Clone, Debug, PartialEq)]
pub enum ListOrValue<T> {
    /// A list of values of given type.
    List(Vec<T>),
    /// A single value of given type.
    Value(T),
}

/// Possible transaction status events.
///
/// This is kept compatible with the status type of the node's transaction
/// pool.
#[derive(Debug, Clone, PartialEq)]
pub enum SubstrateTransactionStatus<Hash, BlockHash> {
    /// Transaction is part of the future queue.
    Future,
    /// Transaction is part of the ready queue.
    Ready,
    /// The transaction has been broadcast to the given peers.
    Broadcast(Vec<String>),
    /// Transaction has been included in block with given hash.
    InBlock(BlockHash),
    /// The block this transaction was included in has been retracted.
    Retracted(BlockHash),
    /// Maximum number of finality watchers has been reached,
    /// old watchers are being removed.
    FinalityTimeout(BlockHash),
    /// Transaction has been finalized by a finality-gadget, e.g GRANDPA
    Finalized(BlockHash),
    /// Transaction has been replaced in the pool, by another transaction
    /// that provides the same tags. (e.g. same (sender, nonce)).
    Usurped(Hash),
    /// Transaction has been dropped from the pool because of the limit.
    Dropped,
    /// Transaction is no longer valid in the current state.
    Invalid,
}

/// The runtime version information necessary to make transactions, as
/// obtained from the call `state_getRuntimeVersion`.
#[derive(Debug, Clone, PartialEq)]
pub struct RuntimeVersion {
    /// Version of the runtime specification. A full-node will not attempt to
    /// use its native runtime in substitute for the on-chain Wasm runtime
    /// unless all of `spec_name`, `spec_version` and `authoring_version` are
    /// the same between Wasm and native.
    pub spec_version: u32,
    /// All existing dispatches are fully compatible when this number doesn't
    /// change. If this number changes, then `spec_version` must change, also.
    pub transaction_version: u32,
    /// The other fields present may vary; they are preserved in this map.
    pub other: HashMap<String, serde_json::Value>,
}

/// A proof of storage entries, as the node returns it.
#[derive(Debug, Clone, PartialEq)]
pub struct ReadProof<Hash> {
    /// Block hash used to generate the proof
    pub at: Hash,
    /// A proof used to prove that storage entries are included in the
    /// storage trie; each item is a byte string.
    pub proof: Vec<Vec<u8>>,
}

/// Statistics about a block.
#[derive(Debug, Clone, Copy, PartialEq, Eq)]
pub struct BlockStats {
    /// Length of the block's witness.
    pub witness_len: u64,
    /// Length of the compacted witness.
    pub witness_compact_len: u64,
    /// Length of the compressed witness.
    pub witness_compressed_len: u64,
    /// Length of the block.
    pub block_len: u64,
    /// Number of extrinsics in the block.
    pub block_num_extrinsics: u64,
}

} // verus!
