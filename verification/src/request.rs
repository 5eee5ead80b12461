//! What the client asks of the node: the method of each call and the
//! parameters that go with it, in the order in which they are sent.
use crate::number::{BlockNumber, NumberOrHex};
use crate::types::ListOrValue;
use vstd::prelude::*;

verus! {

/// How many notifications a subscription may buffer before the client
/// drops it.
pub const MAX_NOTIFS_PER_SUBSCRIPTION: usize = 4096;

/// The JSON-RPC methods that the client calls.
#[derive(Clone, Copy, Debug, PartialEq, Eq, Structural)]
pub enum Method {
    StateGetStorage,
    StateGetKeysPaged,
    StateQueryStorage,
    StateQueryStorageAt,
    StateGetMetadata,
    StateGetReadProof,
    StateGetRuntimeVersion,
    SystemProperties,
    SystemChain,
    SystemName,
    SystemVersion,
    ChainGetBlockHash,
    ChainGetHeader,
    ChainGetFinalizedHead,
    ChainGetBlock,
    ChainGetBlockStats,
    ChainSubscribeNewHeads,
    ChainUnsubscribeNewHeads,
    ChainSubscribeFinalizedHeads,
    ChainUnsubscribeFinalizedHeads,
    AuthorSubmitExtrinsic,
    AuthorSubmitAndWatchExtrinsic,
    AuthorUnwatchExtrinsic,
    AuthorInsertKey,
    AuthorRotateKeys,
    AuthorHasSessionKeys,
    AuthorHasKey,
}

impl Method {
    /// The method's name on the wire.
    pub open spec fn wire_name(self) -> Seq<char> {
        match self {
            Method::StateGetStorage => "state_getStorage"@,
            Method::StateGetKeysPaged => "state_getKeysPaged"@,
            Method::StateQueryStorage => "state_queryStorage"@,
            Method::StateQueryStorageAt => "state_queryStorageAt"@,
            Method::StateGetMetadata => "state_getMetadata"@,
            Method::StateGetReadProof => "state_getReadProof"@,
            Method::StateGetRuntimeVersion => "state_getRuntimeVersion"@,
            Method::SystemProperties => "system_properties"@,
            Method::SystemChain => "system_chain"@,
            Method::SystemName => "system_name"@,
            Method::SystemVersion => "system_version"@,
            Method::ChainGetBlockHash => "chain_getBlockHash"@,
            Method::ChainGetHeader => "chain_getHeader"@,
            Method::ChainGetFinalizedHead => "chain_getFinalizedHead"@,
            Method::ChainGetBlock => "chain_getBlock"@,
            Method::ChainGetBlockStats => "chain_getBlockStats"@,
            Method::ChainSubscribeNewHeads => "chain_subscribeNewHeads"@,
            Method::ChainUnsubscribeNewHeads => "chain_unsubscribeNewHeads"@,
            Method::ChainSubscribeFinalizedHeads => "chain_subscribeFinalizedHeads"@,
            Method::ChainUnsubscribeFinalizedHeads => "chain_unsubscribeFinalizedHeads"@,
            Method::AuthorSubmitExtrinsic => "author_submitExtrinsic"@,
            Method::AuthorSubmitAndWatchExtrinsic => "author_submitAndWatchExtrinsic"@,
            Method::AuthorUnwatchExtrinsic => "author_unwatchExtrinsic"@,
            Method::AuthorInsertKey => "author_insertKey"@,
            Method::AuthorRotateKeys => "author_rotateKeys"@,
            Method::AuthorHasSessionKeys => "author_hasSessionKeys"@,
            Method::AuthorHasKey => "author_hasKey"@,
        }
    }

    /// The method's name on the wire.
    pub fn name(&self) -> (s: &'static str)
        ensures
            s@ == self.wire_name(),
    {
        match self {
            Method::StateGetStorage => "state_getStorage",
            Method::StateGetKeysPaged => "state_getKeysPaged",
            Method::StateQueryStorage => "state_queryStorage",
            Method::StateQueryStorageAt => "state_queryStorageAt",
            Method::StateGetMetadata => "state_getMetadata",
            Method::StateGetReadProof => "state_getReadProof",
            Method::StateGetRuntimeVersion => "state_getRuntimeVersion",
            Method::SystemProperties => "system_properties",
            Method::SystemChain => "system_chain",
            Method::SystemName => "system_name",
            Method::SystemVersion => "system_version",
            Method::ChainGetBlockHash => "chain_getBlockHash",
            Method::ChainGetHeader => "chain_getHeader",
            Method::ChainGetFinalizedHead => "chain_getFinalizedHead",
            Method::ChainGetBlock => "chain_getBlock",
            Method::ChainGetBlockStats => "chain_getBlockStats",
            Method::ChainSubscribeNewHeads => "chain_subscribeNewHeads",
            Method::ChainUnsubscribeNewHeads => "chain_unsubscribeNewHeads",
            Method::ChainSubscribeFinalizedHeads => "chain_subscribeFinalizedHeads",
            Method::ChainUnsubscribeFinalizedHeads => "chain_unsubscribeFinalizedHeads",
            Method::AuthorSubmitExtrinsic => "author_submitExtrinsic",
            Method::AuthorSubmitAndWatchExtrinsic => "author_submitAndWatchExtrinsic",
            Method::AuthorUnwatchExtrinsic => "author_unwatchExtrinsic",
            Method::AuthorInsertKey => "author_insertKey",
            Method::AuthorRotateKeys => "author_rotateKeys",
            Method::AuthorHasSessionKeys => "author_hasSessionKeys",
            Method::AuthorHasKey => "author_hasKey",
        }
    }
}

/// One parameter of a call, as the client sends it. `H` is the chain's
/// block hash type.
///
/// A storage key and a byte string travel as `0x`-prefixed hex; an absent
/// optional value travels as `null`.
#[derive(Clone, Debug, PartialEq)]
pub enum Param<H> {
    /// A storage key.
    Key(Vec<u8>),
    /// A storage key that may be absent.
    OptKey(Option<Vec<u8>>),
    /// A list of storage keys.
    Keys(Vec<Vec<u8>>),
    /// A block hash.
    Hash(H),
    /// A block hash that may be absent (the node then takes its best block).
    OptHash(Option<H>),
    /// A count.
    Count(u32),
    /// A block number, or a list of them, that may be absent.
    OptBlock(Option<ListOrValue<NumberOrHex>>),
    /// A byte string.
    Bytes(Vec<u8>),
    /// A text string.
    Text(String),
}

/// A call: the method and its parameters in order, sent as a JSON array
/// (an empty one where the call takes no parameters).
#[derive(Clone, Debug, PartialEq)]
pub struct RpcRequest<H> {
    pub method: Method,
    pub params: Vec<Param<H>>,
}

/// A subscription: the method that opens it with its parameters, and the
/// method that closes it.
#[derive(Clone, Debug, PartialEq)]
pub struct SubscriptionRequest<H> {
    pub subscribe: Method,
    pub params: Vec<Param<H>>,
    pub unsubscribe: Method,
}

/// The parameters of `chain_getBlockHash` for an optional block number:
/// the number as a single value, or `null` for the latest block.
pub open spec fn block_hash_params<H>(block_number: Option<BlockNumber>) -> Seq<Param<H>> {
    match block_number {
        Some(b) => seq![Param::OptBlock(Some(ListOrValue::Value(b.number())))],
        None => seq![Param::OptBlock(None)],
    }
}

/// The parameters with which the genesis hash is asked for: block number 0.
pub open spec fn genesis_hash_params<H>() -> Seq<Param<H>> {
    seq![Param::OptBlock(Some(ListOrValue::Value(NumberOrHex::Number(0))))]
}

/// The parameters with which an encoded extrinsic is handed to the node.
pub open spec fn extrinsic_params<H>(encoded: Vec<u8>) -> Seq<Param<H>> {
    seq![Param::Bytes(encoded)]
}

/// Law: the genesis hash is asked for exactly as the hash of block number 0
/// is, so that one reply serves both.
pub proof fn genesis_hash_asks_for_block_zero<H>(b: BlockNumber)
    requires
        b.number() == NumberOrHex::Number(0),
    ensures
        genesis_hash_params::<H>() == block_hash_params::<H>(Some(b)),
{
}

/// Law: the block hash request carries the given block number unchanged,
/// in the same form and with the same value, as its one parameter; without
/// a number it carries `null`, which asks for the latest block.
pub proof fn block_hash_sends_the_number_unchanged<H>(block_number: Option<BlockNumber>)
    ensures
        block_hash_params::<H>(block_number).len() == 1,
        block_number matches Some(b) ==> block_hash_params::<H>(block_number)[0]
            == Param::<H>::OptBlock(Some(ListOrValue::Value(b.number()))),
        block_number matches Some(b) ==> (block_hash_params::<H>(block_number)[0] matches Param::OptBlock(
            Some(ListOrValue::Value(n)),
        ) && n.value() == b.number().value()),
        block_number is None ==> block_hash_params::<H>(block_number)[0] == Param::<H>::OptBlock(None),
{
}

/// Law: an extrinsic is handed to the node as exactly one parameter, its
/// encoded bytes unchanged, whatever their length.
pub proof fn extrinsic_is_sent_whole<H>(encoded: Vec<u8>)
    ensures
        extrinsic_params::<H>(encoded).len() == 1,
        extrinsic_params::<H>(encoded)[0] matches Param::Bytes(e) && e@ == encoded@,
{
}

impl<H> RpcRequest<H> {
    /// Fetch a storage key.
    pub fn storage(key: Vec<u8>, hash: Option<H>) -> (r: Self)
        ensures
            r.method == Method::StateGetStorage,
            r.params@ == seq![Param::Key(key), Param::OptHash(hash)],
    {
        RpcRequest { method: Method::StateGetStorage, params: vec![Param::Key(key), Param::OptHash(hash)] }
    }

    /// Returns the keys with prefix with pagination support.
    /// Up to `count` keys will be returned.
    /// If `start_key` is passed, return next keys in storage in lexicographic order.
    pub fn storage_keys_paged(
        prefix: Option<Vec<u8>>,
        count: u32,
        start_key: Option<Vec<u8>>,
        hash: Option<H>,
    ) -> (r: Self)
        ensures
            r.method == Method::StateGetKeysPaged,
            r.params@ == seq![
                Param::OptKey(prefix),
                Param::Count(count),
                Param::OptKey(start_key),
                Param::OptHash(hash),
            ],
    {
        RpcRequest {
            method: Method::StateGetKeysPaged,
            params: vec![
                Param::OptKey(prefix),
                Param::Count(count),
                Param::OptKey(start_key),
                Param::OptHash(hash),
            ],
        }
    }

    /// Query historical storage entries between two blocks.
    pub fn query_storage(keys: Vec<Vec<u8>>, from: H, to: Option<H>) -> (r: Self)
        ensures
            r.method == Method::StateQueryStorage,
            r.params@ == seq![Param::Keys(keys), Param::Hash(from), Param::OptHash(to)],
    {
        RpcRequest {
            method: Method::StateQueryStorage,
            params: vec![Param::Keys(keys), Param::Hash(from), Param::OptHash(to)],
        }
    }

    /// Query historical storage entries at one block.
    pub fn query_storage_at(keys: Vec<Vec<u8>>, at: Option<H>) -> (r: Self)
        ensures
            r.method == Method::StateQueryStorageAt,
            r.params@ == seq![Param::Keys(keys), Param::OptHash(at)],
    {
        RpcRequest { method: Method::StateQueryStorageAt, params: vec![Param::Keys(keys), Param::OptHash(at)] }
    }

    /// Fetch the genesis hash: the hash of block number 0.
    pub fn genesis_hash() -> (r: Self)
        ensures
            r.method == Method::ChainGetBlockHash,
            r.params@ == genesis_hash_params::<H>(),
    {
        let block_zero = Some(ListOrValue::Value(NumberOrHex::Number(0)));
        RpcRequest { method: Method::ChainGetBlockHash, params: vec![Param::OptBlock(block_zero)] }
    }

    /// Fetch the metadata.
    pub fn metadata() -> (r: Self)
        ensures
            r.method == Method::StateGetMetadata,
            r.params@ == Seq::<Param<H>>::empty(),
    {
        RpcRequest { method: Method::StateGetMetadata, params: Vec::new() }
    }

    /// Fetch system properties.
    pub fn system_properties() -> (r: Self)
        ensures
            r.method == Method::SystemProperties,
            r.params@ == Seq::<Param<H>>::empty(),
    {
        RpcRequest { method: Method::SystemProperties, params: Vec::new() }
    }

    /// Fetch system chain.
    pub fn system_chain() -> (r: Self)
        ensures
            r.method == Method::SystemChain,
            r.params@ == Seq::<Param<H>>::empty(),
    {
        RpcRequest { method: Method::SystemChain, params: Vec::new() }
    }

    /// Fetch system name.
    pub fn system_name() -> (r: Self)
        ensures
            r.method == Method::SystemName,
            r.params@ == Seq::<Param<H>>::empty(),
    {
        RpcRequest { method: Method::SystemName, params: Vec::new() }
    }

    /// Fetch system version.
    pub fn system_version() -> (r: Self)
        ensures
            r.method == Method::SystemVersion,
            r.params@ == Seq::<Param<H>>::empty(),
    {
        RpcRequest { method: Method::SystemVersion, params: Vec::new() }
    }

    /// Get a header.
    pub fn header(hash: Option<H>) -> (r: Self)
        ensures
            r.method == Method::ChainGetHeader,
            r.params@ == seq![Param::OptHash(hash)],
    {
        RpcRequest { method: Method::ChainGetHeader, params: vec![Param::OptHash(hash)] }
    }

    /// Get a block hash; without a block number, that of the latest block.
    pub fn block_hash(block_number: Option<BlockNumber>) -> (r: Self)
        ensures
            r.method == Method::ChainGetBlockHash,
            r.params@ == block_hash_params::<H>(block_number),
            r.params@.len() == 1,
            block_number matches Some(b) ==> r.params@[0] == Param::<H>::OptBlock(
                Some(ListOrValue::Value(b.number())),
            ),
            block_number is None ==> r.params@[0] == Param::<H>::OptBlock(None),
    {
        let block_number = match block_number {
            Some(b) => Some(ListOrValue::Value(b.into_inner())),
            None => None,
        };
        RpcRequest { method: Method::ChainGetBlockHash, params: vec![Param::OptBlock(block_number)] }
    }

    /// Get the hash of the latest finalized block.
    pub fn finalized_head() -> (r: Self)
        ensures
            r.method == Method::ChainGetFinalizedHead,
            r.params@ == Seq::<Param<H>>::empty(),
    {
        RpcRequest { method: Method::ChainGetFinalizedHead, params: Vec::new() }
    }

    /// Get a block.
    pub fn block(hash: Option<H>) -> (r: Self)
        ensures
            r.method == Method::ChainGetBlock,
            r.params@ == seq![Param::OptHash(hash)],
    {
        RpcRequest { method: Method::ChainGetBlock, params: vec![Param::OptHash(hash)] }
    }

    /// Get statistics about a block.
    pub fn block_stats(hash: Option<H>) -> (r: Self)
        ensures
            r.method == Method::ChainGetBlockStats,
            r.params@ == seq![Param::OptHash(hash)],
    {
        RpcRequest { method: Method::ChainGetBlockStats, params: vec![Param::OptHash(hash)] }
    }

    /// Get proof of storage entries at a specific block's state.
    pub fn read_proof(keys: Vec<Vec<u8>>, hash: Option<H>) -> (r: Self)
        ensures
            r.method == Method::StateGetReadProof,
            r.params@ == seq![Param::Keys(keys), Param::OptHash(hash)],
    {
        RpcRequest { method: Method::StateGetReadProof, params: vec![Param::Keys(keys), Param::OptHash(hash)] }
    }

    /// Fetch the runtime version.
    pub fn runtime_version(at: Option<H>) -> (r: Self)
        ensures
            r.method == Method::StateGetRuntimeVersion,
            r.params@ == seq![Param::OptHash(at)],
    {
        RpcRequest { method: Method::StateGetRuntimeVersion, params: vec![Param::OptHash(at)] }
    }

    /// Submit an extrinsic, given in its encoded form.
    pub fn submit_extrinsic(encoded: Vec<u8>) -> (r: Self)
        ensures
            r.method == Method::AuthorSubmitExtrinsic,
            r.params@ == extrinsic_params::<H>(encoded),
            r.params@.len() == 1,
            r.params@[0] matches Param::Bytes(e) && e@ == encoded@,
    {
        RpcRequest { method: Method::AuthorSubmitExtrinsic, params: vec![Param::Bytes(encoded)] }
    }

    /// Insert a key into the keystore.
    pub fn insert_key(key_type: String, suri: String, public: Vec<u8>) -> (r: Self)
        ensures
            r.method == Method::AuthorInsertKey,
            r.params@ == seq![Param::<H>::Text(key_type), Param::Text(suri), Param::Bytes(public)],
    {
        RpcRequest {
            method: Method::AuthorInsertKey,
            params: vec![Param::Text(key_type), Param::Text(suri), Param::Bytes(public)],
        }
    }

    /// Generate new session keys.
    pub fn rotate_keys() -> (r: Self)
        ensures
            r.method == Method::AuthorRotateKeys,
            r.params@ == Seq::<Param<H>>::empty(),
    {
        RpcRequest { method: Method::AuthorRotateKeys, params: Vec::new() }
    }

    /// Ask whether the keystore has private keys for the given session
    /// public keys (the SCALE encoded session keys object of the runtime).
    pub fn has_session_keys(session_keys: Vec<u8>) -> (r: Self)
        ensures
            r.method == Method::AuthorHasSessionKeys,
            r.params@ == seq![Param::<H>::Bytes(session_keys)],
    {
        RpcRequest { method: Method::AuthorHasSessionKeys, params: vec![Param::Bytes(session_keys)] }
    }

    /// Ask whether the keystore has a private key for the given public key
    /// and key type.
    pub fn has_key(public_key: Vec<u8>, key_type: String) -> (r: Self)
        ensures
            r.method == Method::AuthorHasKey,
            r.params@ == seq![Param::<H>::Bytes(public_key), Param::Text(key_type)],
    {
        RpcRequest { method: Method::AuthorHasKey, params: vec![Param::Bytes(public_key), Param::Text(key_type)] }
    }
}

impl<H> SubscriptionRequest<H> {
    /// Subscribe to new block headers.
    pub fn blocks() -> (r: Self)
        ensures
            r.subscribe == Method::ChainSubscribeNewHeads,
            r.params@ == Seq::<Param<H>>::empty(),
            r.unsubscribe == Method::ChainUnsubscribeNewHeads,
    {
        SubscriptionRequest {
            subscribe: Method::ChainSubscribeNewHeads,
            params: Vec::new(),
            unsubscribe: Method::ChainUnsubscribeNewHeads,
        }
    }

    /// Subscribe to finalized block headers.
    pub fn finalized_blocks() -> (r: Self)
        ensures
            r.subscribe == Method::ChainSubscribeFinalizedHeads,
            r.params@ == Seq::<Param<H>>::empty(),
            r.unsubscribe == Method::ChainUnsubscribeFinalizedHeads,
    {
        SubscriptionRequest {
            subscribe: Method::ChainSubscribeFinalizedHeads,
            params: Vec::new(),
            unsubscribe: Method::ChainUnsubscribeFinalizedHeads,
        }
    }

    /// Submit an extrinsic, given in its encoded form, and subscribe to its
    /// status events.
    pub fn watch_extrinsic(encoded: Vec<u8>) -> (r: Self)
        ensures
            r.subscribe == Method::AuthorSubmitAndWatchExtrinsic,
            r.params@ == extrinsic_params::<H>(encoded),
            r.params@.len() == 1,
            r.params@[0] matches Param::Bytes(e) && e@ == encoded@,
            r.unsubscribe == Method::AuthorUnwatchExtrinsic,
    {
        SubscriptionRequest {
            subscribe: Method::AuthorSubmitAndWatchExtrinsic,
            params: vec![Param::Bytes(encoded)],
            unsubscribe: Method::AuthorUnwatchExtrinsic,
        }
    }
}

} // verus!
