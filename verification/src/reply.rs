//! What the client makes of the node's replies.
use crate::types::ListOrValue;
use frame_metadata::RuntimeMetadataPrefixed;
use vstd::prelude::*;

verus! {

/// A reply that the client refuses.
#[derive(Clone, Copy, Debug, PartialEq, Eq, Structural)]
pub enum ReplyError {
    /// The node knows no block number 0.
    GenesisHashNotFound,
    /// A list came back where one value was asked for.
    ExpectedValueGotList,
}

impl ReplyError {
    /// The error's message.
    pub open spec fn text(self) -> Seq<char> {
        match self {
            ReplyError::GenesisHashNotFound => "Genesis hash not found"@,
            ReplyError::ExpectedValueGotList => "Expected a Value, got a List"@,
        }
    }

    /// The error's message.
    pub fn message(&self) -> (s: &'static str)
        ensures
            s@ == self.text(),
    {
        match self {
            ReplyError::GenesisHashNotFound => "Genesis hash not found",
            ReplyError::ExpectedValueGotList => "Expected a Value, got a List",
        }
    }
}

/// What a reply to `chain_getBlockHash` for one block number gives: the
/// hash, or none where the node knows no such block. A list is refused.
pub open spec fn block_hash_outcome<H>(reply: ListOrValue<Option<H>>) -> Result<Option<H>, ReplyError> {
    match reply {
        ListOrValue::Value(hash) => Ok(hash),
        ListOrValue::List(_) => Err(ReplyError::ExpectedValueGotList),
    }
}

/// What the reply to the genesis hash request gives: the hash; a missing
/// hash and a list are refused.
pub open spec fn genesis_hash_outcome<H>(reply: ListOrValue<Option<H>>) -> Result<H, ReplyError> {
    match reply {
        ListOrValue::Value(Some(hash)) => Ok(hash),
        ListOrValue::Value(None) => Err(ReplyError::GenesisHashNotFound),
        ListOrValue::List(_) => Err(ReplyError::ExpectedValueGotList),
    }
}

/// The genesis hash from the node's reply to `chain_getBlockHash` for block
/// number 0.
pub fn genesis_hash_reply<H>(reply: ListOrValue<Option<H>>) -> (r: Result<H, ReplyError>)
    ensures
        r == genesis_hash_outcome(reply),
{
    match reply {
        ListOrValue::Value(genesis_hash) => match genesis_hash {
            Some(hash) => Ok(hash),
            None => Err(ReplyError::GenesisHashNotFound),
        },
        ListOrValue::List(_) => Err(ReplyError::ExpectedValueGotList),
    }
}

/// A block hash from the node's reply to `chain_getBlockHash` for one block
/// number.
pub fn block_hash_reply<H>(reply: ListOrValue<Option<H>>) -> (r: Result<Option<H>, ReplyError>)
    ensures
        r == block_hash_outcome(reply),
{
    match reply {
        ListOrValue::Value(hash) => Ok(hash),
        ListOrValue::List(_) => Err(ReplyError::ExpectedValueGotList),
    }
}

/// Law: asking for the genesis hash is asking for the hash of block number
/// 0. Whatever the node replies, the genesis hash is the block hash that
/// the same reply gives for block 0; where that is absent, the genesis hash
/// is refused as not found, and a list is refused alike by both.
pub proof fn genesis_hash_is_block_zero_hash<H>(reply: ListOrValue<Option<H>>)
    ensures
        genesis_hash_outcome(reply) matches Ok(h) ==> block_hash_outcome(reply) == Ok::<Option<H>, ReplyError>(Some(h)),
        block_hash_outcome(reply) matches Ok(Some(h)) ==> genesis_hash_outcome(reply) == Ok::<H, ReplyError>(h),
        block_hash_outcome(reply) == Ok::<Option<H>, ReplyError>(None) <==> genesis_hash_outcome(reply) == Err::<H, ReplyError>(ReplyError::GenesisHashNotFound),
        block_hash_outcome(reply) matches Err(e) ==> genesis_hash_outcome(reply) == Err::<H, ReplyError>(e),
{
}

/// The runtime metadata, as the `frame_metadata` crate holds it.
#[verifier::external_type_specification]
#[verifier::external_body]
pub struct ExRuntimeMetadataPrefixed(RuntimeMetadataPrefixed);

/// The error of a SCALE decoding, as the `parity_scale_codec` crate holds it.
#[verifier::external_type_specification]
#[verifier::external_body]
pub struct ExCodecError(parity_scale_codec::Error);

/// What `RuntimeMetadataPrefixed::decode` of `parity_scale_codec` makes of
/// the bytes: the decoded metadata, or the decoder's error.
pub uninterp spec fn scale_decoded_metadata(bytes: Seq<u8>) -> Result<RuntimeMetadataPrefixed, parity_scale_codec::Error>;

/// The bytes give a prefix, a version among 8 to 13 and 15, and a byte
/// string whose length is written in the one-byte compact form and which the
/// bytes hold in full.
pub open spec fn opaque_metadata_bytes(bytes: Seq<u8>) -> bool {
    &&& bytes.len() >= 6
    &&& 8 <= bytes[4] <= 15
    &&& bytes[4] != 14
    &&& bytes[5] % 4 == 0
    &&& bytes.len() >= 6 + bytes[5] / 4
}

/// Calls `<RuntimeMetadataPrefixed as parity_scale_codec::Decode>::decode` on
/// the bytes. Claimed: decoding is a function of the bytes alone, named by
/// `scale_decoded_metadata`; and where it succeeds the bytes hold at least
/// the 4-byte prefix and the version byte, which names a version from 8 to
/// 15 (the derived decoder reads a `u32`, then a one-byte variant index, and
/// versions 0 to 7 decode to an error). Versions 8 to 13 and 15 hold their
/// metadata as one byte string (`OpaqueMetadata`, a SCALE `Vec<u8>`), so
/// bytes that give such a version and then a byte string whose length fits
/// the one-byte compact form (a length byte `l` with `l % 4 == 0`, followed
/// by at least `l / 4` bytes) always decode. What the decoded value or the
/// error holds is not stated: both types are opaque here, and so is the
/// version 14 layout, whose acceptance is left open.
#[verifier::external_body]
fn scale_decode_metadata(bytes: &[u8]) -> (r: Result<RuntimeMetadataPrefixed, parity_scale_codec::Error>)
    ensures
        r == scale_decoded_metadata(bytes@),
        r is Ok ==> bytes@.len() >= 5 && 8 <= bytes@[4] <= 15,
        opaque_metadata_bytes(bytes@) ==> r is Ok,
{
    let mut input = bytes;
    <RuntimeMetadataPrefixed as parity_scale_codec::Decode>::decode(&mut input)
}

/// Why metadata bytes were refused.
#[derive(Debug)]
pub enum MetadataError {
    /// The bytes are no SCALE encoding of the prefixed metadata.
    Codec(parity_scale_codec::Error),
}

/// Decodes the bytes of the reply to `state_getMetadata`.
pub fn decode_metadata(bytes: &[u8]) -> (r: Result<RuntimeMetadataPrefixed, MetadataError>)
    ensures
        match scale_decoded_metadata(bytes@) {
            Ok(m) => r matches Ok(m2) && m2 == m,
            Err(e) => r matches Err(MetadataError::Codec(e2)) && e2 == e,
        },
        r is Ok ==> bytes@.len() >= 5 && 8 <= bytes@[4] <= 15,
        opaque_metadata_bytes(bytes@) ==> r is Ok,
{
    match scale_decode_metadata(bytes) {
        Ok(meta) => Ok(meta),
        Err(e) => Err(MetadataError::Codec(e)),
    }
}

} // verus!
