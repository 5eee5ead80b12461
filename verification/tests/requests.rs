use subxt_rpc::number::{BlockNumber, NumberOrHex};
use subxt_rpc::request::{Method, Param, RpcRequest, SubscriptionRequest, MAX_NOTIFS_PER_SUBSCRIPTION};
use subxt_rpc::types::ListOrValue;

type Req = RpcRequest<u64>;

fn block(n: u64) -> Param<u64> {
    Param::OptBlock(Some(ListOrValue::Value(NumberOrHex::Number(n))))
}

#[test]
fn method_names_on_the_wire() {
    let cases = vec![
        (Method::StateGetStorage, "state_getStorage"),
        (Method::StateGetKeysPaged, "state_getKeysPaged"),
        (Method::StateQueryStorage, "state_queryStorage"),
        (Method::StateQueryStorageAt, "state_queryStorageAt"),
        (Method::StateGetMetadata, "state_getMetadata"),
        (Method::StateGetReadProof, "state_getReadProof"),
        (Method::StateGetRuntimeVersion, "state_getRuntimeVersion"),
        (Method::SystemProperties, "system_properties"),
        (Method::SystemChain, "system_chain"),
        (Method::SystemName, "system_name"),
        (Method::SystemVersion, "system_version"),
        (Method::ChainGetBlockHash, "chain_getBlockHash"),
        (Method::ChainGetHeader, "chain_getHeader"),
        (Method::ChainGetFinalizedHead, "chain_getFinalizedHead"),
        (Method::ChainGetBlock, "chain_getBlock"),
        (Method::ChainGetBlockStats, "chain_getBlockStats"),
        (Method::ChainSubscribeNewHeads, "chain_subscribeNewHeads"),
        (Method::ChainUnsubscribeNewHeads, "chain_unsubscribeNewHeads"),
        (Method::ChainSubscribeFinalizedHeads, "chain_subscribeFinalizedHeads"),
        (Method::ChainUnsubscribeFinalizedHeads, "chain_unsubscribeFinalizedHeads"),
        (Method::AuthorSubmitExtrinsic, "author_submitExtrinsic"),
        (Method::AuthorSubmitAndWatchExtrinsic, "author_submitAndWatchExtrinsic"),
        (Method::AuthorUnwatchExtrinsic, "author_unwatchExtrinsic"),
        (Method::AuthorInsertKey, "author_insertKey"),
        (Method::AuthorRotateKeys, "author_rotateKeys"),
        (Method::AuthorHasSessionKeys, "author_hasSessionKeys"),
        (Method::AuthorHasKey, "author_hasKey"),
    ];
    for (m, name) in cases {
        assert_eq!(m.name(), name);
    }
}

#[test]
fn storage_request() {
    let r = Req::storage(vec![1, 2, 3], Some(9));
    assert_eq!(r.method, Method::StateGetStorage);
    assert_eq!(r.params, vec![Param::Key(vec![1, 2, 3]), Param::OptHash(Some(9))]);
    let r = Req::storage(vec![], None);
    assert_eq!(r.params, vec![Param::Key(vec![]), Param::OptHash(None)]);
}

#[test]
fn storage_keys_paged_request() {
    let r = Req::storage_keys_paged(Some(vec![0xaa]), 10, None, Some(4));
    assert_eq!(r.method, Method::StateGetKeysPaged);
    assert_eq!(
        r.params,
        vec![
            Param::OptKey(Some(vec![0xaa])),
            Param::Count(10),
            Param::OptKey(None),
            Param::OptHash(Some(4)),
        ]
    );
}

#[test]
fn query_storage_requests() {
    let r = Req::query_storage(vec![vec![1], vec![2]], 5, Some(6));
    assert_eq!(r.method, Method::StateQueryStorage);
    assert_eq!(
        r.params,
        vec![Param::Keys(vec![vec![1], vec![2]]), Param::Hash(5), Param::OptHash(Some(6))]
    );
    let r = Req::query_storage_at(vec![vec![7]], None);
    assert_eq!(r.method, Method::StateQueryStorageAt);
    assert_eq!(r.params, vec![Param::Keys(vec![vec![7]]), Param::OptHash(None)]);
}

#[test]
fn calls_without_parameters() {
    let cases = vec![
        (Req::metadata(), Method::StateGetMetadata),
        (Req::system_properties(), Method::SystemProperties),
        (Req::system_chain(), Method::SystemChain),
        (Req::system_name(), Method::SystemName),
        (Req::system_version(), Method::SystemVersion),
        (Req::finalized_head(), Method::ChainGetFinalizedHead),
        (Req::rotate_keys(), Method::AuthorRotateKeys),
    ];
    for (r, m) in cases {
        assert_eq!(r.method, m);
        assert!(r.params.is_empty());
    }
}

#[test]
fn calls_at_an_optional_block() {
    assert_eq!(Req::header(Some(3)).method, Method::ChainGetHeader);
    assert_eq!(Req::header(Some(3)).params, vec![Param::OptHash(Some(3))]);
    assert_eq!(Req::block(None).method, Method::ChainGetBlock);
    assert_eq!(Req::block(None).params, vec![Param::OptHash(None)]);
    assert_eq!(Req::block_stats(Some(1)).method, Method::ChainGetBlockStats);
    assert_eq!(Req::block_stats(Some(1)).params, vec![Param::OptHash(Some(1))]);
    assert_eq!(Req::runtime_version(None).method, Method::StateGetRuntimeVersion);
    assert_eq!(Req::runtime_version(None).params, vec![Param::OptHash(None)]);
    let r = Req::read_proof(vec![vec![1, 2]], Some(8));
    assert_eq!(r.method, Method::StateGetReadProof);
    assert_eq!(r.params, vec![Param::Keys(vec![vec![1, 2]]), Param::OptHash(Some(8))]);
}

#[test]
fn block_hash_request() {
    let r = Req::block_hash(Some(BlockNumber::from(42u32)));
    assert_eq!(r.method, Method::ChainGetBlockHash);
    assert_eq!(r.params, vec![block(42)]);
    let r = Req::block_hash(None);
    assert_eq!(r.params, vec![Param::OptBlock(None)]);
    let hex = NumberOrHex::Hex(subxt_rpc::number::U256([1, 0, 0, 2]));
    let r = Req::block_hash(Some(BlockNumber::from(hex)));
    assert_eq!(r.params, vec![Param::OptBlock(Some(ListOrValue::Value(hex)))]);
}

#[test]
fn block_number_from_u32() {
    assert_eq!(BlockNumber::from(7u32).into_inner(), NumberOrHex::Number(7));
    assert_eq!(BlockNumber::from(u32::MAX).into_inner(), NumberOrHex::Number(4294967295));
    let n = NumberOrHex::Number(99);
    assert_eq!(BlockNumber::from(n).into_inner(), n);
}

#[test]
fn genesis_hash_is_asked_as_block_zero() {
    let g = Req::genesis_hash();
    let b = Req::block_hash(Some(BlockNumber::from(0u32)));
    assert_eq!(g.method, Method::ChainGetBlockHash);
    assert_eq!(g.params, vec![block(0)]);
    assert_eq!(g, b);
}

#[test]
fn extrinsic_requests() {
    let r = Req::submit_extrinsic(vec![4, 5, 6]);
    assert_eq!(r.method, Method::AuthorSubmitExtrinsic);
    assert_eq!(r.params, vec![Param::Bytes(vec![4, 5, 6])]);
    let s = SubscriptionRequest::<u64>::watch_extrinsic(vec![4, 5, 6]);
    assert_eq!(s.subscribe, Method::AuthorSubmitAndWatchExtrinsic);
    assert_eq!(s.unsubscribe, Method::AuthorUnwatchExtrinsic);
    assert_eq!(s.params, r.params);
}

#[test]
fn block_subscriptions() {
    let s = SubscriptionRequest::<u64>::blocks();
    assert_eq!(s.subscribe, Method::ChainSubscribeNewHeads);
    assert_eq!(s.unsubscribe, Method::ChainUnsubscribeNewHeads);
    assert!(s.params.is_empty());
    let s = SubscriptionRequest::<u64>::finalized_blocks();
    assert_eq!(s.subscribe, Method::ChainSubscribeFinalizedHeads);
    assert_eq!(s.unsubscribe, Method::ChainUnsubscribeFinalizedHeads);
    assert!(s.params.is_empty());
}

#[test]
fn keystore_requests() {
    let r = Req::insert_key("aura".to_string(), "//Alice".to_string(), vec![1]);
    assert_eq!(r.method, Method::AuthorInsertKey);
    assert_eq!(
        r.params,
        vec![Param::Text("aura".to_string()), Param::Text("//Alice".to_string()), Param::Bytes(vec![1])]
    );
    let r = Req::has_session_keys(vec![2, 3]);
    assert_eq!(r.method, Method::AuthorHasSessionKeys);
    assert_eq!(r.params, vec![Param::Bytes(vec![2, 3])]);
    let r = Req::has_key(vec![9], "gran".to_string());
    assert_eq!(r.method, Method::AuthorHasKey);
    assert_eq!(r.params, vec![Param::Bytes(vec![9]), Param::Text("gran".to_string())]);
}

#[test]
fn subscription_buffer_size() {
    assert_eq!(MAX_NOTIFS_PER_SUBSCRIPTION, 4096);
}

#[test]
fn websocket_address_parses() {
    let uri = subxt_rpc::transport::parse_ws_url("ws://127.0.0.1:9944").expect("a valid address");
    assert_eq!(uri.scheme_str(), Some("ws"));
    assert_eq!(uri.host(), Some("127.0.0.1"));
    assert_eq!(uri.port_u16(), Some(9944));
}

#[test]
fn websocket_address_refused() {
    assert!(subxt_rpc::transport::parse_ws_url("").is_err());
    assert!(subxt_rpc::transport::parse_ws_url("ws://[::1").is_err());
}

#[test]
fn websocket_address_hands_on_the_parsers_error() {
    let direct = "".parse::<jsonrpsee::client_transport::ws::Uri>().unwrap_err();
    let ours = subxt_rpc::transport::parse_ws_url("").unwrap_err();
    assert_eq!(ours.to_string(), direct.to_string());
}
