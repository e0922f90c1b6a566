use tokio_util::sync::CancellationToken;
use zkevm_bench::error::WGError;
use zkevm_bench::headers::RpcFlatHeaderKeyValues;
use zkevm_bench::rpc::{
    network_chain_id, network_from_chain_id, GenerateMode, Network, PathMode,
    RpcBlocksAndWitnessesBuilder,
};

#[test]
fn builder_starts_empty() {
    let b = RpcBlocksAndWitnessesBuilder::new("http://localhost:8545".to_string());
    assert_eq!(b.url, "http://localhost:8545");
    assert!(b.header_map.is_empty());
    assert_eq!(b.last_n_blocks, None);
    assert_eq!(b.block, None);
    assert!(b.stop.is_none());
}

#[test]
fn builder_sets_each_option() {
    let headers = RpcFlatHeaderKeyValues::new(vec!["a: b".to_string()]).into_header_map().unwrap();
    let b = RpcBlocksAndWitnessesBuilder::new("u".to_string())
        .with_headers(headers)
        .last_n_blocks(2)
        .block(17)
        .listen(CancellationToken::new());
    assert_eq!(b.header_map.get("a").unwrap(), "b");
    assert_eq!(b.last_n_blocks, Some(2));
    assert_eq!(b.block, Some(17));
    assert!(b.stop.is_some());
}

#[test]
fn build_picks_the_network_of_the_chain_id() {
    for (id, net) in [
        (1u64, Network::Mainnet),
        (11155111, Network::Sepolia),
        (560048, Network::Hoodi),
        (17000, Network::Holesky),
    ] {
        let g = RpcBlocksAndWitnessesBuilder::new("u".to_string()).last_n_blocks(3).build(Ok(Some(id))).unwrap();
        assert_eq!(g.network, net);
        assert_eq!(g.last_n_blocks, Some(3));
        assert_eq!(network_from_chain_id(id), Some(net));
        assert_eq!(network_chain_id(net), id);
    }
}

#[test]
fn build_errors() {
    let b = || RpcBlocksAndWitnessesBuilder::new("u".to_string());
    assert!(matches!(b().build(Ok(Some(5))), Err(WGError::UnsupportedChain(5))));
    // named chains other than the supported four, and unnamed ids
    for id in [5u64, 10, 137, 0, 424242] {
        assert_eq!(network_from_chain_id(id), None);
    }
    assert!(matches!(b().build(Ok(None)), Err(WGError::ChainIdFetchError)));
    match b().build(Err("connection refused".to_string())) {
        Err(WGError::RpcError(m)) => assert_eq!(m, "connection refused"),
        _ => panic!("expected an RPC error"),
    }
}

#[test]
fn generate_mode_precedence() {
    let b = || RpcBlocksAndWitnessesBuilder::new("u".to_string());
    let g = b().last_n_blocks(2).block(9).build(Ok(Some(1))).unwrap();
    assert_eq!(g.generate_mode().unwrap(), GenerateMode::LastBlocks(2));
    assert_eq!(g.path_mode(), PathMode::Batch);
    let g = b().block(9).build(Ok(Some(1))).unwrap();
    assert_eq!(g.generate_mode().unwrap(), GenerateMode::OneBlock(9));
    let g = b().build(Ok(Some(1))).unwrap();
    assert_eq!(g.generate_mode().unwrap(), GenerateMode::Nothing);
    assert_eq!(g.path_mode(), PathMode::Live);
    let g = b().listen(CancellationToken::new()).build(Ok(Some(1))).unwrap();
    assert!(matches!(g.generate_mode(), Err(WGError::LivePollingNotSupported)));
    assert_eq!(g.path_mode(), PathMode::Live);
    let g = b().listen(CancellationToken::new()).block(3).build(Ok(Some(1))).unwrap();
    assert_eq!(g.path_mode(), PathMode::Batch);
    assert!(matches!(g.generate_mode(), Err(WGError::LivePollingNotSupported)));
}
