use zkevm_bench::error::WGError;
use zkevm_bench::fetch::{
    BlockInfo, FetchStep, FromBlockFetch, LastBlocksFetch, LivePoll, OneBlockFetch, RpcReply,
    RpcRequest,
};

fn hash(n: u64) -> [u8; 32] {
    let mut h = [0u8; 32];
    h[..8].copy_from_slice(&n.to_be_bytes());
    h
}

fn info(n: u64) -> BlockInfo {
    BlockInfo { number: n, hash: hash(n), parent_hash: hash(n.wrapping_sub(1)) }
}

/// A node whose chain is block 0..=latest with `hash(n)` as hashes; blocks in
/// `missing` are not found and witnesses of blocks in `no_witness` fail.
fn answer(req: RpcRequest, latest: u64, missing: &[u64], no_witness: &[u64]) -> RpcReply {
    match req {
        RpcRequest::LatestBlock => RpcReply::Block(Ok(Some(info(latest)))),
        RpcRequest::BlockByHash { number, hash: h } => {
            assert_eq!(h, hash(number));
            if missing.contains(&number) {
                RpcReply::Block(Ok(None))
            } else {
                RpcReply::Block(Ok(Some(info(number))))
            }
        }
        RpcRequest::BlockByNumber(n) => {
            if missing.contains(&n) || n > latest {
                RpcReply::Block(Ok(None))
            } else {
                RpcReply::Block(Ok(Some(info(n))))
            }
        }
        RpcRequest::WitnessByHash { number, .. } | RpcRequest::WitnessByNumber(number) => {
            if no_witness.contains(&number) {
                RpcReply::Witness(Err("no witness".to_string()))
            } else {
                RpcReply::Witness(Ok(()))
            }
        }
    }
}

fn run_last(n: usize, latest: u64, missing: &[u64], no_witness: &[u64]) -> Result<Vec<u64>, WGError> {
    let (mut f, mut step) = LastBlocksFetch::start(n);
    loop {
        match step {
            FetchStep::Call(req) => step = f.step(answer(req, latest, missing, no_witness)),
            FetchStep::Finished(res) => return res,
        }
    }
}

#[test]
fn last_zero_blocks_fetch_nothing() {
    let (_, step) = LastBlocksFetch::start(0);
    assert!(matches!(step, FetchStep::Finished(Ok(v)) if v.is_empty()));
}

#[test]
fn last_n_blocks_are_the_newest_first() {
    assert_eq!(run_last(3, 100, &[], &[]).unwrap(), vec![100, 99, 98]);
    assert_eq!(run_last(1, 100, &[], &[]).unwrap(), vec![100]);
}

#[test]
fn last_n_blocks_stop_at_genesis() {
    assert_eq!(run_last(5, 1, &[], &[]).unwrap(), vec![1, 0]);
    assert_eq!(run_last(2, 0, &[], &[]).unwrap(), vec![0]);
}

#[test]
fn last_n_blocks_first_call_is_the_latest_block() {
    let (_, step) = LastBlocksFetch::start(2);
    assert!(matches!(step, FetchStep::Call(RpcRequest::LatestBlock)));
}

#[test]
fn last_n_blocks_fail_when_a_witness_fails() {
    match run_last(4, 50, &[], &[49]) {
        Err(WGError::RpcError(m)) => assert_eq!(m, "no witness"),
        other => panic!("unexpected {other:?}"),
    }
}

#[test]
fn last_n_blocks_fail_when_a_block_is_not_found_by_hash() {
    // the latest block is found by number, then not by its hash
    let expected = format!("0x{}{}", "0000000000000064", "0".repeat(48));
    match run_last(1, 100, &[100], &[]) {
        Err(WGError::BlockNotFoundForHash(h)) => assert_eq!(h, expected),
        other => panic!("unexpected {other:?}"),
    }
}

#[test]
fn last_n_blocks_fail_when_a_block_lookup_errs() {
    let (mut f, step) = LastBlocksFetch::start(1);
    assert!(matches!(step, FetchStep::Call(RpcRequest::LatestBlock)));
    let step = f.step(RpcReply::Block(Ok(Some(info(5)))));
    assert!(matches!(step, FetchStep::Call(RpcRequest::BlockByHash { number: 5, .. })));
    match f.step(RpcReply::Block(Err("down".to_string()))) {
        FetchStep::Finished(Err(WGError::RpcError(m))) => assert_eq!(m, "down"),
        _ => panic!("expected an RPC error"),
    }
}

#[test]
fn last_n_blocks_fail_when_the_chain_breaks() {
    // block 99 cannot be fetched by its hash while walking back from 100
    match run_last(3, 100, &[99], &[]) {
        Err(WGError::BlockNotFoundForNumber(n)) => assert_eq!(n, 99),
        other => panic!("unexpected {other:?}"),
    }
}

#[test]
fn last_n_blocks_report_rpc_errors_of_the_latest_block() {
    let (mut f, _) = LastBlocksFetch::start(2);
    match f.step(RpcReply::Block(Err("boom".to_string()))) {
        FetchStep::Finished(Err(WGError::RpcError(m))) => assert_eq!(m, "boom"),
        _ => panic!("expected an RPC error"),
    }
    let (mut f, _) = LastBlocksFetch::start(2);
    assert!(matches!(
        f.step(RpcReply::Block(Ok(None))),
        FetchStep::Finished(Err(WGError::LatestBlockFetchError))
    ));
}

fn run_one(n: u64, latest: u64, missing: &[u64], no_witness: &[u64]) -> Vec<u64> {
    let (mut f, mut step) = OneBlockFetch::start(n);
    loop {
        match step {
            FetchStep::Call(req) => step = f.step(answer(req, latest, missing, no_witness)),
            FetchStep::Finished(res) => return res.unwrap(),
        }
    }
}

#[test]
fn one_block_is_witness_then_block() {
    let (mut f, step) = OneBlockFetch::start(7);
    assert!(matches!(step, FetchStep::Call(RpcRequest::WitnessByNumber(7))));
    assert!(matches!(f.step(RpcReply::Witness(Ok(()))), FetchStep::Call(RpcRequest::BlockByNumber(7))));
    assert_eq!(run_one(7, 10, &[], &[]), vec![7]);
    assert_eq!(run_one(7, 10, &[7], &[]), Vec::<u64>::new());
    assert_eq!(run_one(7, 10, &[], &[7]), Vec::<u64>::new());
}

fn run_from(first: u64, latest: u64, missing: &[u64], no_witness: &[u64]) -> Result<Vec<u64>, WGError> {
    let (mut f, mut step) = FromBlockFetch::start(first);
    loop {
        match step {
            FetchStep::Call(req) => step = f.step(answer(req, latest, missing, no_witness)),
            FetchStep::Finished(res) => return res,
        }
    }
}

#[test]
fn from_block_fetches_up_to_the_latest() {
    assert_eq!(run_from(5, 8, &[], &[]).unwrap(), vec![5, 6, 7, 8]);
    assert_eq!(run_from(8, 8, &[], &[]).unwrap(), vec![8]);
    assert_eq!(run_from(9, 8, &[], &[]).unwrap(), Vec::<u64>::new());
    assert_eq!(run_from(5, 8, &[6], &[8]).unwrap(), vec![5, 7]);
}

#[test]
fn live_polling_needs_a_token_and_a_latest_block() {
    assert!(matches!(LivePoll::begin(Ok(Some(info(10))), false), Err(WGError::CancellationTokenRequired)));
    assert!(matches!(LivePoll::begin(Ok(None), true), Err(WGError::LatestBlockFetchError)));
    assert!(matches!(LivePoll::begin(Err("x".to_string()), true), Err(WGError::RpcError(_))));
    let p = LivePoll::begin(Ok(Some(info(10))), true).unwrap();
    assert_eq!(p, LivePoll { count: 0, next: 10 });
}

#[test]
fn live_polling_counts_saved_blocks_and_moves_on() {
    let mut p = LivePoll::begin(Ok(Some(info(10))), true).unwrap();
    assert!(matches!(p.after_round(Ok(vec![])), Ok(None)));
    assert_eq!(p.after_round(Ok(vec![10, 11])).unwrap(), Some(vec![10, 11]));
    p.after_save(&vec![10, 11], Ok(())).unwrap();
    assert_eq!(p, LivePoll { count: 2, next: 12 });
    p.after_save(&vec![12, 14], Ok(())).unwrap();
    assert_eq!(p, LivePoll { count: 4, next: 15 });
}

#[test]
fn live_polling_stops_on_errors() {
    let mut p = LivePoll::begin(Ok(Some(info(10))), true).unwrap();
    assert!(matches!(p.after_round(Err(WGError::LatestBlockFetchError)), Err(WGError::LatestBlockFetchError)));
    match p.after_save(&vec![10], Err(WGError::Other("disk full".to_string()))) {
        Err(WGError::Other(m)) => assert_eq!(m, "disk full"),
        _ => panic!("expected the write error"),
    }
    assert_eq!(p, LivePoll { count: 0, next: 10 });
}
