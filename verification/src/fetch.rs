//! The decisions of the RPC fetches, as state machines: each step takes the
//! reply to the previous RPC call and names the next call to make, or ends
//! with the numbers of the blocks whose block and witness were both fetched.
//! The caller performs the calls and keeps the fetched blocks and witnesses.
use crate::error::WGError;
use crate::guest::{hash_hex, hex_of};
use vstd::prelude::*;

verus! {

/// A block hash.
pub type BlockHash = [u8; 32];

/// What a fetched block tells the fetch logic.
#[derive(Debug, Clone, Copy)]
pub struct BlockInfo {
    pub number: u64,
    pub hash: BlockHash,
    pub parent_hash: BlockHash,
}

/// An RPC call to make.
#[derive(Debug, Clone, Copy)]
pub enum RpcRequest {
    /// The latest block, without transactions.
    LatestBlock,
    /// The block with this hash (its number given for bookkeeping), with
    /// transactions.
    BlockByHash { number: u64, hash: BlockHash },
    /// The block with this number, with transactions.
    BlockByNumber(u64),
    /// The execution witness of the block with this hash.
    WitnessByHash { number: u64, hash: BlockHash },
    /// The execution witness of the block with this number.
    WitnessByNumber(u64),
}

/// The reply to an RPC call: a block (an error message, no such block, or
/// the block), or a witness (an error message, or the witness).
pub enum RpcReply {
    Block(Result<Option<BlockInfo>, String>),
    Witness(Result<(), String>),
}

/// What a fetch does next.
pub enum FetchStep {
    /// Make this call and hand its reply to `step`.
    Call(RpcRequest),
    /// The fetch is over: the numbers of the blocks kept as fixtures, in the
    /// order they were fetched, or the error that stopped it.
    Finished(Result<Vec<u64>, WGError>),
}

/// Whether the reply answers the kind of call that was made.
pub open spec fn reply_fits(req: RpcRequest, reply: RpcReply) -> bool {
    match req {
        RpcRequest::WitnessByHash { .. } | RpcRequest::WitnessByNumber(_) => reply is Witness,
        _ => reply is Block,
    }
}

/// Whether the reply carries what was asked for.
pub open spec fn reply_ok(reply: RpcReply) -> bool {
    match reply {
        RpcReply::Block(r) => r matches Ok(Some(_)),
        RpcReply::Witness(r) => r is Ok,
    }
}

/// Whether `s` is strictly decreasing.
pub open spec fn strictly_decreasing(s: Seq<u64>) -> bool {
    forall|i: int, j: int| 0 <= i < j < s.len() ==> s[i] > s[j]
}

/// Whether `s` is strictly increasing.
pub open spec fn strictly_increasing(s: Seq<u64>) -> bool {
    forall|i: int, j: int| 0 <= i < j < s.len() ==> s[i] < s[j]
}

/// Whether every element of `s` lies in `lo..=hi`.
pub open spec fn all_within(s: Seq<u64>, lo: int, hi: int) -> bool {
    forall|i: int| 0 <= i < s.len() ==> lo <= #[trigger] s[i] <= hi
}

// ---------------------------------------------------------------------------
// The last n blocks
// ---------------------------------------------------------------------------
/// The first of the last `n` blocks up to `latest` (never below block 0).
pub open spec fn first_of_last(latest: u64, n: usize) -> u64 {
    if n - 1 > latest {
        0
    } else {
        (latest - (n - 1)) as u64
    }
}

/// The block numbers from `latest` down to `first`.
pub open spec fn countdown(latest: u64, first: u64) -> Seq<u64> {
    Seq::new((latest - first + 1) as nat, |i: int| (latest - i) as u64)
}

/// Where a fetch of the last blocks stands.
#[derive(Debug, Clone, Copy, PartialEq, Eq, Structural)]
pub enum LastBlocksPhase {
    /// Waiting for the latest block.
    AwaitLatest,
    /// Walking back by parent hash: waiting for the block at the end of the
    /// chain found so far.
    AwaitParent,
    /// Waiting for the block at position `next` of the chain.
    AwaitBlock,
    /// Waiting for the witness of the block at position `next`.
    AwaitWitness,
    /// Done.
    Finished,
}

/// The fetch of the last `n` blocks with their witnesses: first the latest
/// block, then the chain of hashes back to the first wanted block, then each
/// block and its witness, newest first. Any RPC call that fails, and any
/// block that cannot be found, ends the fetch with an error.
pub struct LastBlocksFetch {
    pub n: usize,
    pub phase: LastBlocksPhase,
    pub latest: u64,
    pub first: u64,
    /// The blocks found so far, newest first: number and hash.
    pub chain: Vec<(u64, BlockHash)>,
    /// The position in `chain` being fetched.
    pub next: usize,
    /// The numbers of the blocks fetched with their witnesses so far.
    pub kept: Vec<u64>,
}

impl LastBlocksFetch {
    /// The number of blocks the fetch covers once the latest is known.
    pub open spec fn span(&self) -> int {
        self.latest - self.first + 1
    }

    /// The invariant of the fetch.
    pub open spec fn wf(&self) -> bool {
        match self.phase {
            LastBlocksPhase::AwaitLatest => {
                &&& self.n > 0
                &&& self.chain@.len() == 0
                &&& self.kept@.len() == 0
            },
            LastBlocksPhase::Finished => true,
            _ => {
                &&& self.n > 0
                &&& self.first == first_of_last(self.latest, self.n)
                &&& 1 <= self.chain@.len() <= self.span()
                &&& forall|k: int|
                    0 <= k < self.chain@.len() ==> (#[trigger] self.chain@[k]).0 == self.latest - k
                &&& (self.phase == LastBlocksPhase::AwaitParent ==> {
                    &&& self.chain@.len() < self.span()
                    &&& self.next == 0
                })
                &&& (self.phase != LastBlocksPhase::AwaitParent ==> {
                    &&& self.chain@.len() == self.span()
                    &&& self.next < self.chain@.len()
                })
                &&& self.kept@ == countdown(self.latest, self.first).take(self.next as int)
            },
        }
    }

    /// The call the fetch waits for.
    pub open spec fn pending(&self) -> RpcRequest {
        match self.phase {
            LastBlocksPhase::AwaitParent => RpcRequest::BlockByHash {
                number: self.chain@.last().0,
                hash: self.chain@.last().1,
            },
            LastBlocksPhase::AwaitBlock => RpcRequest::BlockByHash {
                number: self.chain@[self.next as int].0,
                hash: self.chain@[self.next as int].1,
            },
            LastBlocksPhase::AwaitWitness => RpcRequest::WitnessByHash {
                number: self.chain@[self.next as int].0,
                hash: self.chain@[self.next as int].1,
            },
            _ => RpcRequest::LatestBlock,
        }
    }

    /// Whether the step's outcome is what a finished fetch may yield: a
    /// success holds exactly the last `n` block numbers (down to block 0),
    /// newest first.
    pub open spec fn finished_well(&self, step: FetchStep) -> bool {
        step matches FetchStep::Finished(Ok(list)) ==> list@ == countdown(self.latest, self.first)
    }

    /// Starts the fetch of the last `n` blocks: nothing to fetch for `n == 0`,
    /// otherwise the latest block first.
    pub fn start(n: usize) -> (r: (Self, FetchStep))
        ensures
            r.0.wf(),
            r.0.n == n,
            n == 0 ==> r.0.phase == LastBlocksPhase::Finished,
            n == 0 ==> (r.1 matches FetchStep::Finished(Ok(list)) && list@.len() == 0),
            n > 0 ==> r.0.phase == LastBlocksPhase::AwaitLatest,
            n > 0 ==> (r.1 matches FetchStep::Call(req) && req == r.0.pending()),
    {
        let phase = if n == 0 {
            LastBlocksPhase::Finished
        } else {
            LastBlocksPhase::AwaitLatest
        };
        let f = LastBlocksFetch {
            n,
            phase,
            latest: 0,
            first: 0,
            chain: Vec::new(),
            next: 0,
            kept: Vec::new(),
        };
        if n == 0 {
            (f, FetchStep::Finished(Ok(Vec::new())))
        } else {
            (f, FetchStep::Call(RpcRequest::LatestBlock))
        }
    }

    /// After the chain of hashes is complete, or after position `next` is
    /// done: fetch the block at the next position, or finish.
    fn advance(&mut self) -> (r: FetchStep)
        requires
            old(self).phase == LastBlocksPhase::AwaitBlock || old(self).phase
                == LastBlocksPhase::AwaitWitness,
            old(self).n > 0,
            old(self).first == first_of_last(old(self).latest, old(self).n),
            old(self).chain@.len() == old(self).span(),
            forall|k: int|
                0 <= k < old(self).chain@.len() ==> (#[trigger] old(self).chain@[k]).0 == old(
                    self,
                ).latest - k,
            old(self).next <= old(self).chain@.len(),
            old(self).kept@ == countdown(old(self).latest, old(self).first).take(
                old(self).next as int,
            ),
        ensures
            final(self).wf(),
            final(self).n == old(self).n,
            final(self).latest == old(self).latest,
            final(self).first == old(self).first,
            final(self).chain == old(self).chain,
            final(self).next == old(self).next,
            final(self).kept == old(self).kept,
            old(self).next < old(self).chain@.len() ==> final(self).phase
                == LastBlocksPhase::AwaitBlock,
            old(self).next < old(self).chain@.len() ==> (r matches FetchStep::Call(req)
                && req == final(self).pending()),
            old(self).next == old(self).chain@.len() ==> final(self).phase
                == LastBlocksPhase::Finished,
            old(self).next == old(self).chain@.len() ==> (r matches FetchStep::Finished(Ok(list))
                && list@ == old(self).kept@),
            final(self).finished_well(r),
    {
        if self.next < self.chain.len() {
            self.phase = LastBlocksPhase::AwaitBlock;
            let (number, hash) = self.chain[self.next];
            FetchStep::Call(RpcRequest::BlockByHash { number, hash })
        } else {
            self.phase = LastBlocksPhase::Finished;
            assert(countdown(self.latest, self.first).take(self.next as int) =~= countdown(
                self.latest,
                self.first,
            ));
            FetchStep::Finished(Ok(self.kept.clone()))
        }
    }

    /// Takes the reply to the pending call and says what to do next.
    pub fn step(&mut self, reply: RpcReply) -> (r: FetchStep)
        requires
            old(self).wf(),
            old(self).phase != LastBlocksPhase::Finished,
            reply_fits(old(self).pending(), reply),
        ensures
            final(self).wf(),
            final(self).n == old(self).n,
            r matches FetchStep::Call(req) ==> req == final(self).pending()
                && final(self).phase != LastBlocksPhase::Finished,
            r is Finished ==> final(self).phase == LastBlocksPhase::Finished,
            final(self).finished_well(r),
            // a reply that does not carry what was asked for ends the fetch
            !reply_ok(reply) ==> r matches FetchStep::Finished(Err(_)),
            // the latest block
            old(self).phase == LastBlocksPhase::AwaitLatest ==> match reply {
                RpcReply::Block(Err(m)) => r matches FetchStep::Finished(Err(WGError::RpcError(e)))
                    && e@ == m@,
                RpcReply::Block(Ok(None)) => r matches FetchStep::Finished(
                    Err(WGError::LatestBlockFetchError),
                ),
                RpcReply::Block(Ok(Some(b))) => final(self).latest == b.number
                    && final(self).first == first_of_last(b.number, old(self).n)
                    && final(self).chain@ == seq![(b.number, b.hash)] && r is Call
                    && final(self).phase == (if b.number > final(self).first {
                    LastBlocksPhase::AwaitParent
                } else {
                    LastBlocksPhase::AwaitBlock
                }),
                _ => true,
            },
            // walking back
            old(self).phase == LastBlocksPhase::AwaitParent ==> match reply {
                RpcReply::Block(Err(m)) => r matches FetchStep::Finished(Err(WGError::RpcError(e)))
                    && e@ == m@,
                RpcReply::Block(Ok(None)) => r matches FetchStep::Finished(
                    Err(WGError::BlockNotFoundForNumber(k)),
                ) && k == old(self).chain@.last().0,
                RpcReply::Block(Ok(Some(b))) => final(self).chain@ == old(self).chain@.push(
                    ((old(self).chain@.last().0 - 1) as u64, b.parent_hash),
                ) && r is Call && final(self).phase == (if final(self).chain@.last().0
                    > final(self).first {
                    LastBlocksPhase::AwaitParent
                } else {
                    LastBlocksPhase::AwaitBlock
                }),
                _ => true,
            },
            // each block, then its witness
            old(self).phase == LastBlocksPhase::AwaitBlock ==> match reply {
                RpcReply::Block(Err(m)) => r matches FetchStep::Finished(Err(WGError::RpcError(e)))
                    && e@ == m@,
                RpcReply::Block(Ok(None)) => r matches FetchStep::Finished(
                    Err(WGError::BlockNotFoundForHash(h)),
                ) && h@ == "0x"@ + hex_of(old(self).chain@[old(self).next as int].1@),
                RpcReply::Block(Ok(Some(_))) => final(self).phase == LastBlocksPhase::AwaitWitness
                    && final(self).next == old(self).next && final(self).kept == old(self).kept
                    && final(self).chain == old(self).chain && (r matches FetchStep::Call(
                    RpcRequest::WitnessByHash { number, hash },
                ) && number == old(self).chain@[old(self).next as int].0 && hash == old(
                    self,
                ).chain@[old(self).next as int].1),
                _ => true,
            },
            old(self).phase == LastBlocksPhase::AwaitWitness ==> match reply {
                RpcReply::Witness(Err(m)) => r matches FetchStep::Finished(
                    Err(WGError::RpcError(e)),
                ) && e@ == m@,
                RpcReply::Witness(Ok(())) => final(self).next == old(self).next + 1
                    && final(self).kept@ == old(self).kept@.push(
                    old(self).chain@[old(self).next as int].0,
                ) && final(self).chain == old(self).chain && (final(self).next
                    < final(self).chain@.len() ==> (final(self).phase == LastBlocksPhase::AwaitBlock
                    && (r matches FetchStep::Call(RpcRequest::BlockByHash { number, hash })
                    && number == final(self).chain@[final(self).next as int].0
                    && hash == final(self).chain@[final(self).next as int].1))) && (final(self).next
                    == final(self).chain@.len() ==> (r matches FetchStep::Finished(Ok(list))
                    && list@ == final(self).kept@)),
                _ => true,
            },
    {
        match self.phase {
            LastBlocksPhase::AwaitLatest => {
                match reply {
                    RpcReply::Block(Err(m)) => {
                        self.phase = LastBlocksPhase::Finished;
                        FetchStep::Finished(Err(WGError::RpcError(m)))
                    },
                    RpcReply::Block(Ok(None)) => {
                        self.phase = LastBlocksPhase::Finished;
                        FetchStep::Finished(Err(WGError::LatestBlockFetchError))
                    },
                    RpcReply::Block(Ok(Some(b))) => {
                        let back: u64 = (self.n - 1) as u64;
                        let first = if back > b.number {
                            0
                        } else {
                            b.number - back
                        };
                        self.latest = b.number;
                        self.first = first;
                        self.chain.push((b.number, b.hash));
                        self.next = 0;
                        assert(countdown(self.latest, self.first).take(0) =~= self.kept@);
                        if b.number > first {
                            self.phase = LastBlocksPhase::AwaitParent;
                            FetchStep::Call(RpcRequest::BlockByHash { number: b.number, hash: b.hash })
                        } else {
                            self.phase = LastBlocksPhase::AwaitBlock;
                            self.advance()
                        }
                    },
                    RpcReply::Witness(_) => {
                        // excluded by `reply_fits`
                        FetchStep::Call(RpcRequest::LatestBlock)
                    },
                }
            },
            LastBlocksPhase::AwaitParent => {
                let last = self.chain.len() - 1;
                let (last_number, _) = self.chain[last];
                match reply {
                    RpcReply::Block(Err(m)) => {
                        self.phase = LastBlocksPhase::Finished;
                        FetchStep::Finished(Err(WGError::RpcError(m)))
                    },
                    RpcReply::Block(Ok(None)) => {
                        self.phase = LastBlocksPhase::Finished;
                        FetchStep::Finished(Err(WGError::BlockNotFoundForNumber(last_number)))
                    },
                    RpcReply::Block(Ok(Some(b))) => {
                        let number = last_number - 1;
                        self.chain.push((number, b.parent_hash));
                        assert(countdown(self.latest, self.first).take(0) =~= self.kept@);
                        if number > self.first {
                            FetchStep::Call(RpcRequest::BlockByHash { number, hash: b.parent_hash })
                        } else {
                            self.phase = LastBlocksPhase::AwaitBlock;
                            self.advance()
                        }
                    },
                    RpcReply::Witness(_) => {
                        // excluded by `reply_fits`
                        FetchStep::Call(RpcRequest::LatestBlock)
                    },
                }
            },
            LastBlocksPhase::AwaitBlock => {
                let (number, hash) = self.chain[self.next];
                match reply {
                    RpcReply::Block(Ok(Some(_))) => {
                        self.phase = LastBlocksPhase::AwaitWitness;
                        FetchStep::Call(RpcRequest::WitnessByHash { number, hash })
                    },
                    RpcReply::Block(Ok(None)) => {
                        self.phase = LastBlocksPhase::Finished;
                        FetchStep::Finished(Err(WGError::BlockNotFoundForHash(hash_hex(&hash))))
                    },
                    RpcReply::Block(Err(m)) => {
                        self.phase = LastBlocksPhase::Finished;
                        FetchStep::Finished(Err(WGError::RpcError(m)))
                    },
                    RpcReply::Witness(_) => {
                        // excluded by `reply_fits`
                        FetchStep::Call(RpcRequest::LatestBlock)
                    },
                }
            },
            LastBlocksPhase::AwaitWitness => {
                match reply {
                    RpcReply::Witness(Ok(())) => {
                        let (number, _) = self.chain[self.next];
                        self.kept.push(number);
                        assert(self.kept@ =~= countdown(self.latest, self.first).take(
                            self.next + 1,
                        ));
                        self.next = self.next + 1;
                        self.advance()
                    },
                    RpcReply::Witness(Err(m)) => {
                        self.phase = LastBlocksPhase::Finished;
                        FetchStep::Finished(Err(WGError::RpcError(m)))
                    },
                    RpcReply::Block(_) => {
                        // excluded by `reply_fits`
                        FetchStep::Call(RpcRequest::LatestBlock)
                    },
                }
            },
            LastBlocksPhase::Finished => {
                // excluded by `requires`
                FetchStep::Finished(Ok(Vec::new()))
            },
        }
    }
}

/// In the fetch of the last blocks, the witness asked for after a block
/// came back is that same block's: the witness request carries the number
/// and the hash of the block request it follows, which are those of the
/// block at the position being fetched.
pub proof fn lemma_witness_of_the_fetched_block(f: LastBlocksFetch)
    requires
        f.wf(),
        f.phase == LastBlocksPhase::AwaitBlock,
    ensures
        ({
            let g = LastBlocksFetch { phase: LastBlocksPhase::AwaitWitness, ..f };
            &&& f.pending() matches RpcRequest::BlockByHash { number: bn, hash: bh }
            &&& g.pending() matches RpcRequest::WitnessByHash { number: wn, hash: wh }
            &&& bn == wn && bh == wh
            &&& bn == f.chain@[f.next as int].0 && bh == f.chain@[f.next as int].1
            &&& bn == f.latest - f.next
        }),
{
}

/// The last `n` block numbers up to `latest`, newest first: they strictly
/// decrease, lie between the first wanted block and `latest`, and there are
/// `n` of them, or all blocks down to 0 when the chain is shorter.
pub proof fn lemma_last_blocks_shape(latest: u64, n: usize)
    requires
        n > 0,
    ensures
        strictly_decreasing(countdown(latest, first_of_last(latest, n))),
        all_within(countdown(latest, first_of_last(latest, n)), first_of_last(latest, n) as int, latest as int),
        countdown(latest, first_of_last(latest, n)).len() == (if n - 1 > latest {
            latest + 1
        } else {
            n as int
        }),
        countdown(latest, first_of_last(latest, n))[0] == latest,
{
}


// ---------------------------------------------------------------------------
// One block
// ---------------------------------------------------------------------------
/// Where the fetch of one block stands.
#[derive(Debug, Clone, Copy, PartialEq, Eq, Structural)]
pub enum OneBlockPhase {
    /// Waiting for the block's witness.
    AwaitWitness,
    /// Waiting for the block.
    AwaitBlock,
    /// Done.
    Finished,
}

/// The fetch of one block by number: its witness first, then the block. If
/// either cannot be fetched, the block is skipped; this fetch never fails.
pub struct OneBlockFetch {
    pub number: u64,
    pub phase: OneBlockPhase,
    /// Whether every reply so far carried what was asked for.
    pub all_ok: Ghost<bool>,
}

/// The block `number` alone when `kept`, otherwise no block.
pub open spec fn one_or_none(kept: bool, number: u64) -> Seq<u64> {
    if kept {
        seq![number]
    } else {
        Seq::empty()
    }
}

impl OneBlockFetch {
    /// The invariant of the fetch.
    pub open spec fn wf(&self) -> bool {
        self.phase != OneBlockPhase::Finished ==> self.all_ok@
    }

    /// The call the fetch waits for.
    pub open spec fn pending(&self) -> RpcRequest {
        match self.phase {
            OneBlockPhase::AwaitBlock => RpcRequest::BlockByNumber(self.number),
            _ => RpcRequest::WitnessByNumber(self.number),
        }
    }

    /// Starts the fetch of block `number` with its witness.
    pub fn start(number: u64) -> (r: (Self, FetchStep))
        ensures
            r.0.wf(),
            r.0.number == number,
            r.0.phase == OneBlockPhase::AwaitWitness,
            r.0.all_ok@,
            r.1 matches FetchStep::Call(req) && req == r.0.pending(),
    {
        (
            OneBlockFetch { number, phase: OneBlockPhase::AwaitWitness, all_ok: Ghost(true) },
            FetchStep::Call(RpcRequest::WitnessByNumber(number)),
        )
    }

    /// Takes the reply to the pending call and says what to do next: the
    /// block is kept exactly when both its witness and the block came back.
    pub fn step(&mut self, reply: RpcReply) -> (r: FetchStep)
        requires
            old(self).wf(),
            old(self).phase != OneBlockPhase::Finished,
            reply_fits(old(self).pending(), reply),
        ensures
            final(self).wf(),
            final(self).number == old(self).number,
            final(self).all_ok@ == (old(self).all_ok@ && reply_ok(reply)),
            r matches FetchStep::Call(req) ==> (req == final(self).pending()
                && final(self).phase == OneBlockPhase::AwaitBlock),
            r is Finished ==> final(self).phase == OneBlockPhase::Finished,
            r matches FetchStep::Finished(res) ==> (res matches Ok(list)
                && list@ == one_or_none(final(self).all_ok@, old(self).number)),
            old(self).phase == OneBlockPhase::AwaitWitness ==> (r is Call <==> reply_ok(reply)),
            old(self).phase == OneBlockPhase::AwaitBlock ==> r is Finished,
    {
        match self.phase {
            OneBlockPhase::AwaitWitness => {
                let ok = match reply {
                    RpcReply::Witness(Ok(())) => true,
                    _ => false,
                };
                if ok {
                    self.phase = OneBlockPhase::AwaitBlock;
                    FetchStep::Call(RpcRequest::BlockByNumber(self.number))
                } else {
                    self.phase = OneBlockPhase::Finished;
                    self.all_ok = Ghost(false);
                    FetchStep::Finished(Ok(Vec::new()))
                }
            },
            _ => {
                let ok = match reply {
                    RpcReply::Block(Ok(Some(_))) => true,
                    _ => false,
                };
                self.phase = OneBlockPhase::Finished;
                if ok {
                    let mut v = Vec::new();
                    v.push(self.number);
                    assert(v@ =~= seq![self.number]);
                    FetchStep::Finished(Ok(v))
                } else {
                    self.all_ok = Ghost(false);
                    FetchStep::Finished(Ok(Vec::new()))
                }
            },
        }
    }
}

// ---------------------------------------------------------------------------
// From a block up to the latest
// ---------------------------------------------------------------------------
/// The block numbers `first..=last`, ascending.
pub open spec fn count_up(first: u64, last: u64) -> Seq<u64> {
    Seq::new((last - first + 1) as nat, |i: int| (first + i) as u64)
}

/// The blocks kept out of those from `first` on, given for each of them in
/// order whether both its witness and the block came back.
pub open spec fn kept_blocks(first: u64, outcomes: Seq<bool>) -> Seq<u64>
    decreases outcomes.len(),
{
    if outcomes.len() == 0 {
        Seq::empty()
    } else {
        kept_blocks(first, outcomes.drop_last()) + one_or_none(
            outcomes.last(),
            (first + outcomes.len() - 1) as u64,
        )
    }
}

/// Where a fetch of the blocks from a given number stands.
#[derive(Debug, Clone, Copy, PartialEq, Eq, Structural)]
pub enum FromBlockPhase {
    /// Waiting for the latest block.
    AwaitLatest,
    /// Fetching block `current` through `inner`.
    Scanning,
    /// Done.
    Finished,
}

/// The fetch of every block from `first` up to the latest one, each with its
/// witness; blocks that cannot be fetched are skipped. It fails only when the
/// latest block cannot be had.
pub struct FromBlockFetch {
    pub first: u64,
    pub phase: FromBlockPhase,
    pub latest: u64,
    pub current: u64,
    pub inner: OneBlockFetch,
    /// The numbers of the blocks kept so far.
    pub kept: Vec<u64>,
    /// For each block done so far, from `first` on, whether both its witness
    /// and the block came back.
    pub outcomes: Ghost<Seq<bool>>,
    /// Whether every reply so far carried what was asked for.
    pub all_ok: Ghost<bool>,
}

impl FromBlockFetch {
    /// The invariant of the fetch.
    pub open spec fn wf(&self) -> bool {
        match self.phase {
            FromBlockPhase::AwaitLatest => self.kept@.len() == 0 && self.all_ok@
                && self.outcomes@.len() == 0,
            FromBlockPhase::Finished => true,
            FromBlockPhase::Scanning => {
                &&& self.first <= self.current <= self.latest
                &&& self.inner.wf()
                &&& self.inner.number == self.current
                &&& self.inner.phase != OneBlockPhase::Finished
                &&& (self.all_ok@ ==> self.inner.all_ok@)
                &&& strictly_increasing(self.kept@)
                &&& all_within(self.kept@, self.first as int, self.current - 1)
                &&& self.outcomes@.len() == self.current - self.first
                &&& self.kept@ == kept_blocks(self.first, self.outcomes@)
                &&& (self.all_ok@ ==> self.kept@ =~= Seq::new(
                    (self.current - self.first) as nat,
                    |i: int| (self.first + i) as u64,
                ))
            },
        }
    }

    /// The call the fetch waits for.
    pub open spec fn pending(&self) -> RpcRequest {
        match self.phase {
            FromBlockPhase::Scanning => self.inner.pending(),
            _ => RpcRequest::LatestBlock,
        }
    }

    /// Whether the step's outcome is what a finished fetch may yield: the
    /// kept numbers are exactly the blocks from `first` to the latest whose
    /// witness and block both came back; they strictly increase and lie
    /// between `first` and the latest block, and are all of them when every
    /// reply carried what was asked.
    pub open spec fn finished_well(&self, step: FetchStep) -> bool {
        step matches FetchStep::Finished(Ok(list)) ==> {
            &&& list@ == kept_blocks(self.first, self.outcomes@)
            &&& self.outcomes@.len() == (if self.first <= self.latest {
                self.latest - self.first + 1
            } else {
                0
            })
            &&& strictly_increasing(list@)
            &&& all_within(list@, self.first as int, self.latest as int)
            &&& (self.all_ok@ ==> list@ == (if self.first <= self.latest {
                count_up(self.first, self.latest)
            } else {
                Seq::empty()
            }))
        }
    }

    /// Starts the fetch of the blocks from `first`: the latest block first.
    pub fn start(first: u64) -> (r: (Self, FetchStep))
        ensures
            r.0.wf(),
            r.0.first == first,
            r.0.phase == FromBlockPhase::AwaitLatest,
            r.0.all_ok@,
            r.1 matches FetchStep::Call(req) && req == r.0.pending(),
    {
        let (inner, _) = OneBlockFetch::start(first);
        (
            FromBlockFetch {
                first,
                phase: FromBlockPhase::AwaitLatest,
                latest: 0,
                current: first,
                inner,
                kept: Vec::new(),
                outcomes: Ghost(Seq::empty()),
                all_ok: Ghost(true),
            },
            FetchStep::Call(RpcRequest::LatestBlock),
        )
    }

    /// Takes the reply to the pending call and says what to do next.
    pub fn step(&mut self, reply: RpcReply) -> (r: FetchStep)
        requires
            old(self).wf(),
            old(self).phase != FromBlockPhase::Finished,
            reply_fits(old(self).pending(), reply),
        ensures
            final(self).wf(),
            final(self).first == old(self).first,
            final(self).all_ok@ == (old(self).all_ok@ && reply_ok(reply)),
            r matches FetchStep::Call(req) ==> (req == final(self).pending()
                && final(self).phase == FromBlockPhase::Scanning),
            r is Finished ==> final(self).phase == FromBlockPhase::Finished,
            final(self).finished_well(r),
            old(self).phase == FromBlockPhase::AwaitLatest ==> match reply {
                RpcReply::Block(Err(m)) => r matches FetchStep::Finished(Err(WGError::RpcError(e)))
                    && e@ == m@,
                RpcReply::Block(Ok(None)) => r matches FetchStep::Finished(
                    Err(WGError::LatestBlockFetchError),
                ),
                RpcReply::Block(Ok(Some(b))) => final(self).latest == b.number && (b.number
                    < old(self).first ==> (r matches FetchStep::Finished(Ok(list))
                    && list@.len() == 0)) && (b.number >= old(self).first ==> {
                    &&& final(self).phase == FromBlockPhase::Scanning
                    &&& final(self).current == old(self).first
                    &&& final(self).kept@.len() == 0
                    &&& final(self).outcomes@.len() == 0
                    &&& final(self).inner.phase == OneBlockPhase::AwaitWitness
                    &&& r matches FetchStep::Call(RpcRequest::WitnessByNumber(n)) && n == old(
                        self,
                    ).first
                }),
                _ => true,
            },
            old(self).phase == FromBlockPhase::Scanning ==> {
                &&& !(r matches FetchStep::Finished(Err(_)))
                &&& final(self).latest == old(self).latest
                &&& (old(self).inner.phase == OneBlockPhase::AwaitWitness && reply_ok(reply)) ==> (
                r matches FetchStep::Call(RpcRequest::BlockByNumber(n)) && n == old(self).current
                    && final(self).kept == old(self).kept && final(self).current == old(
                    self).current && final(self).outcomes == old(self).outcomes)
                &&& !(old(self).inner.phase == OneBlockPhase::AwaitWitness && reply_ok(reply)) ==> {
                    &&& final(self).outcomes@ == old(self).outcomes@.push(
                        old(self).inner.phase == OneBlockPhase::AwaitBlock && reply_ok(reply),
                    )
                    &&& final(self).kept@ == old(self).kept@ + one_or_none(
                        old(self).inner.phase == OneBlockPhase::AwaitBlock && reply_ok(reply),
                        old(self).current,
                    )
                    &&& old(self).current == old(self).latest ==> (r matches FetchStep::Finished(
                        Ok(list)) && list@ == final(self).kept@)
                    &&& old(self).current < old(self).latest ==> (r matches FetchStep::Call(
                        RpcRequest::WitnessByNumber(n)) && n == old(self).current + 1
                        && final(self).current == n)
                }
            },
    {
        match self.phase {
            FromBlockPhase::AwaitLatest => {
                match reply {
                    RpcReply::Block(Err(m)) => {
                        self.phase = FromBlockPhase::Finished;
                        self.all_ok = Ghost(false);
                        FetchStep::Finished(Err(WGError::RpcError(m)))
                    },
                    RpcReply::Block(Ok(None)) => {
                        self.phase = FromBlockPhase::Finished;
                        self.all_ok = Ghost(false);
                        FetchStep::Finished(Err(WGError::LatestBlockFetchError))
                    },
                    RpcReply::Block(Ok(Some(b))) => {
                        self.latest = b.number;
                        if b.number < self.first {
                            self.phase = FromBlockPhase::Finished;
                            FetchStep::Finished(Ok(Vec::new()))
                        } else {
                            self.current = self.first;
                            let (inner, first_call) = OneBlockFetch::start(self.first);
                            self.inner = inner;
                            self.phase = FromBlockPhase::Scanning;
                            assert(self.kept@ =~= kept_blocks(self.first, self.outcomes@));
                            assert(self.kept@ =~= Seq::new(
                                (self.current - self.first) as nat,
                                |i: int| (self.first + i) as u64,
                            ));
                            first_call
                        }
                    },
                    RpcReply::Witness(_) => {
                        // excluded by `reply_fits`
                        FetchStep::Call(RpcRequest::LatestBlock)
                    },
                }
            },
            _ => {
                let ghost old_kept = self.kept@;
                let inner_step = self.inner.step(reply);
                match inner_step {
                    FetchStep::Call(req) => {
                        let ghost ok = self.all_ok@ && self.inner.all_ok@;
                        self.all_ok = Ghost(ok);
                        FetchStep::Call(req)
                    },
                    FetchStep::Finished(Err(e)) => {
                        // the fetch of one block never fails
                        self.phase = FromBlockPhase::Finished;
                        FetchStep::Finished(Err(e))
                    },
                    FetchStep::Finished(Ok(found)) => {
                        let ghost got = self.inner.all_ok@;
                        let ghost old_outcomes = self.outcomes@;
                        if found.len() > 0 {
                            self.kept.push(self.current);
                        } else {
                            self.all_ok = Ghost(false);
                        }
                        self.outcomes = Ghost(old_outcomes.push(got));
                        proof {
                            let o = self.outcomes@;
                            assert(o.drop_last() =~= old_outcomes);
                            assert(self.kept@ =~= kept_blocks(self.first, o));
                        }
                        proof {
                            if self.all_ok@ {
                                assert(self.kept@ =~= Seq::new(
                                    (self.current + 1 - self.first) as nat,
                                    |i: int| (self.first + i) as u64,
                                ));
                            }
                        }
                        if self.current == self.latest {
                            self.phase = FromBlockPhase::Finished;
                            proof {
                                if self.all_ok@ {
                                    assert(self.kept@ =~= count_up(self.first, self.latest));
                                }
                            }
                            FetchStep::Finished(Ok(self.kept.clone()))
                        } else {
                            self.current = self.current + 1;
                            let (inner, call) = OneBlockFetch::start(self.current);
                            self.inner = inner;
                            call
                        }
                    },
                }
            },
        }
    }
}

// ---------------------------------------------------------------------------
// Live polling
// ---------------------------------------------------------------------------
/// The state of live polling: how many fixtures were saved, and the block
/// to poll from next. Polling ends with an error when a round's RPC calls
/// fail or its fixtures cannot be written, and with the count when stopped.
#[derive(Debug, Clone, Copy, PartialEq, Eq, Structural)]
pub struct LivePoll {
    pub count: usize,
    pub next: u64,
}

impl LivePoll {
    /// Starts live polling from the latest block. The latest block is asked
    /// for first; then a cancellation token must have been given.
    pub fn begin(latest: Result<Option<BlockInfo>, String>, has_stop: bool) -> (r: Result<
        LivePoll,
        WGError,
    >)
        ensures
            match latest {
                Err(m) => r matches Err(WGError::RpcError(e)) && e@ == m@,
                Ok(None) => r matches Err(WGError::LatestBlockFetchError),
                Ok(Some(b)) => if has_stop {
                    r matches Ok(p) && p.count == 0 && p.next == b.number
                } else {
                    r matches Err(WGError::CancellationTokenRequired)
                },
            },
    {
        match latest {
            Err(m) => Err(WGError::RpcError(m)),
            Ok(None) => Err(WGError::LatestBlockFetchError),
            Ok(Some(b)) => if has_stop {
                Ok(LivePoll { count: 0, next: b.number })
            } else {
                Err(WGError::CancellationTokenRequired)
            },
        }
    }

    /// What to do with the outcome of a polling round: a failed round ends
    /// live polling with its error; a round that fetched no block writes
    /// nothing (`None`); otherwise the round's blocks are to be written.
    pub fn after_round(&self, round: Result<Vec<u64>, WGError>) -> (r: Result<
        Option<Vec<u64>>,
        WGError,
    >)
        ensures
            match round {
                Err(e) => r == Err::<Option<Vec<u64>>, WGError>(e),
                Ok(list) => if list@.len() == 0 {
                    r matches Ok(None)
                } else {
                    r matches Ok(Some(l)) && l@ == list@
                },
            },
    {
        match round {
            Err(e) => Err(e),
            Ok(list) => if list.len() == 0 {
                Ok(None)
            } else {
                Ok(Some(list))
            },
        }
    }

    /// Records the outcome of writing a round's fixtures: when written, they
    /// are counted and polling continues after the last of them; a failed
    /// write ends live polling with its error and changes nothing.
    pub fn after_save(&mut self, saved: &Vec<u64>, written: Result<(), WGError>) -> (r: Result<
        (),
        WGError,
    >)
        requires
            saved@.len() > 0,
            strictly_increasing(saved@),
            all_within(saved@, old(self).next as int, u64::MAX - 1),
            old(self).count + saved@.len() <= usize::MAX,
        ensures
            written is Ok ==> r is Ok,
            written is Ok ==> final(self).count == old(self).count + saved@.len(),
            written is Ok ==> final(self).next == saved@.last() + 1,
            written is Ok ==> final(self).next > old(self).next,
            written matches Err(e) ==> r == Err::<(), WGError>(e) && *final(self) == *old(self),
    {
        match written {
            Ok(()) => {
                let last = saved[saved.len() - 1];
                self.count = self.count + saved.len();
                self.next = last + 1;
                Ok(())
            },
            Err(e) => Err(e),
        }
    }
}

} // verus!
