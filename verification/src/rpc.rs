//! Configuration of the RPC fixture generator: the builder, the supported
//! networks, and what a generator does when asked for fixtures.
use crate::error::WGError;
use crate::headers::{empty_header_map, header_entries, no_headers};
use alloy_chains::Chain;
use http::HeaderMap;
use tokio_util::sync::CancellationToken;
use vstd::prelude::*;

verus! {

#[verifier::external_type_specification]
#[verifier::external_body]
pub struct ExCancellationToken(CancellationToken);

/// The response size limit the RPC client is built with (1 GiB).
pub const MAX_RESPONSE_SIZE: u32 = 1073741824;

/// Builder for an RPC generator of blocks and execution witnesses.
pub struct RpcBlocksAndWitnessesBuilder {
    /// The RPC endpoint.
    pub url: String,
    /// The HTTP headers sent with every request.
    pub header_map: HeaderMap,
    /// Fetch this many of the most recent blocks.
    pub last_n_blocks: Option<usize>,
    /// Fetch this one block.
    pub block: Option<u64>,
    /// Poll for new blocks until this token is cancelled.
    pub stop: Option<CancellationToken>,
}

impl RpcBlocksAndWitnessesBuilder {
    /// A builder for the given RPC URL, with no headers and nothing chosen to
    /// fetch.
    pub fn new(url: String) -> (r: Self)
        ensures
            r.url@ == url@,
            header_entries(r.header_map) == no_headers(),
            r.last_n_blocks is None,
            r.block is None,
            r.stop is None,
    {
        Self { url, header_map: empty_header_map(), last_n_blocks: None, block: None, stop: None }
    }

    /// Sends the given HTTP headers with every request.
    pub fn with_headers(self, headers: HeaderMap) -> (r: Self)
        ensures
            r.header_map == headers,
            r.url == self.url,
            r.last_n_blocks == self.last_n_blocks,
            r.block == self.block,
            r.stop == self.stop,
    {
        Self { header_map: headers, ..self }
    }

    /// Fetches the `n` most recent blocks.
    pub fn last_n_blocks(self, n: usize) -> (r: Self)
        ensures
            r.last_n_blocks == Some(n),
            r.url == self.url,
            r.header_map == self.header_map,
            r.block == self.block,
            r.stop == self.stop,
    {
        Self { last_n_blocks: Some(n), ..self }
    }

    /// Listens for new blocks until `stop` is cancelled.
    pub fn listen(self, stop: CancellationToken) -> (r: Self)
        ensures
            r.stop == Some(stop),
            r.url == self.url,
            r.header_map == self.header_map,
            r.last_n_blocks == self.last_n_blocks,
            r.block == self.block,
    {
        Self { stop: Some(stop), ..self }
    }

    /// Fetches the block with the given number.
    pub fn block(self, block: u64) -> (r: Self)
        ensures
            r.block == Some(block),
            r.url == self.url,
            r.header_map == self.header_map,
            r.last_n_blocks == self.last_n_blocks,
            r.stop == self.stop,
    {
        Self { block: Some(block), ..self }
    }

    /// Finishes the builder once the node has been asked for its chain id.
    /// `chain_id` is what came back: an error message when the client could
    /// not be built or the call failed, `None` when the node gave no id.
    pub fn build(self, chain_id: Result<Option<u64>, String>) -> (r: Result<
        RpcFixtureGenerator,
        WGError,
    >)
        ensures
            match chain_id {
                Err(msg) => r matches Err(WGError::RpcError(m)) && m@ == msg@,
                Ok(None) => r matches Err(WGError::ChainIdFetchError),
                Ok(Some(id)) => match network_of(id) {
                    None => r matches Err(WGError::UnsupportedChain(c)) && c == id,
                    Some(net) => r matches Ok(g) && g.network == net && g.last_n_blocks
                        == self.last_n_blocks && g.block == self.block && g.stop == self.stop,
                },
            },
    {
        match chain_id {
            Err(msg) => Err(WGError::RpcError(msg)),
            Ok(None) => Err(WGError::ChainIdFetchError),
            Ok(Some(id)) => match network_from_chain_id(id) {
                None => Err(WGError::UnsupportedChain(id)),
                Some(network) => Ok(
                    RpcFixtureGenerator {
                        network,
                        last_n_blocks: self.last_n_blocks,
                        block: self.block,
                        stop: self.stop,
                    },
                ),
            },
        }
    }
}

/// The networks whose chain configuration the generator knows.
#[derive(Debug, Clone, Copy, PartialEq, Eq, Structural)]
pub enum Network {
    Mainnet,
    Sepolia,
    Hoodi,
    Holesky,
}

/// The network a chain id belongs to, among the supported ones.
pub open spec fn network_of(id: u64) -> Option<Network> {
    if id == 1 {
        Some(Network::Mainnet)
    } else if id == 11155111 {
        Some(Network::Sepolia)
    } else if id == 560048 {
        Some(Network::Hoodi)
    } else if id == 17000 {
        Some(Network::Holesky)
    } else {
        None
    }
}

/// Calls `Chain::from_id` and then `Chain::named` of `alloy_chains`, and
/// gives the named chain's name (`NamedChain::as_str`), or `None` for an id
/// the crate has no name for. In the crate's tables (`NamedChain::from_chain_id`,
/// `CHAIN_NAMES`) each named chain has a name of its own, and the ids 1,
/// 11155111, 560048 and 17000 are those named "mainnet", "sepolia", "hoodi"
/// and "holesky". What the other names are is not stated.
#[verifier::external_body]
fn chain_name(id: u64) -> (r: Option<String>)
    ensures
        (r matches Some(n) && n@ == "mainnet"@) <==> id == 1,
        (r matches Some(n) && n@ == "sepolia"@) <==> id == 11155111,
        (r matches Some(n) && n@ == "hoodi"@) <==> id == 560048,
        (r matches Some(n) && n@ == "holesky"@) <==> id == 17000,
{
    match Chain::from_id(id).named() {
        Some(named) => Some(named.as_str().to_owned()),
        None => None,
    }
}

/// The network a chain id belongs to, among the supported ones: the chain
/// the id is named after, when that is one of the four.
pub fn network_from_chain_id(id: u64) -> (r: Option<Network>)
    ensures
        r == network_of(id),
{
    match chain_name(id) {
        Some(name) => {
            if name == "mainnet".to_owned() {
                Some(Network::Mainnet)
            } else if name == "sepolia".to_owned() {
                Some(Network::Sepolia)
            } else if name == "hoodi".to_owned() {
                Some(Network::Hoodi)
            } else if name == "holesky".to_owned() {
                Some(Network::Holesky)
            } else {
                None
            }
        },
        None => None,
    }
}

/// The chain id of a supported network.
pub open spec fn chain_id_of(net: Network) -> u64 {
    match net {
        Network::Mainnet => 1,
        Network::Sepolia => 11155111,
        Network::Hoodi => 560048,
        Network::Holesky => 17000,
    }
}

/// The chain id of a supported network.
pub fn network_chain_id(net: Network) -> (r: u64)
    ensures
        r == chain_id_of(net),
        network_of(r) == Some(net),
{
    match net {
        Network::Mainnet => 1,
        Network::Sepolia => 11155111,
        Network::Hoodi => 560048,
        Network::Holesky => 17000,
    }
}

/// A chain id and the network found for it name each other.
pub proof fn lemma_network_chain_id_round_trip(id: u64)
    ensures
        network_of(id) matches Some(net) ==> chain_id_of(net) == id,
        forall|net: Network| network_of(#[trigger] chain_id_of(net)) == Some(net),
{
}

/// The RPC generator of blocks and witnesses, as configured; the RPC client
/// itself is held by the caller that performs the calls.
pub struct RpcFixtureGenerator {
    /// The network the node serves.
    pub network: Network,
    /// Fetch this many of the most recent blocks.
    pub last_n_blocks: Option<usize>,
    /// Fetch this one block.
    pub block: Option<u64>,
    /// Poll for new blocks until this token is cancelled.
    pub stop: Option<CancellationToken>,
}

/// What `generate` fetches.
#[derive(Debug, Clone, Copy, PartialEq, Eq, Structural)]
pub enum GenerateMode {
    /// The `n` most recent blocks.
    LastBlocks(usize),
    /// One block, by number.
    OneBlock(u64),
    /// Nothing: no fixtures.
    Nothing,
}

/// What `generate_to_path` does.
#[derive(Debug, Clone, Copy, PartialEq, Eq, Structural)]
pub enum PathMode {
    /// Generate the fixtures, write them all, and report how many there were.
    Batch,
    /// Poll for new blocks and write them as they come, until stopped.
    Live,
}

impl RpcFixtureGenerator {
    /// The fetch that the configuration chooses: the last `n` blocks take
    /// precedence over a single block.
    pub open spec fn chosen_mode(&self) -> GenerateMode {
        match self.last_n_blocks {
            Some(n) => GenerateMode::LastBlocks(n),
            None => match self.block {
                Some(b) => GenerateMode::OneBlock(b),
                None => GenerateMode::Nothing,
            },
        }
    }

    /// What `generate` fetches: live polling is refused, then the last `n`
    /// blocks take precedence over a single block.
    pub fn generate_mode(&self) -> (r: Result<GenerateMode, WGError>)
        ensures
            self.stop is Some ==> r matches Err(WGError::LivePollingNotSupported),
            self.stop is None ==> (r matches Ok(m) && m == self.chosen_mode()),
            self.stop is None ==> match self.last_n_blocks {
                Some(n) => r == Ok::<GenerateMode, WGError>(GenerateMode::LastBlocks(n)),
                None => match self.block {
                    Some(b) => r == Ok::<GenerateMode, WGError>(GenerateMode::OneBlock(b)),
                    None => r == Ok::<GenerateMode, WGError>(GenerateMode::Nothing),
                },
            },
    {
        if self.stop.is_some() {
            return Err(WGError::LivePollingNotSupported);
        }
        match self.last_n_blocks {
            Some(n) => Ok(GenerateMode::LastBlocks(n)),
            None => match self.block {
                Some(b) => Ok(GenerateMode::OneBlock(b)),
                None => Ok(GenerateMode::Nothing),
            },
        }
    }

    /// What `generate_to_path` does: a batch when blocks were chosen, live
    /// polling otherwise.
    pub fn path_mode(&self) -> (r: PathMode)
        ensures
            r == (if self.last_n_blocks is Some || self.block is Some {
                PathMode::Batch
            } else {
                PathMode::Live
            }),
    {
        if self.last_n_blocks.is_some() || self.block.is_some() {
            PathMode::Batch
        } else {
            PathMode::Live
        }
    }
}

/// What `generate` fetches, for every configuration without a stop token:
/// asked for the last `n` blocks, it fetches exactly those, whether or not a
/// single block is also set; asked only for a single block, it fetches that
/// block; asked for neither, nothing. Whatever the configuration, it fetches
/// the last blocks only when they were asked for, and a single block only
/// when it was asked for and the last blocks were not.
pub proof fn lemma_generate_mode(g: RpcFixtureGenerator)
    ensures
        g.last_n_blocks matches Some(n) ==> g.chosen_mode() == GenerateMode::LastBlocks(n),
        g.last_n_blocks is None ==> match g.block {
            Some(b) => g.chosen_mode() == GenerateMode::OneBlock(b),
            None => g.chosen_mode() == GenerateMode::Nothing,
        },
        g.chosen_mode() matches GenerateMode::LastBlocks(n) ==> g.last_n_blocks == Some(n),
        g.chosen_mode() matches GenerateMode::OneBlock(b) ==> g.last_n_blocks is None
            && g.block == Some(b),
{
}

} // verus!
