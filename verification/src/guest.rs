//! The benchmark inputs of the guest programs: which execution client
//! validates the blocks, and what each fixture is expected to output and is
//! reported with.
use crate::fetch::BlockHash;
use crate::text::{
    ascii_lower_seq, eq_ignore_ascii_case, eq_ignore_ascii_case_spec, push_char,
    to_ascii_lowercase,
};
use vstd::prelude::*;

verus! {

/// The execution clients whose stateless validator is benchmarked.
#[derive(Debug, Clone, Copy, PartialEq, Eq, Structural)]
pub enum ExecutionClient {
    /// The Reth stateless block validation guest program.
    Reth,
    /// The Ethrex stateless block validation guest program.
    Ethrex,
}

/// The name of an execution client.
pub open spec fn client_name(el: ExecutionClient) -> Seq<char> {
    match el {
        ExecutionClient::Reth => "Reth"@,
        ExecutionClient::Ethrex => "Ethrex"@,
    }
}

impl ExecutionClient {
    /// The client's name: "Reth" or "Ethrex".
    pub fn as_str(&self) -> (r: String)
        ensures
            r@ == client_name(*self),
    {
        match self {
            ExecutionClient::Reth => "Reth".to_owned(),
            ExecutionClient::Ethrex => "Ethrex".to_owned(),
        }
    }

    /// The client whose name this is, ignoring ASCII case.
    pub fn from_name(s: &str) -> (r: Option<Self>)
        ensures
            r == (if eq_ignore_ascii_case_spec(s@, "Reth"@) {
                Some(ExecutionClient::Reth)
            } else if eq_ignore_ascii_case_spec(s@, "Ethrex"@) {
                Some(ExecutionClient::Ethrex)
            } else {
                None
            }),
    {
        if eq_ignore_ascii_case(s, "Reth") {
            Some(ExecutionClient::Reth)
        } else if eq_ignore_ascii_case(s, "Ethrex") {
            Some(ExecutionClient::Ethrex)
        } else {
            None
        }
    }

    /// The sub-folder the client's reports go to: its name in lower case.
    pub fn sub_folder(&self) -> (r: String)
        ensures
            r@ == ascii_lower_seq(client_name(*self)),
    {
        let name = self.as_str();
        to_ascii_lowercase(name.as_str())
    }
}

/// Extra information about a benchmarked block.
#[derive(Debug, Clone, Copy, PartialEq, Eq, Structural)]
pub struct BlockMetadata {
    /// The gas the block used.
    pub block_used_gas: u64,
}

/// What the stateless validator guest program outputs for a block: its
/// hash, its parent's hash, and whether it is valid.
#[derive(Debug, Clone, Copy)]
pub struct ValidatorOutput {
    pub block_hash: BlockHash,
    pub parent_hash: BlockHash,
    pub success: bool,
}

/// What the input generation reads of a stateless validation fixture.
#[derive(Debug, Clone)]
pub struct BlockSummary {
    pub name: String,
    pub block_hash: BlockHash,
    pub parent_hash: BlockHash,
    pub gas_used: u64,
    pub success: bool,
}

/// A benchmark input of a stateless validator: the fixture's name, the
/// guest program, the expected output (compared by its SHA-256 digest), and
/// the metadata reported with it.
#[derive(Debug, Clone)]
pub struct ValidatorFixturePlan {
    pub name: String,
    pub client: ExecutionClient,
    pub expected: ValidatorOutput,
    pub output_sha256: bool,
    pub metadata: BlockMetadata,
}

/// Whether `p` is the benchmark input for fixture `b` on client `el`.
pub open spec fn plans_fixture(p: ValidatorFixturePlan, b: BlockSummary, el: ExecutionClient) -> bool {
    &&& p.name@ == b.name@
    &&& p.client == el
    &&& p.expected.block_hash == b.block_hash
    &&& p.expected.parent_hash == b.parent_hash
    &&& p.expected.success == b.success
    &&& p.output_sha256
    &&& p.metadata.block_used_gas == b.gas_used
}

/// The benchmark inputs of one client's stateless validator, one per
/// fixture, in order.
pub fn validator_inputs_from_fixtures(fixtures: &Vec<BlockSummary>, el: ExecutionClient) -> (r: Vec<
    ValidatorFixturePlan,
>)
    ensures
        r@.len() == fixtures@.len(),
        forall|i: int| 0 <= i < r@.len() ==> plans_fixture(#[trigger] r@[i], fixtures@[i], el),
{
    let mut out: Vec<ValidatorFixturePlan> = Vec::new();
    let mut i: usize = 0;
    while i < fixtures.len()
        invariant
            i <= fixtures@.len(),
            out@.len() == i,
            forall|k: int| 0 <= k < i ==> plans_fixture(#[trigger] out@[k], fixtures@[k], el),
        decreases fixtures@.len() - i,
    {
        let b = &fixtures[i];
        out.push(
            ValidatorFixturePlan {
                name: b.name.clone(),
                client: el,
                expected: ValidatorOutput {
                    block_hash: b.block_hash,
                    parent_hash: b.parent_hash,
                    success: b.success,
                },
                output_sha256: true,
                metadata: BlockMetadata { block_used_gas: b.gas_used },
            },
        );
        i = i + 1;
    }
    out
}

/// The benchmark inputs of the Reth stateless validator.
pub fn reth_inputs_from_fixture(fixtures: &Vec<BlockSummary>) -> (r: Vec<ValidatorFixturePlan>)
    ensures
        r@.len() == fixtures@.len(),
        forall|i: int|
            0 <= i < r@.len() ==> plans_fixture(#[trigger] r@[i], fixtures@[i], ExecutionClient::Reth),
{
    validator_inputs_from_fixtures(fixtures, ExecutionClient::Reth)
}

/// The benchmark inputs of the Ethrex stateless validator.
pub fn ethrex_inputs_from_fixture(fixtures: &Vec<BlockSummary>) -> (r: Vec<ValidatorFixturePlan>)
    ensures
        r@.len() == fixtures@.len(),
        forall|i: int|
            0 <= i < r@.len() ==> plans_fixture(
                #[trigger] r@[i],
                fixtures@[i],
                ExecutionClient::Ethrex,
            ),
{
    validator_inputs_from_fixtures(fixtures, ExecutionClient::Ethrex)
}

/// The benchmark inputs of the stateless validator of `el`, from the
/// fixtures read from the input folder (or the reason they could not be
/// read, which is passed on).
pub fn stateless_validator_inputs(read: Result<Vec<BlockSummary>, String>, el: ExecutionClient) -> (r:
    Result<Vec<ValidatorFixturePlan>, String>)
    ensures
        match read {
            Err(m) => r matches Err(e) && e@ == m@,
            Ok(fixtures) => r matches Ok(plans) && plans@.len() == fixtures@.len() && forall|i: int|
                0 <= i < plans@.len() ==> plans_fixture(#[trigger] plans@[i], fixtures@[i], el),
        },
{
    match read {
        Err(m) => Err(m),
        Ok(fixtures) => match el {
            ExecutionClient::Reth => Ok(reth_inputs_from_fixture(&fixtures)),
            ExecutionClient::Ethrex => Ok(ethrex_inputs_from_fixture(&fixtures)),
        },
    }
}

// ---------------------------------------------------------------------------
// Block encoding length
// ---------------------------------------------------------------------------
/// The lower-case hexadecimal digit for `d < 16`.
pub open spec fn hex_digit(d: nat) -> char {
    if d < 10 {
        ((d + 48) as u32) as char
    } else {
        ((d + 87) as u32) as char
    }
}

/// The lower-case hexadecimal form of `bytes`, two digits per byte.
pub open spec fn hex_of(bytes: Seq<u8>) -> Seq<char>
    decreases bytes.len(),
{
    if bytes.len() == 0 {
        Seq::empty()
    } else {
        hex_of(bytes.drop_last()).push(hex_digit((bytes.last() / 16) as nat)).push(
            hex_digit((bytes.last() % 16) as nat),
        )
    }
}

fn hex_digit_char(d: u8) -> (c: char)
    requires
        d < 16,
    ensures
        c == hex_digit(d as nat),
{
    if d < 10 {
        (d + 48) as char
    } else {
        (d + 87) as char
    }
}

/// A block hash as a string: "0x" and its 64 lower-case hex digits.
pub fn hash_hex(hash: &BlockHash) -> (r: String)
    ensures
        r@ == "0x"@ + hex_of(hash@),
{
    let mut r = "0x".to_owned();
    let ghost start = r@;
    let mut i: usize = 0;
    while i < 32
        invariant
            i <= 32,
            hash@.len() == 32,
            r@ == start + hex_of(hash@.subrange(0, i as int)),
        decreases 32 - i,
    {
        let b = hash[i];
        push_char(&mut r, hex_digit_char(b / 16));
        push_char(&mut r, hex_digit_char(b % 16));
        proof {
            assert(hash@.subrange(0, i + 1).drop_last() =~= hash@.subrange(0, i as int));
            assert(hash@.subrange(0, i + 1).last() == b);
        }
        i = i + 1;
    }
    assert(hash@.subrange(0, 32) =~= hash@);
    r
}

/// Metadata of a block encoding length benchmark.
#[derive(Debug, Clone)]
pub struct BlockEncodingLengthMetadata {
    /// The encoding format's name.
    pub format: String,
    /// The block's hash, as "0x" and hex digits.
    pub block_hash: String,
    /// How many times the encoding length is computed.
    pub loop_count: u16,
}

/// The metadata of a block encoding length benchmark of a block.
pub fn block_encoding_length_metadata(format: &str, hash: &BlockHash, loop_count: u16) -> (r:
    BlockEncodingLengthMetadata)
    ensures
        r.format@ == format@,
        r.block_hash@ == "0x"@ + hex_of(hash@),
        r.loop_count == loop_count,
{
    BlockEncodingLengthMetadata { format: format.to_owned(), block_hash: hash_hex(hash), loop_count }
}

/// The block encoding length benchmark inputs: one per fixture read (or the
/// reason they could not be read), named after the fixture.
pub fn block_encoding_length_inputs(
    read: Result<Vec<BlockSummary>, String>,
    format: &str,
    loop_count: u16,
) -> (r: Result<Vec<(String, BlockEncodingLengthMetadata)>, String>)
    ensures
        match read {
            Err(m) => r matches Err(e) && e@ == m@,
            Ok(fixtures) => r matches Ok(inputs) && inputs@.len() == fixtures@.len() && forall|
                i: int,
            |
                0 <= i < inputs@.len() ==> {
                    let (name, meta) = #[trigger] inputs@[i];
                    &&& name@ == fixtures@[i].name@
                    &&& meta.format@ == format@
                    &&& meta.block_hash@ == "0x"@ + hex_of(fixtures@[i].block_hash@)
                    &&& meta.loop_count == loop_count
                },
        },
{
    match read {
        Err(m) => Err(m),
        Ok(fixtures) => {
            let mut out: Vec<(String, BlockEncodingLengthMetadata)> = Vec::new();
            let mut i: usize = 0;
            while i < fixtures.len()
                invariant
                    i <= fixtures@.len(),
                    out@.len() == i,
                    forall|k: int|
                        0 <= k < i ==> {
                            let (name, meta) = #[trigger] out@[k];
                            &&& name@ == fixtures@[k].name@
                            &&& meta.format@ == format@
                            &&& meta.block_hash@ == "0x"@ + hex_of(fixtures@[k].block_hash@)
                            &&& meta.loop_count == loop_count
                        },
                decreases fixtures@.len() - i,
            {
                let b = &fixtures[i];
                let meta = block_encoding_length_metadata(format, &b.block_hash, loop_count);
                out.push((b.name.clone(), meta));
                i = i + 1;
            }
            Ok(out)
        },
    }
}

/// The empty program's benchmark input: named "empty_program", with no
/// input and no expected public values.
#[derive(Debug, Clone)]
pub struct EmptyProgramFixture {
    pub name: String,
    pub expected_public_values: Vec<u8>,
}

/// The empty program's benchmark input.
pub fn empty_program_input() -> (r: EmptyProgramFixture)
    ensures
        r.name@ == "empty_program"@,
        r.expected_public_values@.len() == 0,
{
    EmptyProgramFixture { name: "empty_program".to_owned(), expected_public_values: Vec::new() }
}


/// An execution client is found again from its name, whatever its ASCII
/// case.
pub proof fn lemma_client_name_round_trip(el: ExecutionClient)
    ensures
        (if eq_ignore_ascii_case_spec(client_name(el), "Reth"@) {
            Some(ExecutionClient::Reth)
        } else if eq_ignore_ascii_case_spec(client_name(el), "Ethrex"@) {
            Some(ExecutionClient::Ethrex)
        } else {
            None
        }) == Some(el),
        forall|s: Seq<char>|
            eq_ignore_ascii_case_spec(s, client_name(el)) ==> eq_ignore_ascii_case_spec(
                ascii_lower_seq(s),
                client_name(el),
            ),
{
    reveal_strlit("Reth");
    reveal_strlit("Ethrex");
    if el == ExecutionClient::Ethrex {
        assert(ascii_lower_seq("Ethrex"@).len() != ascii_lower_seq("Reth"@).len());
    }
    assert forall|s: Seq<char>| eq_ignore_ascii_case_spec(s, client_name(el)) implies eq_ignore_ascii_case_spec(
        ascii_lower_seq(s),
        client_name(el),
    ) by {
        assert(ascii_lower_seq(ascii_lower_seq(s)) =~= ascii_lower_seq(s)) by {
            assert forall|i: int| 0 <= i < s.len() implies #[trigger] crate::text::ascii_lower(
                crate::text::ascii_lower(s[i]),
            ) == crate::text::ascii_lower(s[i]) by {
                let c = s[i];
                if 'A' <= c && c <= 'Z' {
                    assert(((c as u32) + 32) as char as u32 == (c as u32) + 32);
                }
            }
        }
    }
}

} // verus!
