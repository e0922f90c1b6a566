//! Stateless validation fixtures, their names and files, and the two ways of
//! writing a batch of them: stopping at the first failure, or skipping the
//! failures and counting what was written.
use crate::error::WGError;
use crate::text::{concat_str, decimal, decimal_string};
use vstd::prelude::*;

verus! {

/// A fixture: something with a name, tied to a block.
pub trait Fixture {
    /// The fixture's name, as characters.
    spec fn name_view(&self) -> Seq<char>;

    /// The number of the fixture's block.
    spec fn block_number_view(&self) -> u64;

    /// The unique name of the fixture.
    fn name(&self) -> (r: &str)
        ensures
            r@ == self.name_view(),
    ;

    /// The number of the fixture's block.
    fn block_number(&self) -> (r: u64)
        ensures
            r == self.block_number_view(),
    ;
}

/// A stateless validation fixture: a named block with its witness and chain
/// configuration (the stateless input, held in its JSON form), and whether
/// validating it succeeds.
#[derive(Debug, Clone)]
pub struct StatelessValidationFixture {
    /// The name of the test case or block.
    pub name: String,
    /// The number of the block in the stateless input.
    pub block: u64,
    /// The stateless input, as JSON.
    pub stateless_input: String,
    /// Whether the stateless validation of the block succeeds.
    pub success: bool,
}

impl StatelessValidationFixture {
    /// A fixture for a valid block, from its stateless input and a name.
    pub fn from_stateless_input(input: &String, block: u64, name: &str) -> (r: Self)
        ensures
            r.name@ == name@,
            r.stateless_input@ == input@,
            r.block == block,
            r.success,
    {
        StatelessValidationFixture {
            name: name.to_owned(),
            block,
            stateless_input: input.clone(),
            success: true,
        }
    }
}

impl Fixture for StatelessValidationFixture {
    open spec fn name_view(&self) -> Seq<char> {
        self.name@
    }

    open spec fn block_number_view(&self) -> u64 {
        self.block
    }

    fn name(&self) -> (r: &str) {
        self.name.as_str()
    }

    fn block_number(&self) -> (r: u64) {
        self.block
    }
}

/// The name of the fixture for block `n` fetched over RPC.
pub open spec fn rpc_fixture_name_spec(n: u64) -> Seq<char> {
    "rpc_block_"@ + decimal(n as nat)
}

/// The name of the fixture for block `n` fetched over RPC:
/// `rpc_block_<n>`.
pub fn rpc_fixture_name(n: u64) -> (r: String)
    ensures
        r@ == rpc_fixture_name_spec(n),
{
    let digits = decimal_string(n);
    concat_str("rpc_block_", digits.as_str())
}

/// The file a fixture is written to, inside the output directory.
pub open spec fn fixture_file_name_spec(name: Seq<char>) -> Seq<char> {
    name + ".json"@
}

/// The file a fixture is written to: its name with `.json` appended.
pub fn fixture_file_name(name: &str) -> (r: String)
    ensures
        r@ == fixture_file_name_spec(name@),
{
    concat_str(name, ".json")
}

/// `rel` joined to the directory `base`, as `Path::join` does for a relative
/// path: a separator is put between them unless `base` is empty or already
/// ends with one.
pub open spec fn path_join_spec(base: Seq<char>, rel: Seq<char>) -> Seq<char> {
    if base.len() == 0 {
        rel
    } else if base.last() == '/' {
        base + rel
    } else {
        base + "/"@ + rel
    }
}

/// `rel` joined to the directory `base` (`rel` being relative).
pub fn path_join(base: &str, rel: &str) -> (r: String)
    ensures
        r@ == path_join_spec(base@, rel@),
{
    let b = crate::text::chars_of(base);
    if b.len() == 0 {
        rel.to_owned()
    } else if b[b.len() - 1] == '/' {
        concat_str(base, rel)
    } else {
        let with_sep = concat_str(base, "/");
        let r = concat_str(with_sep.as_str(), rel);
        r
    }
}

/// How writing one fixture went.
pub enum SaveAttempt {
    /// The fixture was written.
    Written,
    /// The fixture could not be serialised; the message says why.
    SerializeFailed(String),
    /// The serialised fixture could not be written; the message says why.
    WriteFailed(String),
}

/// One attempt to write a fixture: its name, the file, and how it went.
pub struct SaveRecord {
    pub name: String,
    pub path: String,
    pub attempt: SaveAttempt,
}

/// Whether the attempt wrote the fixture.
pub open spec fn written(r: SaveRecord) -> bool {
    r.attempt is Written
}

/// The number of records whose fixture was written.
pub open spec fn written_count(records: Seq<SaveRecord>) -> nat
    decreases records.len(),
{
    if records.len() == 0 {
        0
    } else {
        written_count(records.drop_last()) + if written(records.last()) {
            1nat
        } else {
            0nat
        }
    }
}

/// Whether `e` is the error a failed attempt is reported with.
pub open spec fn save_error(r: SaveRecord, e: WGError) -> bool {
    match r.attempt {
        SaveAttempt::SerializeFailed(m) => e matches WGError::FixtureSerializationError {
            name,
            source,
        } && name@ == r.name@ && source@ == m@,
        SaveAttempt::WriteFailed(m) => e matches WGError::FixtureWriteError { path, source }
            && path@ == r.path@ && source@ == m@,
        SaveAttempt::Written => false,
    }
}

proof fn lemma_written_count_bound(records: Seq<SaveRecord>)
    ensures
        written_count(records) <= records.len(),
        written_count(records) == records.len() <==> forall|i: int|
            0 <= i < records.len() ==> written(#[trigger] records[i]),
    decreases records.len(),
{
    if records.len() > 0 {
        lemma_written_count_bound(records.drop_last());
        if written_count(records) == records.len() {
            assert forall|i: int| 0 <= i < records.len() implies written(#[trigger] records[i]) by {
                if i < records.len() - 1 {
                    assert(records[i] == records.drop_last()[i]);
                }
            }
        }
        if forall|i: int| 0 <= i < records.len() ==> written(#[trigger] records[i]) {
            assert forall|i: int| 0 <= i < records.drop_last().len() implies written(
                #[trigger] records.drop_last()[i],
            ) by {
                assert(records[i] == records.drop_last()[i]);
            }
            assert(written(records[records.len() - 1]));
        }
    }
}

/// Writing a batch while skipping failures: how many fixtures were written.
pub fn count_written(records: &Vec<SaveRecord>) -> (r: usize)
    ensures
        r == written_count(records@),
{
    let mut count: usize = 0;
    let mut i: usize = 0;
    while i < records.len()
        invariant
            i <= records@.len(),
            count == written_count(records@.subrange(0, i as int)),
            count <= i,
        decreases records@.len() - i,
    {
        proof {
            assert(records@.subrange(0, i + 1).drop_last() =~= records@.subrange(0, i as int));
        }
        match records[i].attempt {
            SaveAttempt::Written => {
                count = count + 1;
            },
            _ => {},
        }
        i = i + 1;
    }
    assert(records@.subrange(0, records@.len() as int) =~= records@);
    count
}

/// Whether writing a batch of `total` fixtures that stops at the first
/// failure goes on after the attempts in `records`: while fixtures are left
/// and every attempt so far wrote its fixture.
pub fn save_goes_on(records: &Vec<SaveRecord>, total: usize) -> (r: bool)
    ensures
        r == (records@.len() < total && forall|i: int|
            0 <= i < records@.len() ==> written(#[trigger] records@[i])),
{
    if records.len() >= total {
        return false;
    }
    let mut i: usize = 0;
    while i < records.len()
        invariant
            i <= records@.len(),
            forall|j: int| 0 <= j < i ==> written(#[trigger] records@[j]),
        decreases records@.len() - i,
    {
        match records[i].attempt {
            SaveAttempt::Written => {},
            _ => {
                return false;
            },
        }
        i = i + 1;
    }
    true
}

/// Writing a batch that stops at the first failure: the number of fixtures
/// written when all were, otherwise the error of the first that failed.
pub fn strict_save_count(records: &Vec<SaveRecord>) -> (r: Result<usize, WGError>)
    ensures
        match r {
            Ok(n) => n == records@.len() && forall|i: int|
                0 <= i < records@.len() ==> written(#[trigger] records@[i]),
            Err(e) => exists|i: int|
                0 <= i < records@.len() && !written(records@[i]) && save_error(records@[i], e)
                    && forall|j: int| 0 <= j < i ==> written(#[trigger] records@[j]),
        },
{
    let mut i: usize = 0;
    while i < records.len()
        invariant
            i <= records@.len(),
            forall|j: int| 0 <= j < i ==> written(#[trigger] records@[j]),
        decreases records@.len() - i,
    {
        let rec = &records[i];
        match &rec.attempt {
            SaveAttempt::Written => {},
            SaveAttempt::SerializeFailed(m) => {
                let e = WGError::FixtureSerializationError {
                    name: rec.name.clone(),
                    source: m.clone(),
                };
                assert(save_error(records@[i as int], e));
                return Err(e);
            },
            SaveAttempt::WriteFailed(m) => {
                let e = WGError::FixtureWriteError { path: rec.path.clone(), source: m.clone() };
                assert(save_error(records@[i as int], e));
                return Err(e);
            },
        }
        i = i + 1;
    }
    Ok(records.len())
}

/// The two ways of writing a batch agree: stopping at the first failure
/// succeeds exactly when skipping failures writes every fixture, and then
/// both report the size of the batch.
pub proof fn lemma_strict_and_lenient_saves_agree(records: Seq<SaveRecord>)
    ensures
        written_count(records) <= records.len(),
        (forall|i: int| 0 <= i < records.len() ==> written(#[trigger] records[i]))
            <==> written_count(records) == records.len(),
{
    lemma_written_count_bound(records);
}


/// Fixtures of different blocks fetched over RPC get different names, so
/// their files never overwrite each other.
pub proof fn lemma_rpc_fixture_names_distinct(a: u64, b: u64)
    requires
        a != b,
    ensures
        rpc_fixture_name_spec(a) != rpc_fixture_name_spec(b),
        fixture_file_name_spec(rpc_fixture_name_spec(a)) != fixture_file_name_spec(
            rpc_fixture_name_spec(b),
        ),
{
    let p = "rpc_block_"@;
    if rpc_fixture_name_spec(a) == rpc_fixture_name_spec(b) {
        assert(decimal(a as nat) =~= rpc_fixture_name_spec(a).subrange(p.len() as int, rpc_fixture_name_spec(a).len() as int));
        assert(decimal(b as nat) =~= rpc_fixture_name_spec(b).subrange(p.len() as int, rpc_fixture_name_spec(b).len() as int));
        crate::text::lemma_decimal_injective(a as nat, b as nat);
    }
    let ja = fixture_file_name_spec(rpc_fixture_name_spec(a));
    let jb = fixture_file_name_spec(rpc_fixture_name_spec(b));
    if ja == jb {
        let s = ".json"@;
        assert(rpc_fixture_name_spec(a) =~= ja.subrange(0, ja.len() - s.len()));
        assert(rpc_fixture_name_spec(b) =~= jb.subrange(0, jb.len() - s.len()));
    }
}

} // verus!
