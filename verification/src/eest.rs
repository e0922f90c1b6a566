//! The generator of fixtures from Ethereum execution-spec-test (EEST)
//! blockchain tests: where the tests come from, and which of them are used.
use crate::error::WGError;
use crate::fixture::{path_join, path_join_spec, StatelessValidationFixture};
use crate::text::{after_last, after_last_spec, contains_spec, ends_with_spec, str_contains, str_ends_with};
use vstd::prelude::*;

verus! {

/// The folder the download script unpacks the EEST fixtures into.
pub open spec fn temp_fixtures_path() -> Seq<char> {
    "./zkevm-fixtures"@
}

/// The script that downloads and unpacks the EEST fixtures.
pub open spec fn download_script_path() -> Seq<char> {
    "./scripts/download-and-extract-fixtures.sh"@
}

/// The script that downloads and unpacks the EEST fixtures.
pub fn download_script() -> (r: String)
    ensures
        r@ == download_script_path(),
{
    "./scripts/download-and-extract-fixtures.sh".to_owned()
}

/// What the file system says of a folder given as the EEST input folder: its
/// displayed path, whether it exists, whether it is a directory, and its
/// canonical form (or why that could not be had).
pub struct FolderProbe {
    pub path: String,
    pub exists: bool,
    pub is_dir: bool,
    pub canonical: Result<String, String>,
}

/// How the download script ended: whether it succeeded, and its standard
/// error as text.
pub struct ScriptExit {
    pub success: bool,
    pub stderr: String,
}

/// Builder of the EEST fixture generator.
#[derive(Debug, Clone, Default)]
pub struct EESTFixtureGeneratorBuilder {
    pub input_folder: Option<String>,
    pub tag: Option<String>,
    pub includes: Option<Vec<String>>,
    pub excludes: Option<Vec<String>>,
}

/// The EEST fixture generator: where the fixtures are, which tests to use,
/// and whether the folder is removed when the generator is dropped.
#[derive(Debug, Clone)]
pub struct EESTFixtureGenerator {
    pub eest_fixtures: String,
    pub filter_include: Vec<String>,
    pub filter_exclude: Vec<String>,
    pub delete_eest_fixtures: bool,
}

/// The strings of `v` as character sequences.
pub open spec fn views(v: Seq<String>) -> Seq<Seq<char>> {
    v.map_values(|s: String| s@)
}

impl EESTFixtureGeneratorBuilder {
    /// An empty builder: download the latest fixtures, use every test.
    pub fn new() -> (r: Self)
        ensures
            r.input_folder is None,
            r.tag is None,
            r.includes is None,
            r.excludes is None,
    {
        EESTFixtureGeneratorBuilder { input_folder: None, tag: None, includes: None, excludes: None }
    }

    /// Downloads the fixtures of the given version tag.
    pub fn with_tag(self, tag: String) -> (r: Self)
        ensures
            r.tag == Some(tag),
            r.input_folder == self.input_folder,
            r.includes == self.includes,
            r.excludes == self.excludes,
    {
        Self { tag: Some(tag), ..self }
    }

    /// Uses fixtures already present in a local folder instead of downloading
    /// them. The folder must exist and be a directory; its canonical path is
    /// kept.
    pub fn with_input_folder(self, probe: FolderProbe) -> (r: Result<Self, WGError>)
        ensures
            !probe.exists ==> (r matches Err(WGError::EestPathNotFound(p)) && p@ == probe.path@),
            probe.exists && !probe.is_dir ==> (r matches Err(WGError::EestPathNotDirectory(p))
                && p@ == probe.path@),
            probe.exists && probe.is_dir ==> match probe.canonical {
                Err(m) => r matches Err(WGError::Other(e)) && e@ == m@,
                Ok(c) => r matches Ok(b) && b.input_folder == Some(c) && b.tag == self.tag
                    && b.includes == self.includes && b.excludes == self.excludes,
            },
    {
        if !probe.exists {
            return Err(WGError::EestPathNotFound(probe.path));
        }
        if !probe.is_dir {
            return Err(WGError::EestPathNotDirectory(probe.path));
        }
        match probe.canonical {
            Err(m) => Err(WGError::Other(m)),
            Ok(c) => Ok(Self { input_folder: Some(c), ..self }),
        }
    }

    /// Uses only the tests whose name contains at least one of these strings.
    pub fn with_includes(self, includes: Vec<String>) -> (r: Self)
        ensures
            r.includes == Some(includes),
            r.input_folder == self.input_folder,
            r.tag == self.tag,
            r.excludes == self.excludes,
    {
        Self { includes: Some(includes), ..self }
    }

    /// Leaves out the tests whose name contains any of these strings.
    pub fn with_excludes(self, excludes: Vec<String>) -> (r: Self)
        ensures
            r.excludes == Some(excludes),
            r.input_folder == self.input_folder,
            r.tag == self.tag,
            r.includes == self.includes,
    {
        Self { excludes: Some(excludes), ..self }
    }

    /// The arguments to run the download script with, or `None` when a
    /// local folder was given and nothing is to be downloaded.
    pub fn download_args(&self) -> (r: Option<Vec<String>>)
        ensures
            self.input_folder is Some ==> r is None,
            self.input_folder is None ==> (r matches Some(args) && args@ == match self.tag {
                Some(t) => seq![t],
                None => Seq::<String>::empty(),
            }),
    {
        if self.input_folder.is_some() {
            return None;
        }
        let mut args: Vec<String> = Vec::new();
        match &self.tag {
            Some(t) => {
                args.push(t.clone());
                assert(args@ =~= seq![*t]);
            },
            None => {
                assert(args@ =~= Seq::<String>::empty());
            },
        }
        Some(args)
    }

    /// Builds the generator. With a local folder, that folder is used and
    /// kept; otherwise `download` says how running the download script went
    /// (or why it could not be run), and on success its folder is used and
    /// removed again when the generator is dropped.
    pub fn build(self, download: Option<Result<ScriptExit, String>>) -> (r: Result<
        EESTFixtureGenerator,
        WGError,
    >)
        requires
            self.input_folder is None ==> download is Some,
        ensures
            self.input_folder matches Some(f) ==> (r matches Ok(g) && g.eest_fixtures == f
                && !g.delete_eest_fixtures && g.filter_include@ == self.include_filters()
                && g.filter_exclude@ == self.exclude_filters()),
            self.input_folder is None ==> match download {
                Some(Err(m)) => r matches Err(WGError::Other(e)) && e@ == m@,
                Some(Ok(exit)) => if exit.success {
                    r matches Ok(g) && g.eest_fixtures@ == temp_fixtures_path()
                        && g.delete_eest_fixtures && g.filter_include@ == self.include_filters()
                        && g.filter_exclude@ == self.exclude_filters()
                } else {
                    r matches Err(WGError::DownloadScriptFailed(e)) && e@ == exit.stderr@
                },
                None => true,
            },
    {
        let includes = match self.includes {
            Some(v) => v,
            None => Vec::new(),
        };
        let excludes = match self.excludes {
            Some(v) => v,
            None => Vec::new(),
        };
        match self.input_folder {
            Some(folder) => Ok(
                EESTFixtureGenerator {
                    eest_fixtures: folder,
                    filter_include: includes,
                    filter_exclude: excludes,
                    delete_eest_fixtures: false,
                },
            ),
            None => match download {
                Some(Err(m)) => Err(WGError::Other(m)),
                Some(Ok(exit)) => {
                    if !exit.success {
                        return Err(WGError::DownloadScriptFailed(exit.stderr));
                    }
                    Ok(
                        EESTFixtureGenerator {
                            eest_fixtures: "./zkevm-fixtures".to_owned(),
                            filter_include: includes,
                            filter_exclude: excludes,
                            delete_eest_fixtures: true,
                        },
                    )
                },
                None => {
                    // excluded by `requires`
                    Err(WGError::Other(String::new()))
                },
            },
        }
    }

    /// The include filters, none when unset.
    pub open spec fn include_filters(&self) -> Seq<String> {
        match self.includes {
            Some(v) => v@,
            None => Seq::empty(),
        }
    }

    /// The excludes filters, none when unset.
    pub open spec fn exclude_filters(&self) -> Seq<String> {
        match self.excludes {
            Some(v) => v@,
            None => Seq::empty(),
        }
    }
}

/// The test name that a fixture gets: the part of the full name after its
/// last '/'.
pub open spec fn short_test_name(full: Seq<char>) -> Seq<char> {
    after_last_spec(full, '/')
}

/// Whether a test (by its short name) is used: no excludes filter occurs in
/// it, and, when include filters are given, at least one of them does.
pub open spec fn test_selected(name: Seq<char>, includes: Seq<Seq<char>>, excludes: Seq<Seq<char>>) -> bool {
    &&& forall|i: int| 0 <= i < excludes.len() ==> !contains_spec(name, #[trigger] excludes[i])
    &&& (includes.len() == 0 || exists|i: int| 0 <= i < includes.len() && contains_spec(name, #[trigger] includes[i]))
}

/// Whether some filter of `filters` occurs in `name`.
fn any_occurs(name: &str, filters: &Vec<String>) -> (r: bool)
    ensures
        r == exists|i: int| 0 <= i < filters@.len() && contains_spec(name@, #[trigger] views(filters@)[i]),
{
    let mut i: usize = 0;
    while i < filters.len()
        invariant
            i <= filters@.len(),
            forall|j: int| 0 <= j < i ==> !contains_spec(name@, #[trigger] views(filters@)[j]),
        decreases filters@.len() - i,
    {
        if str_contains(name, filters[i].as_str()) {
            assert(contains_spec(name@, views(filters@)[i as int]));
            return true;
        }
        i = i + 1;
    }
    false
}

impl EESTFixtureGenerator {
    /// The folder of the blockchain tests inside the fixtures folder.
    pub open spec fn suite_path_spec(&self) -> Seq<char> {
        path_join_spec(self.eest_fixtures@, "fixtures/blockchain_tests"@)
    }

    /// The folder of the blockchain tests inside the fixtures folder.
    pub fn suite_path(&self) -> (r: String)
        ensures
            r@ == self.suite_path_spec(),
    {
        path_join(self.eest_fixtures.as_str(), "fixtures/blockchain_tests")
    }

    /// The error when the test suite folder is missing.
    pub fn missing_suite(&self) -> (r: WGError)
        ensures
            r matches WGError::TestSuitePathNotFound(p) && p@ == self.suite_path_spec(),
    {
        WGError::TestSuitePathNotFound(self.suite_path())
    }

    /// The name a test case of the suite is used under, or `None` when the
    /// filters leave it out. The name is the part after the last '/' of the
    /// full name; it is kept when no excludes filter occurs in it and, if
    /// include filters are given, one of them does.
    pub fn select_test(&self, full_name: &str) -> (r: Option<String>)
        ensures
            match r {
                Some(n) => n@ == short_test_name(full_name@) && test_selected(
                    n@,
                    views(self.filter_include@),
                    views(self.filter_exclude@),
                ),
                None => !test_selected(
                    short_test_name(full_name@),
                    views(self.filter_include@),
                    views(self.filter_exclude@),
                ),
            },
    {
        let name = after_last(full_name, '/');
        if any_occurs(name.as_str(), &self.filter_exclude) {
            return None;
        }
        if self.filter_include.len() > 0 && !any_occurs(name.as_str(), &self.filter_include) {
            return None;
        }
        Some(name)
    }

    /// Whether dropping the generator removes the fixtures folder: only a
    /// downloaded folder that still exists is removed.
    pub fn removes_on_drop(&self, folder_exists: bool) -> (r: bool)
        ensures
            r == (self.delete_eest_fixtures && folder_exists),
    {
        self.delete_eest_fixtures && folder_exists
    }
}

/// Whether a file name ends with the given extension (the test suite is
/// searched for files ending in `.json`).
pub fn has_extension(file_name: &str, extension: &str) -> (r: bool)
    ensures
        r == ends_with_spec(file_name@, extension@),
{
    str_ends_with(file_name, extension)
}


/// The block of a test case's run that becomes its fixture: the last block
/// the run yields. `run` is how many blocks the run yielded, or the message
/// of its failure, which is passed on; a run that yields no block has no
/// target.
pub fn target_block(name: &str, run: Result<usize, String>) -> (r: Result<usize, WGError>)
    ensures
        match run {
            Err(m) => r matches Err(WGError::TestCaseExecutionError { source }) && source@ == m@,
            Ok(n) => if n == 0 {
                r matches Err(WGError::NoTargetBlock(t)) && t@ == name@
            } else {
                r matches Ok(i) && i == n - 1
            },
        },
{
    match run {
        Err(m) => Err(WGError::TestCaseExecutionError { source: m }),
        Ok(n) => if n == 0 {
            Err(WGError::NoTargetBlock(name.to_owned()))
        } else {
            Ok(n - 1)
        },
    }
}

/// The fixture of a test case, from its target block (number and stateless
/// input as JSON): named after the test, and valid exactly when the test's
/// last block expects no exception.
pub fn eest_fixture(name: &str, block: u64, stateless_input: &String, expects_exception: bool) -> (r:
    StatelessValidationFixture)
    ensures
        r.name@ == name@,
        r.block == block,
        r.stateless_input@ == stateless_input@,
        r.success == !expects_exception,
{
    StatelessValidationFixture {
        name: name.to_owned(),
        block,
        stateless_input: stateless_input.clone(),
        success: !expects_exception,
    }
}

/// With no filters every test is used; a test in which some exclude filter
/// occurs is never used, whatever the other filters say; a test in which one
/// of the include filters occurs, and no exclude filter, is used; and adding
/// an include filter to a non-empty list never drops a test that was used.
pub proof fn lemma_filters(name: Seq<char>, includes: Seq<Seq<char>>, excluded: Seq<Seq<char>>, extra: Seq<char>)
    ensures
        test_selected(name, Seq::empty(), Seq::empty()),
        (exists|i: int| 0 <= i < excluded.len() && contains_spec(name, #[trigger] excluded[i]))
            ==> !test_selected(name, includes, excluded),
        (forall|i: int| 0 <= i < excluded.len() ==> !contains_spec(name, #[trigger] excluded[i]))
            && (exists|i: int| 0 <= i < includes.len() && contains_spec(name, #[trigger] includes[i]))
            ==> test_selected(name, includes, excluded),
        includes.len() > 0 && test_selected(name, includes, excluded) ==> test_selected(
            name,
            includes.push(extra),
            excluded,
        ),
{
    if includes.len() > 0 && test_selected(name, includes, excluded) {
        let i = choose|i: int| 0 <= i < includes.len() && contains_spec(name, #[trigger] includes[i]);
        assert(includes.push(extra)[i] == includes[i]);
    }
}

proof fn lemma_last_occurrence_exists(s: Seq<char>, c: char)
    requires
        exists|i: int| 0 <= i < s.len() && s[i] == c,
    ensures
        exists|i: int| 0 <= i < s.len() && s[i] == c && forall|j: int| i < j < s.len() ==> s[j] != c,
    decreases s.len(),
{
    if s.last() == c {
        assert(0 <= s.len() - 1 < s.len() && s[s.len() - 1] == c && forall|j: int|
            s.len() - 1 < j < s.len() ==> s[j] != c);
    } else {
        let t = s.drop_last();
        let k = choose|i: int| 0 <= i < s.len() && s[i] == c;
        assert(k < t.len() && t[k] == c);
        lemma_last_occurrence_exists(t, c);
        let w = choose|i: int| 0 <= i < t.len() && t[i] == c && forall|j: int| i < j < t.len() ==> t[j] != c;
        assert(s[w] == c);
        assert forall|j: int| w < j < s.len() implies s[j] != c by {
            if j < t.len() {
                assert(t[j] == s[j]);
            }
        }
    }
}

/// The name a test is used under is the part of its full name after the
/// last '/', whatever characters it holds: it ends the full name, holds no
/// '/', and is either the whole name or directly preceded by a '/'.
pub proof fn lemma_short_test_name(full: Seq<char>)
    ensures
        ({
            let short = short_test_name(full);
            &&& short.len() <= full.len()
            &&& full.subrange(full.len() - short.len(), full.len() as int) == short
            &&& forall|i: int| 0 <= i < short.len() ==> short[i] != '/'
            &&& short.len() < full.len() ==> full[full.len() - short.len() - 1] == '/'
        }),
{
    let short = short_test_name(full);
    if exists|i: int| 0 <= i < full.len() && full[i] == '/' {
        lemma_last_occurrence_exists(full, '/');
        let w = choose|i: int|
            0 <= i < full.len() && full[i] == '/' && forall|j: int| i < j < full.len() ==> full[j] != '/';
        assert(short == full.subrange(w + 1, full.len() as int));
        assert(full.subrange(full.len() - short.len(), full.len() as int) =~= short);
        assert forall|i: int| 0 <= i < short.len() implies short[i] != '/' by {
            assert(short[i] == full[w + 1 + i]);
        }
    } else {
        assert(short == full);
        assert(full.subrange(0, full.len() as int) =~= full);
    }
}

} // verus!
