use zkevm_bench::eest::{
    download_script, eest_fixture, has_extension, target_block, EESTFixtureGeneratorBuilder,
    FolderProbe, ScriptExit,
};
use zkevm_bench::error::WGError;

fn probe(exists: bool, is_dir: bool, canonical: Result<String, String>) -> FolderProbe {
    FolderProbe { path: "fixtures".to_string(), exists, is_dir, canonical }
}

#[test]
fn input_folder_must_exist_and_be_a_directory() {
    let b = EESTFixtureGeneratorBuilder::new();
    match b.clone().with_input_folder(probe(false, false, Ok("/x".to_string()))) {
        Err(WGError::EestPathNotFound(p)) => assert_eq!(p, "fixtures"),
        other => panic!("unexpected {other:?}"),
    }
    match b.clone().with_input_folder(probe(true, false, Ok("/x".to_string()))) {
        Err(WGError::EestPathNotDirectory(p)) => assert_eq!(p, "fixtures"),
        other => panic!("unexpected {other:?}"),
    }
    assert!(matches!(
        b.clone().with_input_folder(probe(true, true, Err("denied".to_string()))),
        Err(WGError::Other(m)) if m == "denied"
    ));
    let ok = b.with_input_folder(probe(true, true, Ok("/abs/fixtures".to_string()))).unwrap();
    assert_eq!(ok.input_folder, Some("/abs/fixtures".to_string()));
}

#[test]
fn local_folder_is_kept_and_not_downloaded() {
    let b = EESTFixtureGeneratorBuilder::new()
        .with_tag("v1".to_string())
        .with_input_folder(probe(true, true, Ok("/abs".to_string())))
        .unwrap()
        .with_includes(vec!["Prague".to_string()]);
    assert_eq!(b.download_args(), None);
    let g = b.build(None).unwrap();
    assert_eq!(g.eest_fixtures, "/abs");
    assert!(!g.delete_eest_fixtures);
    assert_eq!(g.filter_include, vec!["Prague".to_string()]);
    assert!(g.filter_exclude.is_empty());
    assert_eq!(g.suite_path(), "/abs/fixtures/blockchain_tests");
    assert!(!g.removes_on_drop(true));
}

#[test]
fn downloaded_folder_is_removed_on_drop() {
    let b = EESTFixtureGeneratorBuilder::new().with_tag("v5.0.0".to_string());
    assert_eq!(b.download_args(), Some(vec!["v5.0.0".to_string()]));
    assert_eq!(download_script(), "./scripts/download-and-extract-fixtures.sh");
    let g = b.build(Some(Ok(ScriptExit { success: true, stderr: String::new() }))).unwrap();
    assert_eq!(g.eest_fixtures, "./zkevm-fixtures");
    assert!(g.delete_eest_fixtures);
    assert!(g.removes_on_drop(true));
    assert!(!g.removes_on_drop(false));
    assert_eq!(g.suite_path(), "./zkevm-fixtures/fixtures/blockchain_tests");
    assert_eq!(EESTFixtureGeneratorBuilder::new().download_args(), Some(vec![]));
}

#[test]
fn failed_download_is_an_error() {
    let b = EESTFixtureGeneratorBuilder::new();
    match b.clone().build(Some(Ok(ScriptExit { success: false, stderr: "404".to_string() }))) {
        Err(WGError::DownloadScriptFailed(m)) => assert_eq!(m, "404"),
        other => panic!("unexpected {other:?}"),
    }
    assert!(matches!(b.build(Some(Err("not found".to_string()))), Err(WGError::Other(_))));
}

#[test]
fn missing_suite_names_its_path() {
    let g = EESTFixtureGeneratorBuilder::new()
        .build(Some(Ok(ScriptExit { success: true, stderr: String::new() })))
        .unwrap();
    match g.missing_suite() {
        WGError::TestSuitePathNotFound(p) => assert_eq!(p, "./zkevm-fixtures/fixtures/blockchain_tests"),
        other => panic!("unexpected {other:?}"),
    }
}

#[test]
fn tests_are_selected_by_their_short_name() {
    let g = EESTFixtureGeneratorBuilder::new()
        .with_includes(vec!["10M-".to_string(), "Prague".to_string()])
        .with_excludes(vec!["slow".to_string()])
        .build(Some(Ok(ScriptExit { success: true, stderr: String::new() })))
        .unwrap();
    assert_eq!(g.select_test("tests/prague/test_10M-gas_Prague"), Some("test_10M-gas_Prague".to_string()));
    // one include filter is enough
    assert_eq!(g.select_test("tests/prague/test_10M-gas_Cancun"), Some("test_10M-gas_Cancun".to_string()));
    assert_eq!(g.select_test("tests/prague/foo_Prague"), Some("foo_Prague".to_string()));
    assert_eq!(g.select_test("tests/cancun/test_1M-gas_Cancun"), None);
    // an exclude filter wins over the include filters
    assert_eq!(g.select_test("tests/prague/test_10M-slow_Prague"), None);
    // only the short name counts
    assert_eq!(g.select_test("10M-/Prague/other"), None);
}

#[test]
fn no_filters_select_every_test() {
    let g = EESTFixtureGeneratorBuilder::new()
        .build(Some(Ok(ScriptExit { success: true, stderr: String::new() })))
        .unwrap();
    assert_eq!(g.select_test("a/b/anything"), Some("anything".to_string()));
    assert_eq!(g.select_test("plain"), Some("plain".to_string()));
}

#[test]
fn json_files_are_found_by_extension() {
    assert!(has_extension("ModExp.json", ".json"));
    assert!(!has_extension("README.md", ".json"));
}

#[test]
fn the_last_block_of_a_run_is_the_target() {
    assert_eq!(target_block("t", Ok(3)).unwrap(), 2);
    assert_eq!(target_block("t", Ok(1)).unwrap(), 0);
    match target_block("case_a", Ok(0)) {
        Err(WGError::NoTargetBlock(n)) => assert_eq!(n, "case_a"),
        other => panic!("unexpected {other:?}"),
    }
    match target_block("t", Err("invalid block".to_string())) {
        Err(WGError::TestCaseExecutionError { source }) => assert_eq!(source, "invalid block"),
        other => panic!("unexpected {other:?}"),
    }
}

#[test]
fn an_eest_fixture_is_valid_unless_an_exception_is_expected() {
    let f = eest_fixture("case_a", 7, &"{}".to_string(), false);
    assert_eq!(f.name, "case_a");
    assert_eq!(f.block, 7);
    assert_eq!(f.stateless_input, "{}");
    assert!(f.success);
    assert!(!eest_fixture("case_b", 7, &"{}".to_string(), true).success);
}
