use zkevm_bench::error::WGError;
use zkevm_bench::fixture::{
    count_written, fixture_file_name, path_join, rpc_fixture_name, strict_save_count, Fixture,
    save_goes_on, SaveAttempt, SaveRecord, StatelessValidationFixture,
};

#[test]
fn rpc_fixture_names() {
    assert_eq!(rpc_fixture_name(12), "rpc_block_12");
    assert_eq!(rpc_fixture_name(0), "rpc_block_0");
    assert_eq!(fixture_file_name(&rpc_fixture_name(21000000)), "rpc_block_21000000.json");
}

#[test]
fn path_join_like_std() {
    assert_eq!(path_join("out", "x.json"), "out/x.json");
    assert_eq!(path_join("out/", "x.json"), "out/x.json");
    assert_eq!(path_join("", "x.json"), "x.json");
    assert_eq!(path_join("out", ""), "out/");
    for (a, b) in [("out", "x"), ("out/", "x"), ("/", "y/z"), ("a/b", "")] {
        let expected = std::path::Path::new(a).join(b);
        assert_eq!(path_join(a, b), expected.to_str().unwrap());
    }
}

#[test]
fn fixture_from_stateless_input() {
    let f = StatelessValidationFixture::from_stateless_input(&"{}".to_string(), 42, "case_a");
    assert_eq!(f.name(), "case_a");
    assert_eq!(f.block_number(), 42);
    assert!(f.success);
    assert_eq!(f.stateless_input, "{}");
}

fn rec(name: &str, attempt: SaveAttempt) -> SaveRecord {
    SaveRecord { name: name.to_string(), path: format!("dir/{name}.json"), attempt }
}

#[test]
fn lenient_saving_counts_written_fixtures() {
    let records = vec![
        rec("a", SaveAttempt::Written),
        rec("b", SaveAttempt::SerializeFailed("bad".to_string())),
        rec("c", SaveAttempt::Written),
        rec("d", SaveAttempt::WriteFailed("disk full".to_string())),
    ];
    assert_eq!(count_written(&records), 2);
    assert_eq!(count_written(&vec![]), 0);
}

#[test]
fn strict_saving_stops_at_the_first_failure() {
    let all = vec![rec("a", SaveAttempt::Written), rec("b", SaveAttempt::Written)];
    assert_eq!(strict_save_count(&all).unwrap(), 2);
    assert_eq!(count_written(&all), 2);
    let failing = vec![
        rec("a", SaveAttempt::Written),
        rec("b", SaveAttempt::WriteFailed("disk full".to_string())),
        rec("c", SaveAttempt::SerializeFailed("bad".to_string())),
    ];
    match strict_save_count(&failing) {
        Err(WGError::FixtureWriteError { path, source }) => {
            assert_eq!(path, "dir/b.json");
            assert_eq!(source, "disk full");
        }
        other => panic!("unexpected {other:?}"),
    }
    let bad = vec![rec("x", SaveAttempt::SerializeFailed("bad".to_string()))];
    match strict_save_count(&bad) {
        Err(WGError::FixtureSerializationError { name, source }) => {
            assert_eq!(name, "x");
            assert_eq!(source, "bad");
        }
        other => panic!("unexpected {other:?}"),
    }
}

#[test]
fn saving_stops_at_the_first_failure_or_the_end() {
    assert!(save_goes_on(&vec![], 2));
    assert!(!save_goes_on(&vec![], 0));
    assert!(save_goes_on(&vec![rec("a", SaveAttempt::Written)], 2));
    assert!(!save_goes_on(&vec![rec("a", SaveAttempt::Written), rec("b", SaveAttempt::Written)], 2));
    assert!(!save_goes_on(&vec![rec("a", SaveAttempt::WriteFailed("full".to_string()))], 2));
}
