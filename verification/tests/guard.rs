use labview_interop::lv_errors::{with_lv_errorhandling, ErrorCluster, ErrorText};

#[test]
fn test_guard_skips_work_when_cluster_has_error() {
    let mut cluster = ErrorCluster::new();
    cluster.set_error(9, "Rust", "upstream failed").unwrap();
    let mut calls = 0u32;
    let work = || -> Result<(), ErrorText> {
        calls += 1;
        Ok(())
    };
    let status = with_lv_errorhandling(&mut cluster, work);
    assert_eq!(calls, 0);
    assert_eq!(status, 9);
    assert_eq!(cluster.status(), true);
    assert_eq!(cluster.code(), 9);
}

#[test]
fn test_guard_failure_updates_cluster() {
    let mut cluster = ErrorCluster::new();
    let work = || -> Result<(), ErrorText> { Err(ErrorText::with_all_fields(7, true, "", "bad")) };
    let status = with_lv_errorhandling(&mut cluster, work);
    assert_eq!(status, 7);
    assert_eq!(cluster.status(), true);
    assert_eq!(cluster.code(), 7);
    assert_eq!(cluster.source_text(), "<ERR>\nbad");
}

#[test]
fn test_guard_success_leaves_cluster_clean() {
    let mut cluster = ErrorCluster::new();
    let mut calls = 0u32;
    let work = || -> Result<(), ErrorText> {
        calls += 1;
        Ok(())
    };
    let status = with_lv_errorhandling(&mut cluster, work);
    assert_eq!(calls, 1);
    assert_eq!(status, 0);
    assert_eq!(cluster.status(), false);
    assert_eq!(cluster.code(), 0);
}

#[test]
fn test_guard_warning_failure_leaves_flag_clear() {
    let mut cluster = ErrorCluster::new();
    let work =
        || -> Result<(), ErrorText> { Err(ErrorText::with_all_fields(13, false, "Rust", "soft")) };
    let status = with_lv_errorhandling(&mut cluster, work);
    assert_eq!(status, 13);
    assert_eq!(cluster.status(), false);
    assert_eq!(cluster.code(), 13);
    assert_eq!(cluster.source_text(), "Rust\n<ERR>\nsoft");
}

#[test]
fn test_guard_chain_keeps_first_error() {
    let mut cluster = ErrorCluster::new();
    let first = || -> Result<(), ErrorText> { Err(ErrorText::with_all_fields(7, true, "", "bad")) };
    let second =
        || -> Result<(), ErrorText> { Err(ErrorText::with_all_fields(99, true, "", "later")) };
    let first_status = with_lv_errorhandling(&mut cluster, first);
    let second_status = with_lv_errorhandling(&mut cluster, second);
    assert_eq!(first_status, 7);
    assert_eq!(second_status, 7);
    assert_eq!(cluster.code(), 7);
    assert_eq!(cluster.source_text(), "<ERR>\nbad");
}
