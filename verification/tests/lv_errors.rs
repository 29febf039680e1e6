use labview_interop::errors::LVInteropError;
use labview_interop::lv_errors::{ErrorCluster, ErrorText, ToLvError};

#[test]
fn test_source_writer_empty_description() {
    let source = ErrorCluster::format_error_source("Rust", "");
    assert_eq!(source, "Rust");
}

#[test]
fn test_source_writer_with_description() {
    let source = ErrorCluster::format_error_source("Rust", "An Error Occured");
    let expected = "Rust\n<ERR>\nAn Error Occured";
    assert_eq!(source, expected)
}

#[test]
fn test_source_writer_empty_source() {
    let source = ErrorCluster::format_error_source("", "An Error Occured");
    let expected = "<ERR>\nAn Error Occured";
    assert_eq!(source, expected)
}

#[test]
fn test_source_writer_both_empty() {
    let source = ErrorCluster::format_error_source("", "");
    assert_eq!(source, "");
}

#[test]
fn test_new_cluster_is_clean() {
    let cluster = ErrorCluster::new();
    assert_eq!(cluster.status(), false);
    assert_eq!(cluster.code(), 0);
    assert_eq!(cluster.source_text(), "");
}

#[test]
fn test_set_error_sets_flag_code_and_source() {
    let mut cluster = ErrorCluster::new();
    cluster.set_error(5005, "Rust", "it broke").unwrap();
    assert_eq!(cluster.status(), true);
    assert_eq!(cluster.code(), 5005);
    assert_eq!(cluster.source_text(), "Rust\n<ERR>\nit broke");
}

#[test]
fn test_set_warning_clears_flag() {
    let mut cluster = ErrorCluster::new();
    cluster.set_error(5005, "Rust", "it broke").unwrap();
    cluster.set_warning(-12, "", "just a warning").unwrap();
    assert_eq!(cluster.status(), false);
    assert_eq!(cluster.code(), -12);
    assert_eq!(cluster.source_text(), "<ERR>\njust a warning");
}

#[test]
fn test_set_source_keeps_flag_and_code() {
    let mut cluster = ErrorCluster::new();
    cluster.set_error(3, "a", "b").unwrap();
    cluster.set_source("c", "").unwrap();
    assert_eq!(cluster.status(), true);
    assert_eq!(cluster.code(), 3);
    assert_eq!(cluster.source_text(), "c");
}

#[test]
fn test_write_error_as_error() {
    let mut cluster = ErrorCluster::new();
    let failure = ErrorText::with_all_fields(7, true, "Rust", "bad");
    failure.write_error(&mut cluster).unwrap();
    assert_eq!(cluster.status(), true);
    assert_eq!(cluster.code(), 7);
    assert_eq!(cluster.source_text(), "Rust\n<ERR>\nbad");
}

#[test]
fn test_write_error_as_warning() {
    let mut cluster = ErrorCluster::new();
    let warning = ErrorText::with_all_fields(11, false, "", "mild");
    warning.write_error(&mut cluster).unwrap();
    assert_eq!(cluster.status(), false);
    assert_eq!(cluster.code(), 11);
    assert_eq!(cluster.source_text(), "<ERR>\nmild");
}

#[test]
fn test_error_text_defaults() {
    let failure = ErrorText::new("This is a test");
    assert_eq!(failure.code(), 42);
    assert_eq!(failure.is_error(), true);
    assert_eq!(failure.source(), "");
    assert_eq!(failure.description(), "This is a test");
}

#[test]
fn test_interop_error_codes() {
    let mg = LVInteropError::MemoryManager { status: 8 };
    assert_eq!(ToLvError::code(&mg), 8);
    assert_eq!(ToLvError::is_error(&mg), true);
    let internal = LVInteropError::Internal;
    assert_eq!(ToLvError::code(&internal), 42);
    assert_eq!(internal.description_text(), "internal interop error");
}
