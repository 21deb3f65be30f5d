use fs_explicit_io::debug_quote;
use fs_explicit_io::wrap_io_error;
use fs_explicit_io::FsExplicitIoError;

#[test]
fn success_passes_through() {
    let outcome: Result<String, String> = Ok("hello".to_string());
    let r = wrap_io_error(outcome, "foo.txt", "read_to_string");
    assert_eq!(r.unwrap(), "hello");
}

#[test]
fn generic_success_value() {
    let outcome: Result<Vec<u8>, String> = Ok(vec![1, 2, 3]);
    let r = wrap_io_error(outcome, "foo.txt", "read_to_string");
    assert_eq!(r.unwrap(), vec![1, 2, 3]);
}

#[test]
fn missing_file_renders_full_line() {
    let outcome: Result<String, String> =
        Err("No such file or directory (os error 2)".to_string());
    let r = wrap_io_error(outcome, "missing.txt", "read_to_string");
    let err = r.unwrap_err();
    assert_eq!(
        err.render(),
        "IO error in function read_to_string for path: \"missing.txt\" - No such file or directory (os error 2)"
    );
}

#[test]
fn directory_error_keeps_classification() {
    let outcome: Result<String, String> = Err("Is a directory (os error 21)".to_string());
    let r = wrap_io_error(outcome, "a_directory/", "read_to_string");
    let err = r.unwrap_err();
    let line = err.render();
    assert!(line.contains("read_to_string"));
    assert!(line.contains("\"a_directory/\""));
    assert!(line.contains("Is a directory"));
}

#[test]
fn error_carries_all_three_fields() {
    let outcome: Result<String, String> = Err("permission denied".to_string());
    let r = wrap_io_error(outcome, "secret.txt", "read_to_string");
    let FsExplicitIoError::IoError { source, path, function } = r.unwrap_err();
    assert_eq!(source, "permission denied");
    assert_eq!(path, "secret.txt");
    assert_eq!(function, "read_to_string");
}

#[test]
fn render_contains_source_message() {
    let outcome: Result<String, String> = Err("device busy (os error 16)".to_string());
    let r = wrap_io_error(outcome, "dev.txt", "read_to_string");
    let line = r.unwrap_err().render();
    assert!(line.contains("device busy (os error 16)"));
    assert!(line.ends_with("device busy (os error 16)"));
}

#[test]
fn render_is_deterministic() {
    let first: Result<String, String> = Err("no such device".to_string());
    let second: Result<String, String> = Err("no such device".to_string());
    let a = wrap_io_error(first, "dev/null.txt", "read_to_string").unwrap_err();
    let b = wrap_io_error(second, "dev/null.txt", "read_to_string").unwrap_err();
    assert_eq!(a.render(), b.render());
}

#[test]
fn quote_plain_path() {
    assert_eq!(debug_quote("foo.txt"), "\"foo.txt\"");
    assert_eq!(debug_quote(""), "\"\"");
}

#[test]
fn quote_escapes_special_characters() {
    assert_eq!(debug_quote("a\"b\\c"), "\"a\\\"b\\\\c\"");
}

#[test]
fn render_escapes_path_in_line() {
    let outcome: Result<String, String> = Err("not found".to_string());
    let r = wrap_io_error(outcome, "odd\"name.txt", "read_to_string");
    let line = r.unwrap_err().render();
    assert_eq!(
        line,
        "IO error in function read_to_string for path: \"odd\\\"name.txt\" - not found"
    );
}
