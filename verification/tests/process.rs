//! The process-output decision logic: which handle or text comes back, and
//! which error chain explains a refusal.

use opskit::error::Error;
use opskit::error::ErrorKind;
use opskit::util::process::extract_child_stdout;
use opskit::util::process::extract_output_stdout_str;

#[test]
fn test_extract_child_stdout_present() {
    let r: Result<u32, Error<ErrorKind>> = extract_child_stdout(Some(17), None);
    assert_eq!(r.unwrap(), 17);
}

#[test]
fn test_extract_child_stdout_missing_and_no_stderr() {
    let r: Result<u32, Error<ErrorKind>> = extract_child_stdout(None, None);
    let e = r.unwrap_err();
    assert_eq!(e.kind(), ErrorKind::StderrEmpty);
    assert_eq!(
        e.render(),
        "{ inner: Stderr is empty, cause: { inner: Stderr is empty } }"
    );
}

#[test]
fn test_extract_child_stdout_missing_with_stderr_text() {
    let r: Result<u32, Error<ErrorKind>> =
        extract_child_stdout(None, Some(Ok("oops".to_string())));
    let e = r.unwrap_err();
    assert_eq!(e.kind(), ErrorKind::StderrValidMsg);
    let rendered = e.render();
    assert!(rendered.contains("Error with message in stderr"));
    assert!(rendered.contains("{ msg: oops }"));
}

#[test]
fn test_extract_child_stdout_missing_with_stderr_read_failure() {
    let r: Result<u32, Error<ErrorKind>> =
        extract_child_stdout(None, Some(Err("pipe gone".to_string())));
    let e = r.unwrap_err();
    assert_eq!(e.kind(), ErrorKind::StderrRead);
    let rendered = e.render();
    assert!(rendered.contains("Error reading from stderr pipe"));
    assert!(rendered.contains("pipe gone"));
}

#[test]
fn test_extract_output_stdout_str_success() {
    let r: Result<String, Error<ErrorKind>> =
        extract_output_stdout_str(true, None, b"hello\n".to_vec(), Vec::new());
    assert_eq!(r.unwrap(), "hello\n");
}

#[test]
fn test_extract_output_stdout_str_invalid_stdout_utf8() {
    let r: Result<String, Error<ErrorKind>> =
        extract_output_stdout_str(true, None, vec![0xff, 0xfe], Vec::new());
    let e = r.unwrap_err();
    assert_eq!(e.kind(), ErrorKind::StdoutUtf8Conversion);
    assert!(e.render().contains("Conversion from UTF8 stdout to string fail"));
}

#[test]
fn test_extract_output_stdout_str_failure_reports_code_and_stderr() {
    let r: Result<String, Error<ErrorKind>> =
        extract_output_stdout_str(false, Some(3), Vec::new(), b"boom".to_vec());
    let e = r.unwrap_err();
    assert_eq!(e.kind(), ErrorKind::ChildOutput);
    let rendered = e.render();
    assert!(rendered.contains("Child output error"));
    assert!(rendered.contains("{ code: Some(3), msg: boom }"));
}

#[test]
fn test_extract_output_stdout_str_failure_with_invalid_stderr() {
    let r: Result<String, Error<ErrorKind>> =
        extract_output_stdout_str(false, Some(1), Vec::new(), vec![0x80]);
    let e = r.unwrap_err();
    assert_eq!(e.kind(), ErrorKind::StderrUtf8Conversion);
    assert!(e.render().contains("Conversion from UTF8 stderr to string fail"));
}
