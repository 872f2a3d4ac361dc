//! End-to-end scenarios: the library's error chains wrapped around real
//! collaborator failures — a missing config file, an invalid TOML document,
//! and contention on an exclusive file lock.

use fs2::FileExt;
use opskit::error::attach_context;
use opskit::error::Error;
use opskit::error::ErrorKind;
use opskit::error::FailNode;
use opskit::error::custom::MsgError;
use opskit::error::custom::PathError;
use opskit::error::custom::ValueError;

#[test]
fn test_scenario_missing_config_file() {
    let path = "/nonexistent/app.toml";
    let io_err = filebuffer::FileBuffer::open(path).unwrap_err();
    let ctx = attach_context(
        PathError::new(path, FailNode::new(io_err.to_string())),
        ErrorKind::FileIo,
    );
    let e = Error::from_context(ctx);
    assert_eq!(e.kind(), ErrorKind::FileIo);
    let rendered = e.render();
    assert!(rendered.contains("File I/O error"));
    assert!(rendered.contains("/nonexistent/app.toml"));
    assert!(rendered.contains("No such file"));
}

#[test]
fn test_scenario_invalid_toml_config() {
    let parse_err = toml::from_str::<toml::Table>("not = valid = toml").unwrap_err();
    let ctx = attach_context(
        PathError::new("/etc/app.toml", MsgError::new(&parse_err.to_string())),
        ErrorKind::TomlConfigParse,
    );
    let e = Error::from_context(ctx);
    assert_eq!(e.kind(), ErrorKind::TomlConfigParse);
    let rendered = e.render();
    assert!(rendered.contains("TOML config parse error"));
    assert!(rendered.contains("/etc/app.toml"));
    // A diagnostic from the parser itself is nested inside.
    assert!(rendered.to_lowercase().contains("expected"));
}

#[test]
fn test_scenario_lock_contention() {
    let tmp = tempfile::NamedTempFile::new().unwrap();
    let lock_path = tmp.path().to_str().unwrap().to_string();

    let first = tmp.reopen().unwrap();
    assert!(first.try_lock_exclusive().is_ok());

    let second = tmp.reopen().unwrap();
    let res: Result<(), Error<ErrorKind>> = match second.try_lock_exclusive() {
        Ok(_) => Ok(()),
        Err(lock_err) => Err(Error::from_context(attach_context(
            PathError::new(&lock_path, FailNode::new(lock_err.to_string())),
            ErrorKind::LockFileExclusiveLock,
        ))),
    };
    let e = res.unwrap_err();
    assert_eq!(e.kind(), ErrorKind::LockFileExclusiveLock);
    let rendered = e.render();
    assert!(rendered.contains("Lock file exclusive lock error"));
    assert!(rendered.contains(&lock_path));
}

#[test]
fn test_scenario_value_error_port_out_of_range() {
    let e = Error::from_context(attach_context(
        ValueError::new("port out of range", 99999),
        ErrorKind::CsvEntryParse,
    ));
    let rendered = e.render();
    assert!(rendered.contains("99999"));
    assert!(rendered.contains("port out of range"));
}
