//! The wrapper, the renderer, and the domain conversion bridge, exercised
//! end to end: descriptions appear in renderings, causes nest verbatim,
//! conversion preserves the original text, and traces contribute exactly
//! when present and non-empty.

use opskit::error::attach_context;
use opskit::error::render_fail;
use opskit::error::Context;
use opskit::error::Error;
use opskit::error::ErrorKind;
use opskit::error::Fail;
use opskit::error::FailNode;
use opskit::error::Kind;
use opskit::error::KindInto;
use opskit::error::custom::MsgError;
use opskit::error::custom::PathError;

#[derive(Debug)]
struct FakeError {
    msg: &'static str,
}

impl FakeError {
    fn new(msg: &'static str) -> FakeError {
        FakeError { msg }
    }
}

impl Fail for FakeError {
    fn into_fail(self) -> FailNode {
        FailNode::new(format!("{{ msg: {} }}", self.msg))
    }
}

#[derive(Copy, Clone, Eq, PartialEq, Debug)]
enum FirstFakeErrorKind {
    FakeOneInner,
}

impl Kind for FirstFakeErrorKind {
    fn description(self) -> &'static str {
        "FakeOneInner"
    }
}

#[derive(Copy, Clone, Eq, PartialEq, Debug)]
enum SecondFakeErrorKind {
    FakeTwoInner,
}

impl Kind for SecondFakeErrorKind {
    fn description(self) -> &'static str {
        "FakeTwoInner"
    }
}

#[derive(Copy, Clone, Eq, PartialEq, Debug)]
enum MergedFakeErrorKind {
    FakeOneOuter,
    FakeTwoOuter,
}

impl Kind for MergedFakeErrorKind {
    fn description(self) -> &'static str {
        match self {
            MergedFakeErrorKind::FakeOneOuter => "FakeOneOuter",
            MergedFakeErrorKind::FakeTwoOuter => "FakeTwoOuter",
        }
    }
}

impl KindInto<MergedFakeErrorKind> for FirstFakeErrorKind {
    fn kind_into(self) -> MergedFakeErrorKind {
        MergedFakeErrorKind::FakeOneOuter
    }
}

impl KindInto<MergedFakeErrorKind> for SecondFakeErrorKind {
    fn kind_into(self) -> MergedFakeErrorKind {
        MergedFakeErrorKind::FakeTwoOuter
    }
}

#[test]
fn test_from_context_for_error_fake_one() {
    let res = || -> Result<(), Error<MergedFakeErrorKind>> {
        Err(attach_context(
            FakeError::new("Fake msg"),
            FirstFakeErrorKind::FakeOneInner,
        ))?
    }();

    assert!(res.is_err());

    println!("{}", res.unwrap_err().render());
}

#[test]
fn test_from_context_for_error_fake_two() {
    let res = || -> Result<(), Error<MergedFakeErrorKind>> {
        Err(attach_context(
            FakeError::new("Fake msg"),
            SecondFakeErrorKind::FakeTwoInner,
        ))?
    }();

    assert!(res.is_err());

    println!("{}", res.unwrap_err().render());
}

/// Every taxonomy kind's fixed description appears in the rendering of a
/// kind-only error built from it.
#[test]
fn test_every_kind_description_appears_in_rendering() {
    let kinds = vec![
        ErrorKind::ChildOutput,
        ErrorKind::CsvEntryParse,
        ErrorKind::DbEntryCreate,
        ErrorKind::DbEntryDelete,
        ErrorKind::DbEntryExpiryParse,
        ErrorKind::DbEntrySerialize,
        ErrorKind::DbNewIter,
        ErrorKind::DbOpen,
        ErrorKind::DefaultLoggerInit,
        ErrorKind::DirFlagEmpty,
        ErrorKind::DirsCreate,
        ErrorKind::EchoPwPipe,
        ErrorKind::FileIo,
        ErrorKind::FluentInitCheck,
        ErrorKind::FluentPostTaggedRecord,
        ErrorKind::Glob,
        ErrorKind::HashDateTimeParse,
        ErrorKind::HdfsCopyToLocal,
        ErrorKind::HdfsDfCmd,
        ErrorKind::HdfsDfsLs,
        ErrorKind::HdfsNotAvailable,
        ErrorKind::HdfsRegexMatch,
        ErrorKind::InvalidDateTarget,
        ErrorKind::InvalidPathAfterGlob,
        ErrorKind::KinitKeytab,
        ErrorKind::KinitNotAvailable,
        ErrorKind::KinitPw,
        ErrorKind::LockFileOpen,
        ErrorKind::LockFileExclusiveLock,
        ErrorKind::ParseHdfsDfSizeValue,
        ErrorKind::ParseHdfsDfUsedValue,
        ErrorKind::PemCertificateFileOpen,
        ErrorKind::PemCertificateRead,
        ErrorKind::PgConnection,
        ErrorKind::PgGetDbSizes,
        ErrorKind::NaiveDateTimeParse,
        ErrorKind::RegexCapFileSizeParse,
        ErrorKind::RegexCapPerm,
        ErrorKind::RegexHdfsDfValuesCap,
        ErrorKind::RegexInitialHdfsDfCap,
        ErrorKind::RegexMinCapture,
        ErrorKind::SpecializedLoggerInit,
        ErrorKind::Statvfs,
        ErrorKind::StderrUtf8Conversion,
        ErrorKind::StderrEmpty,
        ErrorKind::StderrRead,
        ErrorKind::StderrValidMsg,
        ErrorKind::StdoutUtf8Conversion,
        ErrorKind::StripRootPath,
        ErrorKind::TlsConnectorBuilder,
        ErrorKind::TlsConnectorBuilderAddRootCertificate,
        ErrorKind::TlsConnectorBuilderBuild,
        ErrorKind::ToStringPretty,
        ErrorKind::TomlConfigParse,
    ];
    for k in kinds {
        let e = Error::from_kind(k);
        assert!(e.render().contains(k.description()));
    }
}

#[test]
fn test_kind_only_error_renders_exactly() {
    let e = Error::from_kind(ErrorKind::FileIo);
    assert_eq!(e.render(), "{ inner: File I/O error }");
    assert_eq!(e.kind(), ErrorKind::FileIo);
    assert!(e.cause().is_none());
    assert!(e.backtrace().is_none());
}

/// Attaching a kind to a cause yields a rendering that contains both the
/// kind's description and the cause's own rendering verbatim.
#[test]
fn test_attach_context_rendering_contains_kind_and_cause() {
    let cause_rendering = render_fail(MsgError::new("disk on fire"));
    let ctx = attach_context(MsgError::new("disk on fire"), ErrorKind::FileIo);
    let rendered = ctx.render();
    assert!(rendered.contains("File I/O error"));
    assert!(rendered.contains(&cause_rendering));
    assert_eq!(
        rendered,
        "{ inner: File I/O error, cause: { inner: { msg: disk on fire } } }"
    );
}

/// The conversion bridge nests: the converted error's rendering contains
/// the original context's rendering verbatim, and only the outer label
/// changes domain.
#[test]
fn test_conversion_bridge_preserves_original_rendering() {
    let ctx = attach_context(
        FakeError::new("Fake msg"),
        FirstFakeErrorKind::FakeOneInner,
    );
    let original = ctx.render();
    let converted: Error<MergedFakeErrorKind> = Error::from(ctx);
    assert_eq!(converted.kind(), MergedFakeErrorKind::FakeOneOuter);
    let rendered = converted.render();
    assert!(rendered.contains(&original));
    assert!(rendered.contains("FakeOneOuter"));
    assert_eq!(
        rendered,
        "{ inner: FakeOneOuter, cause: { inner: FakeOneInner, cause: { inner: { msg: Fake msg } } } }"
    );
}

/// Converting within one taxonomy through the identity mapping still nests
/// and still preserves the original rendering.
#[test]
fn test_conversion_within_one_taxonomy() {
    let ctx = attach_context(MsgError::new("boom"), ErrorKind::TomlConfigParse);
    let original = ctx.render();
    let e: Error<ErrorKind> = Error::from(ctx);
    assert_eq!(e.kind(), ErrorKind::TomlConfigParse);
    assert!(e.render().contains(&original));
}

/// A three-deep chain renders every level, innermost last, nothing
/// truncated or reordered.
#[test]
fn test_deep_chain_renders_every_level() {
    let leaf = MsgError::new("bad value");
    let wrapped = PathError::new("/etc/app.toml", leaf);
    let ctx = attach_context(wrapped, ErrorKind::TomlConfigParse);
    let e = Error::from_context(ctx);
    let rendered = e.render();
    assert_eq!(
        rendered,
        "{ inner: TOML config parse error, cause: { inner: { path: /etc/app.toml, inner: { msg: bad value } }, cause: { inner: { msg: bad value } } } }"
    );
}

/// The cause accessor exposes the immediate cause; a cause is always a
/// strictly shorter chain, so walking causes terminates.
#[test]
fn test_cause_chain_walk_terminates() {
    let ctx = attach_context(
        PathError::new("/p", MsgError::new("leaf")),
        ErrorKind::FileIo,
    );
    let e = Error::from_context(ctx);
    let mut depth = 0u32;
    let mut node: Option<&FailNode> = e.cause();
    while let Some(n) = node {
        depth += 1;
        node = n.cause();
        assert!(depth <= 2);
    }
    assert_eq!(depth, 2);
}

#[test]
fn test_backtrace_clause_appears_when_present() {
    let ctx = Context::new(ErrorKind::FileIo).with_trace("stack frames here".to_string());
    let e = Error::from_context(ctx);
    assert_eq!(
        e.render(),
        "{ inner: File I/O error, backtrace: stack frames here }"
    );
    assert_eq!(e.backtrace().map(|s| s.as_str()), Some("stack frames here"));
}

#[test]
fn test_empty_backtrace_contributes_nothing() {
    let ctx = Context::new(ErrorKind::FileIo).with_trace(String::new());
    let e = Error::from_context(ctx);
    assert_eq!(e.render(), "{ inner: File I/O error }");
}

#[test]
fn test_fail_node_trace_renders() {
    let node = FailNode::with_trace("low level".to_string(), "frame 0".to_string());
    assert_eq!(
        render_fail(node),
        "{ inner: low level, backtrace: frame 0 }"
    );
}
