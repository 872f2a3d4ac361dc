//! The structured error-context core: the failure capability, the closed
//! `ErrorKind` taxonomy, the `Context`/`Error` wrapper pair, the explicit
//! domain conversion bridge, and the recursive chain renderer.
//!
//! Every failure is modelled as a finite chain of [`Link`]s: the failure's
//! own message first, then the links of its cause, and so on. Chains are
//! acyclic by construction: a cause is always a previously completed value
//! consumed by move, and the concrete chain type [`FailNode`] is an
//! inductive datatype, so no cause can reach back to the failure it belongs
//! to.

use vstd::prelude::*;
use vstd::string::StrSliceExecFns;
use vstd::string::StringExecFns;

use crate::text::contains_seq;
use crate::text::lemma_contains_seq_append;
use crate::text::lemma_contains_seq_empty;
use crate::text::lemma_contains_seq_prepend;
use crate::text::lemma_contains_seq_refl;

pub mod custom;

verus! {

/// One link of a failure chain: the failing party's own message and its
/// optional captured trace.
#[verifier::ext_equal]
pub struct Link {
    pub msg: Seq<char>,
    pub trace: Option<Seq<char>>,
}

/// The view of an optional captured trace.
pub open spec fn trace_view(t: Option<String>) -> Option<Seq<char>> {
    match t {
        Some(s) => Some(s@),
        None => None,
    }
}

/// The composite rendering of a whole failure chain, outermost link first:
/// `{ inner: <msg>[, cause: <rendered cause>][, backtrace: <trace>] }`,
/// where an absent or empty trace contributes nothing.
pub open spec fn spec_render(chain: Seq<Link>) -> Seq<char>
    decreases chain.len(),
{
    if chain.len() == 0 {
        Seq::<char>::empty()
    } else {
        "{ inner: "@ + chain[0].msg + (if chain.len() > 1 {
            ", cause: "@ + spec_render(chain.skip(1))
        } else {
            Seq::<char>::empty()
        }) + trace_clause(chain[0].trace) + " }"@
    }
}

/// The `, cause: ...` clause a cause chain contributes to a rendering:
/// nothing when there is no cause.
pub open spec fn cause_clause(cause: Seq<Link>) -> Seq<char> {
    if cause.len() == 0 {
        Seq::<char>::empty()
    } else {
        ", cause: "@ + spec_render(cause)
    }
}

/// The `, backtrace: ...` clause a trace contributes to a rendering: an
/// absent or empty trace contributes nothing.
pub open spec fn trace_clause(t: Option<Seq<char>>) -> Seq<char> {
    match t {
        Some(tr) => if tr.len() == 0 {
            Seq::<char>::empty()
        } else {
            ", backtrace: "@ + tr
        },
        None => Seq::<char>::empty(),
    }
}

/// The capability every wrapped failure satisfies: it knows its own finite
/// cause chain and can surrender itself as a concrete [`FailNode`].
/// External failures are adapted by building a [`FailNode`] from their
/// message; the types of this crate implement the capability directly.
pub trait Fail: Sized {
    /// The failure's full cause chain, the failure's own link first. Left
    /// unspecified by default, so that unverified adapters outside the
    /// library can satisfy the capability by providing only the erasure.
    open spec fn chain(&self) -> Seq<Link> {
        arbitrary()
    }

    /// Erase the failure to its concrete chain form.
    fn into_fail(self) -> (r: FailNode)
        ensures
            r@ == self.chain(),
    ;
}

/// The concrete, type-erased form of a failure chain: a message, an
/// optional boxed cause, and an optional captured trace.
#[derive(Debug)]
pub struct FailNode {
    pub msg: String,
    pub cause: Option<Box<FailNode>>,
    pub trace: Option<String>,
}

/// The chain of links a concrete node stands for.
pub open spec fn fail_node_links(n: FailNode) -> Seq<Link>
    decreases n,
{
    seq![Link { msg: n.msg@, trace: trace_view(n.trace) }] + (match n.cause {
        Some(c) => fail_node_links(*c),
        None => Seq::<Link>::empty(),
    })
}

/// The chain of links of an optional cause node: empty when absent.
pub open spec fn opt_links(o: Option<Box<FailNode>>) -> Seq<Link> {
    match o {
        Some(c) => fail_node_links(*c),
        None => Seq::<Link>::empty(),
    }
}

impl View for FailNode {
    type V = Seq<Link>;

    open spec fn view(&self) -> Seq<Link> {
        fail_node_links(*self)
    }
}

impl FailNode {
    /// A leaf node carrying only a message, the usual adaptation of an
    /// external failure.
    pub fn new(msg: String) -> (r: FailNode)
        ensures
            r@ == seq![Link { msg: msg@, trace: None }],
    {
        let r = FailNode { msg, cause: None, trace: None };
        proof {
            assert(r@ =~= seq![Link { msg: msg@, trace: None }]);
        }
        r
    }

    /// A leaf node carrying a message and a captured trace.
    pub fn with_trace(msg: String, trace: String) -> (r: FailNode)
        ensures
            r@ == seq![Link { msg: msg@, trace: Some(trace@) }],
    {
        let r = FailNode { msg, cause: None, trace: Some(trace) };
        proof {
            assert(r@ =~= seq![Link { msg: msg@, trace: Some(trace@) }]);
        }
        r
    }

    /// The node's own message.
    pub fn message(&self) -> (r: &String)
        ensures
            r@ == self@[0].msg,
    {
        &self.msg
    }

    /// The immediate cause, if any.
    pub fn cause(&self) -> (r: Option<&FailNode>)
        ensures
            r is Some <==> self@.len() > 1,
            r matches Some(c) ==> c@ == self@.skip(1),
    {
        proof {
            if self.cause is Some {
                lemma_fail_node_links_len(*self.cause.unwrap());
                assert(self@.skip(1) =~= fail_node_links(*self.cause.unwrap()));
            } else {
                assert(self@.len() == 1);
            }
        }
        match &self.cause {
            Some(c) => Some(&**c),
            None => None,
        }
    }

    /// The captured trace, if any.
    pub fn trace(&self) -> (r: Option<&String>)
        ensures
            trace_view_matches(r, self@[0].trace),
    {
        match &self.trace {
            Some(t) => Some(t),
            None => None,
        }
    }
}

/// Relates a borrowed optional trace to its view.
pub open spec fn trace_view_matches(r: Option<&String>, t: Option<Seq<char>>) -> bool {
    match r {
        Some(s) => t == Some(s@),
        None => t is None,
    }
}

/// A concrete chain node is itself a failure.
impl Fail for FailNode {
    open spec fn chain(&self) -> Seq<Link> {
        fail_node_links(*self)
    }

    fn into_fail(self) -> (r: FailNode) {
        self
    }
}

/// Every concrete chain has at least one link.
pub proof fn lemma_fail_node_links_len(n: FailNode)
    ensures
        fail_node_links(n).len() >= 1,
{
}

/// Acyclicity, stated over the chain measure: a node's cause always stands
/// for a strictly shorter chain than the node itself, so no sequence of
/// legal constructions can make a cause (transitively) contain the failure
/// built on top of it.
pub proof fn lemma_cause_strictly_shorter(n: FailNode)
    ensures
        fail_node_links(n).len() >= 1,
        n.cause matches Some(c) ==> fail_node_links(*c).len() < fail_node_links(n).len(),
{
}

/// A failure category label: a closed, copyable taxonomy where every value
/// carries one fixed human-readable description.
pub trait Kind: Sized + Copy {
    /// The category's fixed description. Left unspecified by default, so
    /// that unverified taxonomies outside the library can satisfy the
    /// capability by providing only the executable description.
    open spec fn spec_description(self) -> Seq<char> {
        arbitrary()
    }

    /// Returns the category's fixed description.
    fn description(self) -> (r: &'static str)
        ensures
            r@ == self.spec_description(),
    ;
}

/// An explicit, caller-defined total mapping from one taxonomy into
/// another, used by the domain conversion bridge. No catch-all mapping
/// exists: each pair of domains that must compose defines its own.
pub trait KindInto<K2: Kind>: Kind {
    /// The mapped category. Left unspecified by default, so that mappings
    /// between unverified taxonomies outside the library need only provide
    /// the executable mapping.
    open spec fn spec_kind_into(self) -> K2 {
        arbitrary()
    }

    /// Maps this category into the target taxonomy.
    fn kind_into(self) -> (r: K2)
        ensures
            r == self.spec_kind_into(),
    ;
}

/// The view of a context: its kind, the chain of its optional cause (empty
/// when there is none), and its optional captured trace.
#[verifier::ext_equal]
pub struct ContextView<K> {
    pub kind: K,
    pub cause: Seq<Link>,
    pub trace: Option<Seq<char>>,
}

impl<K: Kind> ContextView<K> {
    /// The full chain of the context: the kind's description first, then
    /// the cause's links.
    pub open spec fn chain(self) -> Seq<Link> {
        seq![Link { msg: self.kind.spec_description(), trace: self.trace }] + self.cause
    }
}

/// An immutable pairing of one taxonomy kind with an optional chained
/// cause, built once at failure time.
#[derive(Debug)]
pub struct Context<K: Kind> {
    kind: K,
    cause: Option<Box<FailNode>>,
    trace: Option<String>,
}

impl<K: Kind> View for Context<K> {
    type V = ContextView<K>;

    closed spec fn view(&self) -> ContextView<K> {
        ContextView { kind: self.kind, cause: opt_links(self.cause), trace: trace_view(self.trace) }
    }
}

/// Attaches a taxonomy kind to a failure: the result owns the kind and the
/// failure's whole chain as its cause. Pure construction; never fails.
pub fn attach_context<C: Fail, K: Kind>(cause: C, kind: K) -> (r: Context<K>)
    ensures
        r@.kind == kind,
        r@.cause == cause.chain(),
        r@.trace is None,
{
    Context { kind, cause: Some(Box::new(cause.into_fail())), trace: None }
}

impl<K: Kind> Context<K> {
    /// A context carrying only a kind, for leaf failures with no underlying
    /// cause.
    pub fn new(kind: K) -> (r: Context<K>)
        ensures
            r@.kind == kind,
            r@.cause == Seq::<Link>::empty(),
            r@.trace is None,
    {
        Context { kind, cause: None, trace: None }
    }

    /// The kind this context was built with.
    pub fn get_context(&self) -> (r: &K)
        ensures
            *r == self@.kind,
    {
        &self.kind
    }

    /// The same context with a captured trace attached.
    pub fn with_trace(self, trace: String) -> (r: Context<K>)
        ensures
            r@.kind == self@.kind,
            r@.cause == self@.cause,
            r@.trace == Some(trace@),
    {
        Context { kind: self.kind, cause: self.cause, trace: Some(trace) }
    }

    /// Renders the full chain rooted at this context.
    pub fn render(&self) -> (r: String)
        ensures
            r@ == spec_render(self@.chain()),
    {
        let k = self.kind;
        let mut s = "{ inner: ".to_owned();
        s.append(k.description());
        let c = fail_opt_to_str(&self.cause);
        s.append(c.as_str());
        let b = backtrace_opt_to_str(&self.trace);
        s.append(b.as_str());
        s.append(" }");
        proof {
            lemma_chain_render_parts(self@);
        }
        s
    }
}

impl<K: Kind> Fail for Context<K> {
    open spec fn chain(&self) -> Seq<Link> {
        self@.chain()
    }

    fn into_fail(self) -> (r: FailNode) {
        let msg = self.kind.description().to_owned();
        let r = FailNode { msg, cause: self.cause, trace: self.trace };
        proof {
            assert(r@ =~= self@.chain());
        }
        r
    }
}

/// The rendering of a context's chain, decomposed into the parts the
/// executable renderer assembles.
proof fn lemma_chain_render_parts<K: Kind>(v: ContextView<K>)
    ensures
        spec_render(v.chain()) == "{ inner: "@ + v.kind.spec_description() + cause_clause(v.cause)
            + trace_clause(v.trace) + " }"@,
{
    let chain = v.chain();
    assert(chain[0].msg == v.kind.spec_description());
    assert(chain[0].trace == v.trace);
    assert(chain.skip(1) =~= v.cause);
    if v.cause.len() == 0 {
        assert(chain.len() == 1);
    } else {
        assert(chain.len() > 1);
    }
}

/// Renders the `, cause: ...` clause of an optional cause node.
fn fail_opt_to_str(opt: &Option<Box<FailNode>>) -> (r: String)
    ensures
        r@ == cause_clause(opt_links(*opt)),
{
    match opt {
        Some(c) => {
            proof {
                lemma_fail_node_links_len(**c);
            }
            let inner = rec_format_fail(c);
            ", cause: ".to_owned().concat(inner.as_str())
        },
        None => {
            let r = "".to_owned();
            proof {
                reveal_strlit("");
                assert(r@ =~= cause_clause(opt_links(*opt)));
            }
            r
        },
    }
}

/// Renders the `, backtrace: ...` clause of an optional trace: an absent or
/// empty trace contributes nothing.
fn backtrace_opt_to_str(opt: &Option<String>) -> (r: String)
    ensures
        r@ == trace_clause(trace_view(*opt)),
{
    proof {
        reveal_strlit("");
    }
    match opt {
        Some(t) => {
            if t.as_str().is_empty() {
                let r = "".to_owned();
                proof {
                    assert(r@ =~= trace_clause(trace_view(*opt)));
                }
                r
            } else {
                ", backtrace: ".to_owned().concat(t.as_str())
            }
        },
        None => {
            let r = "".to_owned();
            proof {
                assert(r@ =~= trace_clause(trace_view(*opt)));
            }
            r
        },
    }
}

/// Recursively renders a concrete chain node:
/// `{ inner: <msg>[, cause: ...][, backtrace: ...] }`.
fn rec_format_fail(f: &FailNode) -> (r: String)
    ensures
        r@ == spec_render(f@),
    decreases *f,
{
    let mut s = "{ inner: ".to_owned();
    s.append(f.msg.as_str());
    match &f.cause {
        Some(c) => {
            proof {
                lemma_fail_node_links_len(**c);
                assert(f@.skip(1) =~= fail_node_links(**c));
            }
            s.append(", cause: ");
            let inner = rec_format_fail(c);
            s.append(inner.as_str());
        },
        None => {
            proof {
                assert(f@.len() == 1);
            }
        },
    }
    let b = backtrace_opt_to_str(&f.trace);
    s.append(b.as_str());
    s.append(" }");
    proof {
        assert(f@[0].msg == f.msg@);
        assert(f@[0].trace == trace_view(f.trace));
    }
    s
}

/// Renders the full chain of any failure.
pub fn render_fail<F: Fail>(f: F) -> (r: String)
    ensures
        r@ == spec_render(f.chain()),
{
    let node = f.into_fail();
    rec_format_fail(&node)
}

/// The public error type returned from fallible operations: a thin owner of
/// a single context.
#[derive(Debug)]
pub struct Error<K: Kind> {
    pub inner: Context<K>,
}

impl<K: Kind> View for Error<K> {
    type V = ContextView<K>;

    open spec fn view(&self) -> ContextView<K> {
        self.inner@
    }
}

impl<K: Kind> Error<K> {
    /// A context-free error carrying only a kind.
    pub fn from_kind(kind: K) -> (r: Error<K>)
        ensures
            r@.kind == kind,
            r@.cause == Seq::<Link>::empty(),
            r@.trace is None,
    {
        Error { inner: Context::new(kind) }
    }

    /// Wraps an existing context unchanged.
    pub fn from_context(inner: Context<K>) -> (r: Error<K>)
        ensures
            r@ == inner@,
    {
        Error { inner }
    }

    /// The kind this error was built with.
    pub fn kind(&self) -> (r: K)
        ensures
            r == self@.kind,
    {
        *self.inner.get_context()
    }

    /// The immediate chained cause, if any.
    pub fn cause(&self) -> (r: Option<&FailNode>)
        ensures
            r is Some <==> self@.cause.len() > 0,
            r matches Some(c) ==> c@ == self@.cause,
    {
        match &self.inner.cause {
            Some(c) => Some(&**c),
            None => None,
        }
    }

    /// The captured trace, if any; absent unless explicitly captured.
    pub fn backtrace(&self) -> (r: Option<&String>)
        ensures
            trace_view_matches(r, self@.trace),
    {
        match &self.inner.trace {
            Some(t) => Some(t),
            None => None,
        }
    }

    /// Renders the full chain rooted at this error.
    pub fn render(&self) -> (r: String)
        ensures
            r@ == spec_render(self@.chain()),
    {
        self.inner.render()
    }
}

impl<K: Kind> Fail for Error<K> {
    open spec fn chain(&self) -> Seq<Link> {
        self@.chain()
    }

    fn into_fail(self) -> (r: FailNode) {
        self.inner.into_fail()
    }
}

/// The domain conversion bridge: reads the inner kind, maps it through the
/// caller-defined [`KindInto`] mapping, and nests the entire original
/// context unchanged beneath the new top-level kind. Nothing is rewritten:
/// the original chain stays visible one level deeper.
impl<K1: KindInto<K2>, K2: Kind> From<Context<K1>> for Error<K2> {
    fn from(inner: Context<K1>) -> (r: Error<K2>)
        ensures
            r@.kind == inner@.kind.spec_kind_into(),
            r@.cause == inner@.chain(),
            r@.trace is None,
    {
        let new_kind = inner.kind.kind_into();
        Error {
            inner: Context { kind: new_kind, cause: Some(Box::new(inner.into_fail())), trace: None },
        }
    }
}

impl<K1: KindInto<K2>, K2: Kind> vstd::std_specs::convert::FromSpecImpl<Context<K1>> for Error<K2> {
    open spec fn obeys_from_spec() -> bool {
        false
    }

    open spec fn from_spec(inner: Context<K1>) -> Error<K2> {
        arbitrary()
    }
}

/// The closed taxonomy of failure categories these tools report, grouped by
/// domain: I/O and locking, external-tool invocation, authentication,
/// network and TLS setup, parsing, serialization, and logger setup.
#[derive(Copy, Clone, PartialEq, Eq, Structural, Debug)]
pub enum ErrorKind {
    ChildOutput,
    CsvEntryParse,
    DbEntryCreate,
    DbEntryDelete,
    DbEntryExpiryParse,
    DbEntrySerialize,
    DbNewIter,
    DbOpen,
    DefaultLoggerInit,
    DirFlagEmpty,
    DirsCreate,
    EchoPwPipe,
    FileIo,
    FluentInitCheck,
    FluentPostTaggedRecord,
    Glob,
    HashDateTimeParse,
    HdfsCopyToLocal,
    HdfsDfCmd,
    HdfsDfsLs,
    HdfsNotAvailable,
    HdfsRegexMatch,
    InvalidDateTarget,
    InvalidPathAfterGlob,
    KinitKeytab,
    KinitNotAvailable,
    KinitPw,
    LockFileOpen,
    LockFileExclusiveLock,
    ParseHdfsDfSizeValue,
    ParseHdfsDfUsedValue,
    PemCertificateFileOpen,
    PemCertificateRead,
    PgConnection,
    PgGetDbSizes,
    NaiveDateTimeParse,
    RegexCapFileSizeParse,
    RegexCapPerm,
    RegexHdfsDfValuesCap,
    RegexInitialHdfsDfCap,
    RegexMinCapture,
    SpecializedLoggerInit,
    Statvfs,
    StderrUtf8Conversion,
    StderrEmpty,
    StderrRead,
    StderrValidMsg,
    StdoutUtf8Conversion,
    StripRootPath,
    TlsConnectorBuilder,
    TlsConnectorBuilderAddRootCertificate,
    TlsConnectorBuilderBuild,
    ToStringPretty,
    TomlConfigParse,
}

impl Kind for ErrorKind {
    open spec fn spec_description(self) -> Seq<char> {
        match self {
            ErrorKind::ChildOutput => "Child output error"@,
            ErrorKind::CsvEntryParse => "CSV entry record parse error"@,
            ErrorKind::DbEntryCreate => "Database entry cache creation error"@,
            ErrorKind::DbEntryDelete => "Database entry cache delete error"@,
            ErrorKind::DbEntryExpiryParse => "Parse database entry expiry error"@,
            ErrorKind::DbEntrySerialize => "Database entry serialize error"@,
            ErrorKind::DbNewIter => "Get database new iterator error"@,
            ErrorKind::DbOpen => "Database file open error"@,
            ErrorKind::DefaultLoggerInit => "Default logger initialization error"@,
            ErrorKind::DirFlagEmpty => "Directory flag is unexpectedly empty"@,
            ErrorKind::DirsCreate => "Unable to create directories for copying to destination"@,
            ErrorKind::EchoPwPipe => "Error piping password echo"@,
            ErrorKind::FileIo => "File I/O error"@,
            ErrorKind::FluentInitCheck => "Initial fluent post check error"@,
            ErrorKind::FluentPostTaggedRecord => "Fluent post from tagged record error"@,
            ErrorKind::Glob => "Match glob error"@,
            ErrorKind::HashDateTimeParse => "Hash date time parse error"@,
            ErrorKind::HdfsCopyToLocal => "Error invoking hdfs dfs -copyToLocal"@,
            ErrorKind::HdfsDfCmd => "Error running hdfs dfs -df command"@,
            ErrorKind::HdfsDfsLs => "Error invoking hdfs dfs -ls"@,
            ErrorKind::HdfsNotAvailable => "Cannot find hdfs command"@,
            ErrorKind::HdfsRegexMatch => "Error creating regex for hdfs matches"@,
            ErrorKind::InvalidDateTarget => "Invalid date target"@,
            ErrorKind::InvalidPathAfterGlob => "Invalid path after glob"@,
            ErrorKind::KinitKeytab => "kinit for username and keytab combi returns error"@,
            ErrorKind::KinitNotAvailable => "Cannot find kinit command"@,
            ErrorKind::KinitPw => "kinit for username and password combi returns error"@,
            ErrorKind::LockFileOpen => "Lock file open error"@,
            ErrorKind::LockFileExclusiveLock => "Lock file exclusive lock error"@,
            ErrorKind::ParseHdfsDfSizeValue => "Cannot parse hdfs dfs -df size value"@,
            ErrorKind::ParseHdfsDfUsedValue => "Cannot parse hdfs dfs -df used value"@,
            ErrorKind::PemCertificateFileOpen => "PEM certificate file open error"@,
            ErrorKind::PemCertificateRead => "PEM certificate read error"@,
            ErrorKind::PgConnection => "Cannot connect to Postgres server"@,
            ErrorKind::PgGetDbSizes => "Cannot execute Postgres query to get database sizes"@,
            ErrorKind::NaiveDateTimeParse => "Unable to parse naive date time"@,
            ErrorKind::RegexCapFileSizeParse => "Unable to parse file size from regex capture"@,
            ErrorKind::RegexCapPerm => "Unable to regex capture permissions"@,
            ErrorKind::RegexHdfsDfValuesCap => "Cannot capture values from hdfs dfs -df extraction"@,
            ErrorKind::RegexInitialHdfsDfCap => "Cannot get initial hdfs dfs -df regex capture"@,
            ErrorKind::RegexMinCapture => "Regex minimum capture error"@,
            ErrorKind::SpecializedLoggerInit => "Specialized logger initialization error"@,
            ErrorKind::Statvfs => "Error getting statvfs on path"@,
            ErrorKind::StderrUtf8Conversion => "Conversion from UTF8 stderr to string fail"@,
            ErrorKind::StderrEmpty => "Stderr is empty"@,
            ErrorKind::StderrRead => "Error reading from stderr pipe"@,
            ErrorKind::StderrValidMsg => "Error with message in stderr"@,
            ErrorKind::StdoutUtf8Conversion => "Conversion from UTF8 stdout to string fail"@,
            ErrorKind::StripRootPath => "Unable to strip root '/' from path"@,
            ErrorKind::TlsConnectorBuilder => "TLS connector builder error"@,
            ErrorKind::TlsConnectorBuilderAddRootCertificate => "TLS connector builder add root certificate error"@,
            ErrorKind::TlsConnectorBuilderBuild => "TLS connector builder build error"@,
            ErrorKind::ToStringPretty => "Pretty string conversion error"@,
            ErrorKind::TomlConfigParse => "TOML config parse error"@,
        }
    }

    fn description(self) -> (r: &'static str) {
        match self {
            ErrorKind::ChildOutput => "Child output error",
            ErrorKind::CsvEntryParse => "CSV entry record parse error",
            ErrorKind::DbEntryCreate => "Database entry cache creation error",
            ErrorKind::DbEntryDelete => "Database entry cache delete error",
            ErrorKind::DbEntryExpiryParse => "Parse database entry expiry error",
            ErrorKind::DbEntrySerialize => "Database entry serialize error",
            ErrorKind::DbNewIter => "Get database new iterator error",
            ErrorKind::DbOpen => "Database file open error",
            ErrorKind::DefaultLoggerInit => "Default logger initialization error",
            ErrorKind::DirFlagEmpty => "Directory flag is unexpectedly empty",
            ErrorKind::DirsCreate => "Unable to create directories for copying to destination",
            ErrorKind::EchoPwPipe => "Error piping password echo",
            ErrorKind::FileIo => "File I/O error",
            ErrorKind::FluentInitCheck => "Initial fluent post check error",
            ErrorKind::FluentPostTaggedRecord => "Fluent post from tagged record error",
            ErrorKind::Glob => "Match glob error",
            ErrorKind::HashDateTimeParse => "Hash date time parse error",
            ErrorKind::HdfsCopyToLocal => "Error invoking hdfs dfs -copyToLocal",
            ErrorKind::HdfsDfCmd => "Error running hdfs dfs -df command",
            ErrorKind::HdfsDfsLs => "Error invoking hdfs dfs -ls",
            ErrorKind::HdfsNotAvailable => "Cannot find hdfs command",
            ErrorKind::HdfsRegexMatch => "Error creating regex for hdfs matches",
            ErrorKind::InvalidDateTarget => "Invalid date target",
            ErrorKind::InvalidPathAfterGlob => "Invalid path after glob",
            ErrorKind::KinitKeytab => "kinit for username and keytab combi returns error",
            ErrorKind::KinitNotAvailable => "Cannot find kinit command",
            ErrorKind::KinitPw => "kinit for username and password combi returns error",
            ErrorKind::LockFileOpen => "Lock file open error",
            ErrorKind::LockFileExclusiveLock => "Lock file exclusive lock error",
            ErrorKind::ParseHdfsDfSizeValue => "Cannot parse hdfs dfs -df size value",
            ErrorKind::ParseHdfsDfUsedValue => "Cannot parse hdfs dfs -df used value",
            ErrorKind::PemCertificateFileOpen => "PEM certificate file open error",
            ErrorKind::PemCertificateRead => "PEM certificate read error",
            ErrorKind::PgConnection => "Cannot connect to Postgres server",
            ErrorKind::PgGetDbSizes => "Cannot execute Postgres query to get database sizes",
            ErrorKind::NaiveDateTimeParse => "Unable to parse naive date time",
            ErrorKind::RegexCapFileSizeParse => "Unable to parse file size from regex capture",
            ErrorKind::RegexCapPerm => "Unable to regex capture permissions",
            ErrorKind::RegexHdfsDfValuesCap => "Cannot capture values from hdfs dfs -df extraction",
            ErrorKind::RegexInitialHdfsDfCap => "Cannot get initial hdfs dfs -df regex capture",
            ErrorKind::RegexMinCapture => "Regex minimum capture error",
            ErrorKind::SpecializedLoggerInit => "Specialized logger initialization error",
            ErrorKind::Statvfs => "Error getting statvfs on path",
            ErrorKind::StderrUtf8Conversion => "Conversion from UTF8 stderr to string fail",
            ErrorKind::StderrEmpty => "Stderr is empty",
            ErrorKind::StderrRead => "Error reading from stderr pipe",
            ErrorKind::StderrValidMsg => "Error with message in stderr",
            ErrorKind::StdoutUtf8Conversion => "Conversion from UTF8 stdout to string fail",
            ErrorKind::StripRootPath => "Unable to strip root '/' from path",
            ErrorKind::TlsConnectorBuilder => "TLS connector builder error",
            ErrorKind::TlsConnectorBuilderAddRootCertificate => "TLS connector builder add root certificate error",
            ErrorKind::TlsConnectorBuilderBuild => "TLS connector builder build error",
            ErrorKind::ToStringPretty => "Pretty string conversion error",
            ErrorKind::TomlConfigParse => "TOML config parse error",
        }
    }
}

/// The degenerate mapping of the taxonomy into itself, for errors that
/// never cross a module boundary.
impl KindInto<ErrorKind> for ErrorKind {
    open spec fn spec_kind_into(self) -> ErrorKind {
        self
    }

    fn kind_into(self) -> (r: ErrorKind) {
        self
    }
}

/// Law: a rendered non-empty chain contains its first link's message. In
/// particular the rendering of a kind-only error contains the kind's fixed
/// description.
pub proof fn lemma_render_contains_msg(chain: Seq<Link>)
    requires
        chain.len() >= 1,
    ensures
        contains_seq(spec_render(chain), chain[0].msg),
{
    let head = "{ inner: "@;
    let tail = (if chain.len() > 1 {
        ", cause: "@ + spec_render(chain.skip(1))
    } else {
        Seq::<char>::empty()
    }) + trace_clause(chain[0].trace) + " }"@;
    lemma_contains_seq_refl(chain[0].msg);
    lemma_contains_seq_append(chain[0].msg, tail, chain[0].msg);
    lemma_contains_seq_prepend(head, chain[0].msg + tail, chain[0].msg);
    assert(spec_render(chain) =~= head + (chain[0].msg + tail));
}

/// Law: a rendered chain contains the rendering of its cause chain
/// verbatim, as the `, cause:` clause.
#[verifier::rlimit(50)]
pub proof fn lemma_render_contains_cause_render(chain: Seq<Link>)
    requires
        chain.len() >= 1,
    ensures
        contains_seq(spec_render(chain), spec_render(chain.skip(1))),
{
    let rest = spec_render(chain.skip(1));
    if chain.len() > 1 {
        let head = "{ inner: "@ + chain[0].msg + ", cause: "@;
        let tail = trace_clause(chain[0].trace) + " }"@;
        lemma_contains_seq_refl(rest);
        lemma_contains_seq_append(rest, tail, rest);
        lemma_contains_seq_prepend(head, rest + tail, rest);
        assert(spec_render(chain) =~= head + (rest + tail));
    } else {
        assert(chain.skip(1).len() == 0);
        lemma_contains_seq_empty(spec_render(chain));
        assert(rest =~= Seq::<char>::empty());
    }
}

/// Law: the rendering of a kind-only error contains the kind's fixed
/// description.
pub proof fn lemma_from_kind_render_contains_description<K: Kind>(k: K)
    ensures
        contains_seq(
            spec_render((ContextView { kind: k, cause: Seq::<Link>::empty(), trace: None }).chain()),
            k.spec_description(),
        ),
{
    let v = ContextView { kind: k, cause: Seq::<Link>::empty(), trace: None };
    lemma_render_contains_msg(v.chain());
}

/// Law: attaching a kind to any cause yields a context whose rendering
/// contains both the kind's description and the cause's own rendering
/// verbatim.
pub proof fn lemma_attach_context_render<K: Kind>(kind: K, cause: Seq<Link>)
    ensures
        contains_seq(
            spec_render((ContextView { kind, cause, trace: None }).chain()),
            kind.spec_description(),
        ),
        contains_seq(spec_render((ContextView { kind, cause, trace: None }).chain()), spec_render(cause)),
{
    let v = ContextView { kind, cause, trace: None };
    lemma_render_contains_msg(v.chain());
    lemma_render_contains_cause_render(v.chain());
    assert(v.chain().skip(1) =~= cause);
}

/// Law: the conversion bridge nests rather than rewrites. The rendering of
/// a converted error contains the rendering of the whole original error
/// verbatim.
pub proof fn lemma_convert_render<K1: KindInto<K2>, K2: Kind>(e: ContextView<K1>)
    ensures
        contains_seq(
            spec_render(
                (ContextView {
                    kind: e.kind.spec_kind_into(),
                    cause: e.chain(),
                    trace: None,
                }).chain(),
            ),
            spec_render(e.chain()),
        ),
{
    let v = ContextView { kind: e.kind.spec_kind_into(), cause: e.chain(), trace: None };
    lemma_render_contains_cause_render(v.chain());
    assert(v.chain().skip(1) =~= e.chain());
}

} // verus!
