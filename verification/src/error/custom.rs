//! Payload-carrying structured error variants. Each one is a pure data
//! carrier implementing the failure capability: construction is total, the
//! payload fields stay readable, and the rendered shape embeds them
//! literally. The wrapping variants (`PathError`, `QueryError`,
//! `TargetStringError`) chain an inner cause; the rest are leaves.

use vstd::prelude::*;
use vstd::string::StrSliceExecFns;
use vstd::string::StringExecFns;

use crate::error::Fail;
use crate::error::FailNode;
use crate::error::Link;
use crate::error::lemma_render_contains_cause_render;
use crate::error::lemma_render_contains_msg;
use crate::error::spec_render;
use crate::text::contains_seq;
use crate::text::lemma_contains_seq_append;
use crate::text::lemma_contains_seq_prepend;
use crate::text::lemma_contains_seq_refl;
use crate::text::lemma_contains_seq_trans;
use crate::text::spec_dec;
use crate::text::spec_int_str;
use crate::text::i32_to_string;
use crate::text::u64_to_string;

verus! {

/// A regular expression of the `regex` crate, carried opaquely so that the
/// regex-related variants can keep their construction signature.
#[verifier::external_type_specification]
#[verifier::external_body]
pub struct ExRegex(regex::Regex);

/// Relies on `regex::Regex::as_str`, which returns the pattern string the
/// regex was compiled from; nothing about the returned text is assumed.
pub assume_specification<'a>[ regex::Regex::as_str ](re: &'a regex::Regex) -> &'a str;

/// A value that knows how to render itself for diagnostics.
pub trait ValueDisplay: Sized {
    /// The value's rendered text.
    spec fn display_view(&self) -> Seq<char>;

    /// Renders the value.
    fn display_string(&self) -> (r: String)
        ensures
            r@ == self.display_view(),
    ;
}

impl ValueDisplay for i32 {
    open spec fn display_view(&self) -> Seq<char> {
        spec_int_str(*self as int)
    }

    fn display_string(&self) -> (r: String) {
        i32_to_string(*self)
    }
}

impl ValueDisplay for u64 {
    open spec fn display_view(&self) -> Seq<char> {
        spec_dec(*self as int)
    }

    fn display_string(&self) -> (r: String) {
        u64_to_string(*self)
    }
}

impl ValueDisplay for usize {
    open spec fn display_view(&self) -> Seq<char> {
        spec_dec(*self as int)
    }

    fn display_string(&self) -> (r: String) {
        u64_to_string(*self as u64)
    }
}

impl ValueDisplay for String {
    open spec fn display_view(&self) -> Seq<char> {
        self@
    }

    fn display_string(&self) -> (r: String) {
        self.clone()
    }
}

/// The rendered text of an optional numeric exit code.
pub open spec fn opt_code_view(code: Option<i32>) -> Seq<char> {
    match code {
        Some(v) => "Some("@ + spec_int_str(v as int) + ")"@,
        None => "None"@,
    }
}

/// A leaf failure carrying an optional numeric code and a message, rendered
/// `{ code: <code>, msg: <message> }`.
#[derive(Debug)]
pub struct CodeMsgError {
    pub code: Option<i32>,
    pub msg: String,
}

impl CodeMsgError {
    pub fn new(code: Option<i32>, msg: &str) -> (r: CodeMsgError)
        ensures
            r.code == code,
            r.msg@ == msg@,
    {
        CodeMsgError { code, msg: msg.to_owned() }
    }
}

impl Fail for CodeMsgError {
    open spec fn chain(&self) -> Seq<Link> {
        seq![
            Link {
                msg: "{ code: "@ + opt_code_view(self.code) + ", msg: "@ + self.msg@ + " }"@,
                trace: None,
            },
        ]
    }

    fn into_fail(self) -> (r: FailNode) {
        let code_s = match self.code {
            Some(v) => "Some(".to_owned().concat(i32_to_string(v).as_str()).concat(")"),
            None => "None".to_owned(),
        };
        let m = "{ code: ".to_owned().concat(code_s.as_str()).concat(", msg: ").concat(
            self.msg.as_str(),
        ).concat(" }");
        let r = FailNode { msg: m, cause: None, trace: None };
        proof {
            assert(r@ =~= self.chain());
        }
        r
    }
}

/// A leaf failure carrying only a message, rendered `{ msg: <message> }`.
#[derive(Debug)]
pub struct MsgError {
    pub msg: String,
}

impl MsgError {
    pub fn new(msg: &str) -> (r: MsgError)
        ensures
            r.msg@ == msg@,
    {
        MsgError { msg: msg.to_owned() }
    }
}

impl Fail for MsgError {
    open spec fn chain(&self) -> Seq<Link> {
        seq![Link { msg: "{ msg: "@ + self.msg@ + " }"@, trace: None }]
    }

    fn into_fail(self) -> (r: FailNode) {
        let m = "{ msg: ".to_owned().concat(self.msg.as_str()).concat(" }");
        let r = FailNode { msg: m, cause: None, trace: None };
        proof {
            assert(r@ =~= self.chain());
        }
        r
    }
}

/// A leaf failure carrying a permission string, rendered
/// `{ perm: <string> }`.
#[derive(Debug)]
pub struct PermError {
    pub perm: String,
}

impl PermError {
    pub fn new(perm: &str) -> (r: PermError)
        ensures
            r.perm@ == perm@,
    {
        PermError { perm: perm.to_owned() }
    }
}

impl Fail for PermError {
    open spec fn chain(&self) -> Seq<Link> {
        seq![Link { msg: "{ perm: "@ + self.perm@ + " }"@, trace: None }]
    }

    fn into_fail(self) -> (r: FailNode) {
        let m = "{ perm: ".to_owned().concat(self.perm.as_str()).concat(" }");
        let r = FailNode { msg: m, cause: None, trace: None };
        proof {
            assert(r@ =~= self.chain());
        }
        r
    }
}

/// The chain of a path-qualified failure wrapping an inner cause chain.
pub open spec fn path_error_chain(path: Seq<char>, inner: Seq<Link>) -> Seq<Link> {
    seq![
        Link { msg: "{ path: "@ + path + ", inner: "@ + inner[0].msg + " }"@, trace: None },
    ] + inner
}

/// A failure that qualifies an inner cause with the file path it concerns,
/// rendered `{ path: <path>, inner: <inner message> }` with the whole inner
/// chain nested beneath it.
#[derive(Debug)]
pub struct PathError<E: Fail> {
    pub path: String,
    pub inner: E,
}

impl<E: Fail> PathError<E> {
    pub fn new(path: &str, inner: E) -> (r: PathError<E>)
        ensures
            r.path@ == path@,
            r.inner == inner,
    {
        PathError { path: path.to_owned(), inner }
    }
}

impl<E: Fail> Fail for PathError<E> {
    open spec fn chain(&self) -> Seq<Link> {
        path_error_chain(self.path@, self.inner.chain())
    }

    fn into_fail(self) -> (r: FailNode) {
        let inner_node = self.inner.into_fail();
        proof {
            assert(inner_node@[0].msg == inner_node.msg@);
        }
        let m = "{ path: ".to_owned().concat(self.path.as_str()).concat(", inner: ").concat(
            inner_node.msg.as_str(),
        ).concat(" }");
        let r = FailNode { msg: m, cause: Some(Box::new(inner_node)), trace: None };
        proof {
            assert(r@ =~= self.chain());
        }
        r
    }
}

/// A failure that qualifies an inner cause with the query it concerns,
/// rendered `{ query: <query>, inner: <inner message> }` with the whole
/// inner chain nested beneath it.
#[derive(Debug)]
pub struct QueryError<E: Fail> {
    pub query: String,
    pub inner: E,
}

impl<E: Fail> QueryError<E> {
    pub fn new(query: &str, inner: E) -> (r: QueryError<E>)
        ensures
            r.query@ == query@,
            r.inner == inner,
    {
        QueryError { query: query.to_owned(), inner }
    }
}

impl<E: Fail> Fail for QueryError<E> {
    open spec fn chain(&self) -> Seq<Link> {
        seq![
            Link {
                msg: "{ query: "@ + self.query@ + ", inner: "@ + self.inner.chain()[0].msg + " }"@,
                trace: None,
            },
        ] + self.inner.chain()
    }

    fn into_fail(self) -> (r: FailNode) {
        let inner_node = self.inner.into_fail();
        proof {
            assert(inner_node@[0].msg == inner_node.msg@);
        }
        let m = "{ query: ".to_owned().concat(self.query.as_str()).concat(", inner: ").concat(
            inner_node.msg.as_str(),
        ).concat(" }");
        let r = FailNode { msg: m, cause: Some(Box::new(inner_node)), trace: None };
        proof {
            assert(r@ =~= self.chain());
        }
        r
    }
}

/// A failure that qualifies an inner cause with a target string, rendered
/// `{ target: <target>, inner: <inner message> }` with the whole inner
/// chain nested beneath it.
#[derive(Debug)]
pub struct TargetStringError<E: Fail> {
    pub target: String,
    pub inner: E,
}

impl<E: Fail> TargetStringError<E> {
    pub fn new(target: &str, inner: E) -> (r: TargetStringError<E>)
        ensures
            r.target@ == target@,
            r.inner == inner,
    {
        TargetStringError { target: target.to_owned(), inner }
    }
}

impl<E: Fail> Fail for TargetStringError<E> {
    open spec fn chain(&self) -> Seq<Link> {
        seq![
            Link {
                msg: "{ target: "@ + self.target@ + ", inner: "@ + self.inner.chain()[0].msg
                    + " }"@,
                trace: None,
            },
        ] + self.inner.chain()
    }

    fn into_fail(self) -> (r: FailNode) {
        let inner_node = self.inner.into_fail();
        proof {
            assert(inner_node@[0].msg == inner_node.msg@);
        }
        let m = "{ target: ".to_owned().concat(self.target.as_str()).concat(", inner: ").concat(
            inner_node.msg.as_str(),
        ).concat(" }");
        let r = FailNode { msg: m, cause: Some(Box::new(inner_node)), trace: None };
        proof {
            assert(r@ =~= self.chain());
        }
        r
    }
}

/// A leaf failure recording that a regex captured nothing on a target,
/// rendered `{ pattern: <pattern>, target: <target> }`.
#[derive(Debug)]
pub struct RegexCaptureError {
    pub pattern: String,
    pub target: String,
}

impl RegexCaptureError {
    /// The pattern field is filled from the regex's own pattern string, of
    /// which nothing further is known here.
    pub fn new(pattern: &regex::Regex, target: &str) -> (r: RegexCaptureError)
        ensures
            r.target@ == target@,
    {
        RegexCaptureError { pattern: pattern.as_str().to_owned(), target: target.to_owned() }
    }
}

impl Fail for RegexCaptureError {
    open spec fn chain(&self) -> Seq<Link> {
        seq![
            Link {
                msg: "{ pattern: "@ + self.pattern@ + ", target: "@ + self.target@ + " }"@,
                trace: None,
            },
        ]
    }

    fn into_fail(self) -> (r: FailNode) {
        let m = "{ pattern: ".to_owned().concat(self.pattern.as_str()).concat(", target: ").concat(
            self.target.as_str(),
        ).concat(" }");
        let r = FailNode { msg: m, cause: None, trace: None };
        proof {
            assert(r@ =~= self.chain());
        }
        r
    }
}

/// A leaf failure recording that a regex captured fewer groups than
/// expected, rendered `{ found len: <n>, expected len: <n>, target:
/// <target>, regex: <pattern> }`.
#[derive(Debug)]
pub struct RegexMinCaptureError {
    pub found_len: usize,
    pub expected_len: usize,
    pub target: String,
    pub re_str: String,
}

impl RegexMinCaptureError {
    /// The pattern field is filled from the regex's own pattern string, of
    /// which nothing further is known here.
    pub fn new(found_len: usize, expected_len: usize, target: &str, re: &regex::Regex) -> (r:
        RegexMinCaptureError)
        ensures
            r.found_len == found_len,
            r.expected_len == expected_len,
            r.target@ == target@,
    {
        RegexMinCaptureError {
            found_len,
            expected_len,
            target: target.to_owned(),
            re_str: re.as_str().to_owned(),
        }
    }
}

impl Fail for RegexMinCaptureError {
    open spec fn chain(&self) -> Seq<Link> {
        seq![
            Link {
                msg: "{ found len: "@ + spec_dec(self.found_len as int) + ", expected len: "@
                    + spec_dec(self.expected_len as int) + ", target: "@ + self.target@
                    + ", regex: "@ + self.re_str@ + " }"@,
                trace: None,
            },
        ]
    }

    fn into_fail(self) -> (r: FailNode) {
        let found = u64_to_string(self.found_len as u64);
        let expected = u64_to_string(self.expected_len as u64);
        let m = "{ found len: ".to_owned().concat(found.as_str()).concat(", expected len: ")
            .concat(expected.as_str()).concat(", target: ").concat(self.target.as_str()).concat(
            ", regex: ",
        ).concat(self.re_str.as_str()).concat(" }");
        let r = FailNode { msg: m, cause: None, trace: None };
        proof {
            assert(r@ =~= self.chain());
        }
        r
    }
}

/// A leaf failure pairing a free-text description with an arbitrary
/// displayable value, rendered `{ desc: <description>, value: <value> }`.
#[derive(Debug)]
pub struct ValueError<T: ValueDisplay> {
    pub desc: String,
    pub value: T,
}

impl<T: ValueDisplay> ValueError<T> {
    pub fn new(desc: &str, value: T) -> (r: ValueError<T>)
        ensures
            r.desc@ == desc@,
            r.value == value,
    {
        ValueError { desc: desc.to_owned(), value }
    }
}

impl<T: ValueDisplay> Fail for ValueError<T> {
    open spec fn chain(&self) -> Seq<Link> {
        seq![
            Link {
                msg: "{ desc: "@ + self.desc@ + ", value: "@ + self.value.display_view() + " }"@,
                trace: None,
            },
        ]
    }

    fn into_fail(self) -> (r: FailNode) {
        let value_s = self.value.display_string();
        let m = "{ desc: ".to_owned().concat(self.desc.as_str()).concat(", value: ").concat(
            value_s.as_str(),
        ).concat(" }");
        let r = FailNode { msg: m, cause: None, trace: None };
        proof {
            assert(r@ =~= self.chain());
        }
        r
    }
}

/// Law: structured variants are literal. The rendering of a path-qualified
/// failure contains the path text exactly, and contains the rendering of
/// the whole inner chain verbatim.
pub proof fn lemma_path_error_render(path: Seq<char>, inner: Seq<Link>)
    requires
        inner.len() >= 1,
    ensures
        contains_seq(spec_render(path_error_chain(path, inner)), path),
        contains_seq(spec_render(path_error_chain(path, inner)), spec_render(inner)),
{
    let chain = path_error_chain(path, inner);
    let msg = chain[0].msg;
    lemma_render_contains_msg(chain);
    lemma_contains_seq_refl(path);
    lemma_contains_seq_prepend("{ path: "@, path, path);
    lemma_contains_seq_append("{ path: "@ + path, ", inner: "@ + inner[0].msg + " }"@, path);
    assert(msg =~= ("{ path: "@ + path) + (", inner: "@ + inner[0].msg + " }"@));
    lemma_contains_seq_trans(spec_render(chain), msg, path);
    lemma_render_contains_cause_render(chain);
    assert(chain.skip(1) =~= inner);
}

} // verus!
