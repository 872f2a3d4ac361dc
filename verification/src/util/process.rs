//! Extraction of an external tool's output: which handle or text to hand
//! back, and which error chain to report when the tool gave none.
//!
//! The callers own the process plumbing: they pass the child's stdout
//! handle and the already-read stderr text (or the reading failure's
//! message) in, and the decisions and error chains are built here.

use vstd::prelude::*;
use vstd::utf8::decode_utf8;
use vstd::utf8::valid_utf8;

use crate::error::Context;
use crate::error::Error;
use crate::error::ErrorKind;
use crate::error::FailNode;
use crate::error::Kind;
use crate::error::KindInto;
use crate::error::Link;
use crate::error::attach_context;
use crate::error::custom::CodeMsgError;
use crate::error::custom::MsgError;
use crate::error::custom::opt_code_view;

verus! {

/// Relies on `String::from_utf8`: it returns the bytes decoded as UTF-8
/// exactly when they are valid UTF-8, and an error otherwise, mapped here
/// to that error's message.
#[verifier::external_body]
fn string_from_utf8(bytes: Vec<u8>) -> (r: Result<String, String>)
    ensures
        r is Ok <==> valid_utf8(bytes@),
        r matches Ok(s) ==> s@ == decode_utf8(bytes@),
{
    match String::from_utf8(bytes) {
        Ok(s) => Ok(s),
        Err(e) => Err(e.to_string()),
    }
}

/// Picks a child's stdout handle, or explains from its stderr why there is
/// none. `stdout` is the handle if the child had one; `stderr` is `None`
/// when the child had no stderr handle either, and otherwise the stderr
/// text read from it (or, in `Err`, the message of the failure that reading
/// raised).
pub fn extract_child_stdout<S, K: Kind>(stdout: Option<S>, stderr: Option<Result<String, String>>) -> (r:
    Result<S, Error<K>>) where ErrorKind: KindInto<K>
    ensures
        r is Ok <==> stdout is Some,
        stdout matches Some(v) ==> (r matches Ok(o) && o == v),
        stdout is None && stderr is None ==> (r matches Err(e) && e@.kind
            == ErrorKind::StderrEmpty.spec_kind_into() && e@.cause == seq![
            (Link { msg: ErrorKind::StderrEmpty.spec_description(), trace: None }),
        ]),
        stderr matches Some(Err(m)) ==> stdout is None ==> (r matches Err(e) && e@.kind
            == ErrorKind::StderrRead.spec_kind_into() && e@.cause.len() == 2 && e@.cause[0] == (
        Link { msg: ErrorKind::StderrRead.spec_description(), trace: None }) && e@.cause[1] == (
        Link { msg: m@, trace: None })),
        stderr matches Some(Ok(m)) ==> stdout is None ==> (r matches Err(e) && e@.kind
            == ErrorKind::StderrValidMsg.spec_kind_into() && e@.cause.len() == 2 && e@.cause[0]
            == (Link { msg: ErrorKind::StderrValidMsg.spec_description(), trace: None })
            && e@.cause[1] == (Link { msg: "{ msg: "@ + m@ + " }"@, trace: None })),
        r matches Err(e) ==> (e@.trace is None),
{
    match stdout {
        Some(s) => Ok(s),
        None => match stderr {
            None => {
                let ctx = Context::new(ErrorKind::StderrEmpty);
                let e = Error::from(ctx);
                proof {
                    assert(e@.cause =~= seq![
                        (Link { msg: ErrorKind::StderrEmpty.spec_description(), trace: None }),
                    ]);
                }
                Err(e)
            },
            Some(Err(m)) => {
                let ghost msg_view = m@;
                let ctx = attach_context(FailNode::new(m), ErrorKind::StderrRead);
                let e = Error::from(ctx);
                proof {
                    assert(e@.cause =~= seq![
                        (Link { msg: ErrorKind::StderrRead.spec_description(), trace: None }),
                        (Link { msg: msg_view, trace: None }),
                    ]);
                }
                Err(e)
            },
            Some(Ok(m)) => {
                let ctx = attach_context(MsgError::new(m.as_str()), ErrorKind::StderrValidMsg);
                let e = Error::from(ctx);
                proof {
                    assert(e@.cause =~= seq![
                        (Link { msg: ErrorKind::StderrValidMsg.spec_description(), trace: None }),
                        (Link { msg: "{ msg: "@ + m@ + " }"@, trace: None }),
                    ]);
                }
                Err(e)
            },
        },
    }
}

/// Turns a finished child's output into its stdout text. On success the
/// stdout bytes are decoded; on failure the stderr bytes are decoded and
/// reported together with the exit code as a child-output error. Either
/// decoding can itself fail, which is reported as the matching UTF-8
/// conversion error.
pub fn extract_output_stdout_str<K: Kind>(
    success: bool,
    code: Option<i32>,
    stdout: Vec<u8>,
    stderr: Vec<u8>,
) -> (r: Result<String, Error<K>>) where ErrorKind: KindInto<K>
    ensures
        r is Ok <==> success && valid_utf8(stdout@),
        r matches Ok(s) ==> (s@ == decode_utf8(stdout@)),
        success && !valid_utf8(stdout@) ==> (r matches Err(e) && e@.kind
            == ErrorKind::StdoutUtf8Conversion.spec_kind_into() && e@.cause.len() == 2
            && e@.cause[0] == (Link {
            msg: ErrorKind::StdoutUtf8Conversion.spec_description(),
            trace: None,
        })),
        !success && valid_utf8(stderr@) ==> (r matches Err(e) && e@.kind
            == ErrorKind::ChildOutput.spec_kind_into() && e@.cause == seq![
            (Link { msg: ErrorKind::ChildOutput.spec_description(), trace: None }),
            (Link {
                msg: "{ code: "@ + opt_code_view(code) + ", msg: "@ + decode_utf8(stderr@) + " }"@,
                trace: None,
            }),
        ]),
        !success && !valid_utf8(stderr@) ==> (r matches Err(e) && e@.kind
            == ErrorKind::StderrUtf8Conversion.spec_kind_into() && e@.cause.len() == 2
            && e@.cause[0] == (Link {
            msg: ErrorKind::StderrUtf8Conversion.spec_description(),
            trace: None,
        })),
        r matches Err(e) ==> (e@.trace is None),
{
    if success {
        match string_from_utf8(stdout) {
            Ok(s) => Ok(s),
            Err(m) => {
                let ghost msg_view = m@;
                let ctx = attach_context(FailNode::new(m), ErrorKind::StdoutUtf8Conversion);
                let e = Error::from(ctx);
                proof {
                    assert(e@.cause =~= seq![
                        (Link {
                            msg: ErrorKind::StdoutUtf8Conversion.spec_description(),
                            trace: None,
                        }),
                        (Link { msg: msg_view, trace: None }),
                    ]);
                }
                Err(e)
            },
        }
    } else {
        match string_from_utf8(stderr) {
            Ok(m) => {
                let err = CodeMsgError::new(code, m.as_str());
                let ctx = attach_context(err, ErrorKind::ChildOutput);
                let e = Error::from(ctx);
                proof {
                    assert(e@.cause =~= seq![
                        (Link { msg: ErrorKind::ChildOutput.spec_description(), trace: None }),
                        (Link {
                            msg: "{ code: "@ + opt_code_view(code) + ", msg: "@ + decode_utf8(
                                stderr@,
                            ) + " }"@,
                            trace: None,
                        }),
                    ]);
                }
                Err(e)
            },
            Err(m) => {
                let ghost msg_view = m@;
                let ctx = attach_context(FailNode::new(m), ErrorKind::StderrUtf8Conversion);
                let e = Error::from(ctx);
                proof {
                    assert(e@.cause =~= seq![
                        (Link {
                            msg: ErrorKind::StderrUtf8Conversion.spec_description(),
                            trace: None,
                        }),
                        (Link { msg: msg_view, trace: None }),
                    ]);
                }
                Err(e)
            },
        }
    }
}

} // verus!
