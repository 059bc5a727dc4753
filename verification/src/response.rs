//! The response that ends a build.

use crate::text::texts;
use vstd::prelude::*;
use vstd::string::StringExecFns;

verus! {

/// What a caller of the service receives, whatever became of the build.
pub struct BuildResponse {
    /// `"success"` where the compiler ran, `"error"` where the service failed.
    pub status: String,
    pub logs: Vec<String>,
    /// The encoded artifact; empty where the compiler ran and left none.
    pub binary: Option<String>,
    pub message: Option<String>,
}

/// A response as plain values.
pub struct ResponseView {
    pub status: Seq<char>,
    pub logs: Seq<Seq<char>>,
    pub binary: Option<Seq<char>>,
    pub message: Option<Seq<char>>,
}

/// The view of a string that may be absent.
pub open spec fn optional_text(s: Option<String>) -> Option<Seq<char>> {
    match s {
        Some(t) => Some(t@),
        None => None,
    }
}

impl View for BuildResponse {
    type V = ResponseView;

    open spec fn view(&self) -> ResponseView {
        ResponseView {
            status: self.status@,
            logs: texts(self.logs@),
            binary: optional_text(self.binary),
            message: optional_text(self.message),
        }
    }
}

/// The response of a build whose compiler ran to its end: the log, and the
/// encoded artifact or the empty text.
pub open spec fn completed(logs: Seq<Seq<char>>, binary: Seq<char>) -> ResponseView {
    ResponseView { status: "success"@, logs: logs, binary: Some(binary), message: None }
}

/// The one log line of a build that the service could not run.
pub open spec fn internal_error_line(description: Seq<char>) -> Seq<char> {
    "Internal Error: "@ + description
}

/// The response of a build that the service could not run: the description
/// of the error is the message, and the only log line holds it too.
pub open spec fn failed(description: Seq<char>) -> ResponseView {
    ResponseView {
        status: "error"@,
        logs: seq![internal_error_line(description)],
        binary: None,
        message: Some(description),
    }
}

impl BuildResponse {
    /// The response of a build whose compiler ran to its end.
    pub fn completed(logs: Vec<String>, binary: String) -> (response: BuildResponse)
        ensures
            response@ == completed(texts(logs@), binary@),
    {
        BuildResponse {
            status: String::from_str("success"),
            logs: logs,
            binary: Some(binary),
            message: None,
        }
    }

    /// The response of a build that the service could not run: a file that
    /// could not be staged, a compiler that could not be started, an artifact
    /// that could not be read.
    pub fn failure(description: &str) -> (response: BuildResponse)
        ensures
            response@ == failed(description@),
    {
        let line = String::from_str("Internal Error: ").concat(description);
        let mut logs: Vec<String> = Vec::new();
        logs.push(line);
        assert(texts(logs@) =~= seq![internal_error_line(description@)]);
        BuildResponse {
            status: String::from_str("error"),
            logs: logs,
            binary: None,
            message: Some(String::from_str(description)),
        }
    }
}

} // verus!
