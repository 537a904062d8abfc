//! The check of a profile's document before anything is switched.
//!
//! The caller reads the document, within its time limit, and reports what
//! came of it as a [`DocumentRead`]. A document that was read is held to be
//! valid when the YAML parser accepts it. Every other report, and a document
//! that the parser refuses, yields the notice that tells the user why the
//! switch did not happen.

use crate::notice::{Notice, NoticeKind, NoticeModel};
use crate::text::join;
use vstd::prelude::*;

verus! {

/// What came of reading the target's document.
#[derive(Debug, PartialEq, Eq)]
pub enum DocumentRead {
    /// There is no file at `path`.
    Missing { path: String },
    /// The file could not be read.
    ReadFailed { detail: String },
    /// The read did not finish within its time limit.
    ReadTimedOut,
    /// The syntax check was handed to a worker that did not finish it.
    ParseAborted { detail: String },
    /// The file's text.
    Content { text: String },
}

/// What the notice says when the read outlasts its limit.
pub open spec fn read_timeout_text() -> Seq<char> {
    "Reading config file timed out (5s)"@
}

/// The error with which the YAML parser refuses `text`; `None` where it
/// accepts it.
pub uninterp spec fn yaml_syntax_error(text: Seq<char>) -> Option<Seq<char>>;

/// Runs `serde_yaml::from_str` on the text, asking for a `serde_yaml::Value`.
/// Trusted: the parser's answer depends on the text alone, so it is given the
/// name [`yaml_syntax_error`]. The result is `None` where the parser returns
/// a value and the error's display text where it returns an error.
#[verifier::external_body]
fn yaml_parse_failure(text: &str) -> (failure: Option<String>)
    ensures
        failure.deep_view() == yaml_syntax_error(text@),
{
    match serde_yaml::from_str::<serde_yaml::Value>(text) {
        Ok(_) => None,
        Err(error) => Some(error.to_string()),
    }
}

/// The syntax verdict that matters for a report: the parser's on a document
/// that was read, none otherwise.
pub open spec fn syntax_verdict(read: DocumentRead) -> Option<Seq<char>> {
    match read {
        DocumentRead::Content { text } => yaml_syntax_error(text@),
        _ => None,
    }
}

/// The notice that a report calls for, given the parser's verdict on the
/// document where one was read; `None` where the document stands.
pub open spec fn refusal(read: DocumentRead, syntax_error: Option<Seq<char>>) -> Option<
    NoticeModel,
> {
    match read {
        DocumentRead::Missing { path } => Some(
            NoticeModel { kind: NoticeKind::FileNotFound, detail: path@ },
        ),
        DocumentRead::ReadFailed { detail } => Some(
            NoticeModel {
                kind: NoticeKind::FileReadError,
                detail: "Failed to read target profile file: "@ + detail@,
            },
        ),
        DocumentRead::ReadTimedOut => Some(
            NoticeModel { kind: NoticeKind::FileReadTimeout, detail: read_timeout_text() },
        ),
        DocumentRead::ParseAborted { detail } => Some(
            NoticeModel {
                kind: NoticeKind::YamlParseError,
                detail: "YAML parse task failed: "@ + detail@,
            },
        ),
        DocumentRead::Content { text } => match syntax_error {
            Some(error) => Some(
                NoticeModel { kind: NoticeKind::YamlSyntaxError, detail: " "@ + error },
            ),
            None => None,
        },
    }
}

/// The view of a verdict on a document.
pub open spec fn verdict_model(verdict: Result<(), Notice>) -> Option<NoticeModel> {
    match verdict {
        Ok(_) => None,
        Err(notice) => Some(notice@),
    }
}

/// Judges a report, given the parser's verdict on the document where one was
/// read. `Ok` means the switch may go on.
pub fn judge_document(read: &DocumentRead, syntax_error: &Option<String>) -> (verdict: Result<
    (),
    Notice,
>)
    ensures
        verdict_model(verdict) == refusal(*read, syntax_error.deep_view()),
{
    match read {
        DocumentRead::Missing { path } => Err(
            Notice { kind: NoticeKind::FileNotFound, detail: path.clone() },
        ),
        DocumentRead::ReadFailed { detail } => Err(
            Notice {
                kind: NoticeKind::FileReadError,
                detail: join("Failed to read target profile file: ", detail.as_str()),
            },
        ),
        DocumentRead::ReadTimedOut => Err(
            Notice {
                kind: NoticeKind::FileReadTimeout,
                detail: "Reading config file timed out (5s)".to_owned(),
            },
        ),
        DocumentRead::ParseAborted { detail } => Err(
            Notice {
                kind: NoticeKind::YamlParseError,
                detail: join("YAML parse task failed: ", detail.as_str()),
            },
        ),
        DocumentRead::Content { text } => match syntax_error {
            Some(error) => Err(
                Notice { kind: NoticeKind::YamlSyntaxError, detail: join(" ", error.as_str()) },
            ),
            None => Ok(()),
        },
    }
}

/// Judges a report, running the YAML parser on the document where one was
/// read.
pub fn validate_document(read: &DocumentRead) -> (verdict: Result<(), Notice>)
    ensures
        verdict_model(verdict) == refusal(*read, syntax_verdict(*read)),
{
    let syntax_error = match read {
        DocumentRead::Content { text } => yaml_parse_failure(text.as_str()),
        _ => None,
    };
    judge_document(read, &syntax_error)
}

} // verus!
