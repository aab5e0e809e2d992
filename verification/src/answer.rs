//! Conversion of external-process outcomes into display text: the fixed
//! response schema of the remote question-answering service, the textual
//! transform applied to its answer, and the error texts for every failure
//! mode. Every failure degrades to visible text; nothing here panics.

use crate::textops::chars_to_string;
use crate::textops::replace_all;
use crate::textops::replace_all_exec;
use crate::textops::str_to_chars;
use vstd::prelude::*;
use vstd::string::StrSliceExecFns;
use vstd::string::StringExecFns;

verus! {

/// The emphasis marker deleted from answer text.
pub open spec fn bold_marker() -> Seq<char> {
    seq!['*', '*']
}

/// The bullet marker that turns into a line break with the icon.
pub open spec fn bullet_marker() -> Seq<char> {
    seq!['*', ' ']
}

/// What a bullet marker becomes: a line break followed by the icon.
pub open spec fn icon_break() -> Seq<char> {
    seq!['\n', '\u{1F4DD}']
}

/// The display transform of a successful answer: every `**` deleted,
/// then every `* ` replaced by a line break and the icon marker.
pub open spec fn transform_spec(t: Seq<char>) -> Seq<char> {
    replace_all(replace_all(t, bold_marker(), Seq::empty()), bullet_marker(), icon_break())
}

/// Applies [`transform_spec`] to answer text.
pub fn transform_answer(t: &Vec<char>) -> (r: Vec<char>)
    ensures
        r@ == transform_spec(t@),
{
    let mut pat_bold: Vec<char> = Vec::new();
    pat_bold.push('*');
    pat_bold.push('*');
    let rep_bold: Vec<char> = Vec::new();
    let mut pat_bullet: Vec<char> = Vec::new();
    pat_bullet.push('*');
    pat_bullet.push(' ');
    let mut rep_bullet: Vec<char> = Vec::new();
    rep_bullet.push('\n');
    rep_bullet.push('\u{1F4DD}');
    proof {
        assert(pat_bold@ =~= bold_marker());
        assert(rep_bold@ =~= Seq::<char>::empty());
        assert(pat_bullet@ =~= bullet_marker());
        assert(rep_bullet@ =~= icon_break());
    }
    let mid = replace_all_exec(t, &pat_bold, &rep_bold);
    replace_all_exec(&mid, &pat_bullet, &rep_bullet)
}

/// The text that the fixed response schema yields for a raw response
/// document: `Some` of the characters of the string reached by the path
/// `candidates → content → content → parts[0] → text` when the document
/// is JSON of exactly that shape, `None` for any other document.
pub uninterp spec fn extracted_text(raw: Seq<char>) -> Option<Seq<char>>;

/// Relies on `serde_json::from_str::<Value>` and on
/// `serde_json::Value::get` and `Value::as_str`: parsing is a function of
/// the input characters alone, `get` walks one level of the document, and
/// `as_str` yields the string exactly when the value is one.
#[verifier::external_body]
fn extract_text(raw: &str) -> (r: Option<String>)
    ensures
        match r {
            Some(t) => extracted_text(raw@) == Some(t@),
            None => extracted_text(raw@) is None,
        },
{
    let doc: serde_json::Value = serde_json::from_str(raw).ok()?;
    let part = doc.get("candidates")?.get("content")?.get("content")?.get("parts")?.get(0)?.get(
        "text",
    )?;
    Some(part.as_str()?.to_string())
}

/// The text shown when a response does not match the schema.
pub open spec fn parse_error_text() -> Seq<char> {
    "Erro ao interpretar resposta da API."@
}

/// The display text for a raw response document: the transformed answer
/// of a document that matches the schema, the parse-failure text for any
/// other document.
pub open spec fn response_text_spec(raw: Seq<char>) -> Seq<char> {
    match extracted_text(raw) {
        Some(t) => transform_spec(t),
        None => parse_error_text(),
    }
}

/// Turns a raw response document into display text, degrading a schema
/// mismatch to the parse-failure text.
pub fn answer_from_response(raw: &str) -> (r: String)
    ensures
        r@ == response_text_spec(raw@),
{
    match extract_text(raw) {
        Some(t) => {
            let chars = str_to_chars(t.as_str());
            let shown = transform_answer(&chars);
            chars_to_string(&shown)
        },
        None => String::from_str("Erro ao interpretar resposta da API."),
    }
}

/// How running an external process ended, as the background task sees
/// it: it ran to completion with captured output streams, or the
/// operating system could not start it.
#[derive(Debug)]
pub enum ProcOutcome {
    /// The process ran; `success` tells whether it exited successfully.
    Finished { success: bool, out_text: String, err_text: String },
    /// The process could not be started.
    LaunchFailed { reason: String },
}

/// The display text of a local command's outcome: its standard output on
/// success, an error line embedding its standard error on a failing exit,
/// an error line embedding the description when it could not start.
pub open spec fn command_text_spec(o: ProcOutcome) -> Seq<char> {
    match o {
        ProcOutcome::Finished { success, out_text, err_text } => {
            if success {
                out_text@
            } else {
                "Erro: "@ + err_text@
            }
        },
        ProcOutcome::LaunchFailed { reason } => "Falha ao executar: "@ + reason@,
    }
}

/// Converts a local command's outcome into display text.
pub fn command_result_text(o: &ProcOutcome) -> (r: String)
    ensures
        r@ == command_text_spec(*o),
{
    match o {
        ProcOutcome::Finished { success, out_text, err_text } => {
            if *success {
                out_text.clone()
            } else {
                String::from_str("Erro: ").concat(err_text.as_str())
            }
        },
        ProcOutcome::LaunchFailed { reason } => {
            String::from_str("Falha ao executar: ").concat(reason.as_str())
        },
    }
}

/// The display text of a query invocation's outcome: the (transformed or
/// degraded) response text on success, an error line embedding standard
/// error on a failing exit, an error line embedding the description when
/// the query process could not start.
pub open spec fn query_text_spec(o: ProcOutcome) -> Seq<char> {
    match o {
        ProcOutcome::Finished { success, out_text, err_text } => {
            if success {
                response_text_spec(out_text@)
            } else {
                "Erro ao obter resposta da API: "@ + err_text@
            }
        },
        ProcOutcome::LaunchFailed { reason } => "Falha ao executar: "@ + reason@,
    }
}

/// Converts a query invocation's outcome into display text.
pub fn query_result_text(o: &ProcOutcome) -> (r: String)
    ensures
        r@ == query_text_spec(*o),
{
    match o {
        ProcOutcome::Finished { success, out_text, err_text } => {
            if *success {
                answer_from_response(out_text.as_str())
            } else {
                String::from_str("Erro ao obter resposta da API: ").concat(err_text.as_str())
            }
        },
        ProcOutcome::LaunchFailed { reason } => {
            String::from_str("Falha ao executar: ").concat(reason.as_str())
        },
    }
}

} // verus!
