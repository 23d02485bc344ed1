//! The dispatcher: what becomes of one line of input.

use crate::error::RenderError;
use crate::record::{as_record, decode, decoded, parsed_view, Json};
use crate::render::{
    bad_timestamp, process_line, renders, unhighlightable, Rendered, RenderedView,
};
use crate::style::{paint, painted, Colour};
use serde_json::Value;
use vstd::prelude::*;

verus! {

/// How lines are treated, fixed once for a run.
#[derive(Clone, Copy, Debug, PartialEq, Eq, Structural)]
pub enum Mode {
    /// The output is no terminal: every line goes through as it is.
    Passthrough,
    /// The output is a terminal: every line is read as JSON and rendered.
    Interactive,
}

impl Mode {
    /// The mode for an output that is, or is not, a terminal.
    pub fn for_output(terminal: bool) -> (r: Mode)
        ensures
            r == (if terminal {
                Mode::Interactive
            } else {
                Mode::Passthrough
            }),
    {
        if terminal {
            Mode::Interactive
        } else {
            Mode::Passthrough
        }
    }
}

/// What one line of input leads to.
#[derive(Debug, PartialEq, Eq)]
pub enum Outcome {
    /// The line itself, unchanged.
    Passthrough(String),
    /// The record that the line holds, rendered.
    Record(Rendered),
    /// The error block for a line that is not JSON.
    Malformed(String),
    /// Nothing: the line holds JSON, but no object.
    Dropped,
}

/// The characters of an `Outcome`.
pub enum OutcomeView {
    Passthrough(Seq<char>),
    Record(RenderedView),
    Malformed(Seq<char>),
    Dropped,
}

impl View for Outcome {
    type V = OutcomeView;

    open spec fn view(&self) -> OutcomeView {
        match self {
            Outcome::Passthrough(line) => OutcomeView::Passthrough(line@),
            Outcome::Record(out) => OutcomeView::Record(out@),
            Outcome::Malformed(block) => OutcomeView::Malformed(block@),
            Outcome::Dropped => OutcomeView::Dropped,
        }
    }
}

impl OutcomeView {
    /// What is written for the line: one line for a line passed through or for
    /// an error block, the lines of a record, and nothing for a dropped line.
    pub open spec fn text(self) -> Seq<char> {
        match self {
            OutcomeView::Passthrough(line) => line + seq!['\n'],
            OutcomeView::Record(out) => out.text(),
            OutcomeView::Malformed(block) => block + seq!['\n'],
            OutcomeView::Dropped => Seq::<char>::empty(),
        }
    }
}

impl Outcome {
    /// The text to write for the line, line ends included.
    pub fn text(&self) -> (r: String)
        ensures
            r@ == self@.text(),
    {
        proof {
            reveal_strlit("\n");
        }
        match self {
            Outcome::Passthrough(line) => {
                let mut out = line.clone();
                out.append("\n");
                out
            },
            Outcome::Record(out) => out.text(),
            Outcome::Malformed(block) => {
                let mut out = block.clone();
                out.append("\n");
                out
            },
            Outcome::Dropped => String::new(),
        }
    }
}

/// The error block for a line that is not JSON: the parser's message on one
/// line and the line itself on the next, all in red.
pub open spec fn error_block(message: Seq<char>, line: Seq<char>) -> Seq<char> {
    painted(Colour::Red, false, "cannot parse log line: "@ + message + seq!['\n'] + line)
}

/// Renders the error block for `line`, which the parser refused with
/// `message`.
pub fn report_malformed(message: &str, line: &str) -> (r: String)
    ensures
        r@ == error_block(message@, line@),
{
    let mut body = String::from_str("cannot parse log line: ");
    body.append(message);
    proof {
        reveal_strlit("\n");
    }
    body.append("\n");
    body.append(line);
    paint(Colour::Red, body.as_str())
}

/// Whether `r` is what the dispatcher makes, in interactive mode, of a line
/// that the parser read as `parsed`.
pub open spec fn routed(
    parsed: Result<Option<Map<Seq<char>, Json>>, Seq<char>>,
    line: Seq<char>,
    r: Result<Outcome, RenderError>,
) -> bool {
    match parsed {
        Err(message) => r matches Ok(out) && out@ == OutcomeView::Malformed(
            error_block(message, line),
        ),
        Ok(None) => r matches Ok(out) && out@ == OutcomeView::Dropped,
        Ok(Some(fields)) => match r {
            Ok(Outcome::Record(out)) => renders(fields, Ok(out)),
            Ok(_) => false,
            Err(e) => renders(fields, Err(e)),
        },
    }
}

/// Whether `r` is what the dispatcher makes of `line` in `mode`.
pub open spec fn dispatched(mode: Mode, line: Seq<char>, r: Result<Outcome, RenderError>) -> bool {
    match mode {
        Mode::Passthrough => r matches Ok(out) && out@ == OutcomeView::Passthrough(line),
        Mode::Interactive => routed(as_record(decoded(line)), line, r),
    }
}

/// Decides what becomes of a line in interactive mode, once the parser has
/// read it: an object is rendered, any other JSON value is dropped, and the
/// parser's refusal gives an error block with its message and the line.
pub fn route(parsed: Result<Option<serde_json::Map<String, Value>>, String>, line: &str) -> (r:
    Result<Outcome, RenderError>)
    ensures
        routed(parsed_view(parsed), line@, r),
{
    match parsed {
        Ok(Some(record)) => match process_line(record) {
            Ok(out) => Ok(Outcome::Record(out)),
            Err(e) => Err(e),
        },
        Ok(None) => Ok(Outcome::Dropped),
        Err(message) => Ok(Outcome::Malformed(report_malformed(message.as_str(), line))),
    }
}

/// Decides what becomes of one line of input. In passthrough mode the line is
/// handed back untouched and never read as JSON. In interactive mode an
/// object is rendered, a line that is not JSON gives an error block and the
/// run goes on, and any other JSON value is dropped.
pub fn dispatch(mode: Mode, line: &str) -> (r: Result<Outcome, RenderError>)
    ensures
        dispatched(mode, line@, r),
{
    match mode {
        Mode::Passthrough => Ok(Outcome::Passthrough(String::from_str(line))),
        Mode::Interactive => route(decode(line), line),
    }
}

/// In passthrough mode every line comes back as it is, whether or not it
/// holds JSON, and what is written for it is the line and a line end.
pub proof fn lemma_passthrough_is_identity(line: Seq<char>, r: Result<Outcome, RenderError>)
    requires
        dispatched(Mode::Passthrough, line, r),
    ensures
        r is Ok,
        r->Ok_0@ == OutcomeView::Passthrough(line),
        r->Ok_0@.text() == line + seq!['\n'],
{
}

/// A line that is not JSON never ends a run: in either mode it gives an
/// outcome, and in interactive mode that outcome is the error block, which
/// holds the parser's message and the line itself.
pub proof fn lemma_malformed_line_is_reported(
    mode: Mode,
    line: Seq<char>,
    r: Result<Outcome, RenderError>,
)
    requires
        dispatched(mode, line, r),
        decoded(line) is Err,
    ensures
        r is Ok,
        mode == Mode::Interactive ==> r->Ok_0@ == OutcomeView::Malformed(
            error_block(decoded(line)->Err_0, line),
        ),
{
}

/// Only a record can end a run, and only in interactive mode: with a time of
/// event that is not a timestamp, or with remaining fields that cannot be
/// highlighted.
pub proof fn lemma_only_records_fail(mode: Mode, line: Seq<char>, r: Result<Outcome, RenderError>)
    requires
        dispatched(mode, line, r),
        r is Err,
    ensures
        mode == Mode::Interactive,
        decoded(line) matches Ok(Json::Object(fields)) && (bad_timestamp(fields)
            || unhighlightable(fields)),
{
}

} // verus!
