//! The renderer: a record becomes a summary line, a note line where it has a
//! note, and a highlighted block for the fields that no rule covers.

use crate::clock::{is_offset, is_timestamp};
use crate::error::RenderError;
use crate::formatter::{
    format_field, Field, InFormatter, LevelFormatter, PidFormatter, TextFormatter, WhatFormatter,
    WhenFormatter,
};
use crate::record::{
    has_no_fields, recognized_keys, record_fields, residual_fields, string_field,
    strip_recognized, text_of, Json,
};
use crate::style::{painted, Colour};
use serde_json::Value;
use vstd::prelude::*;

verus! {

/// What one record looks like on the terminal.
#[derive(Debug, PartialEq, Eq)]
pub struct Rendered {
    /// The summary line: time, severity, process, source and context.
    pub primary: String,
    /// The note line, where the record has a note.
    pub note: Option<String>,
    /// The remaining fields as highlighted JSON, where any remain.
    pub residual: Option<String>,
}

/// The characters of a `Rendered`.
pub struct RenderedView {
    pub primary: Seq<char>,
    pub note: Option<Seq<char>>,
    pub residual: Option<Seq<char>>,
}

/// What an optional owned text holds.
pub open spec fn owned_view(text: Option<String>) -> Option<Seq<char>> {
    match text {
        Some(t) => Some(t@),
        None => None,
    }
}

impl View for Rendered {
    type V = RenderedView;

    open spec fn view(&self) -> RenderedView {
        RenderedView {
            primary: self.primary@,
            note: owned_view(self.note),
            residual: owned_view(self.residual),
        }
    }
}

impl RenderedView {
    /// What is written for the record: the summary line, then the note line,
    /// then the block, each with its line end; and an empty line at the end
    /// of a record that has a note or a block.
    pub open spec fn text(self) -> Seq<char> {
        self.primary + seq!['\n'] + (match self.note {
            Some(note) => note + seq!['\n'],
            None => Seq::<char>::empty(),
        }) + (match self.residual {
            Some(block) => block + seq!['\n'],
            None => Seq::<char>::empty(),
        }) + (if self.note is Some || self.residual is Some {
            seq!['\n']
        } else {
            Seq::<char>::empty()
        })
    }
}

impl Rendered {
    /// The text to write for the record, line ends included.
    pub fn text(&self) -> (r: String)
        ensures
            r@ == self@.text(),
    {
        proof {
            reveal_strlit("\n");
        }
        let mut out = self.primary.clone();
        out.append("\n");
        if let Some(note) = &self.note {
            out.append(note.as_str());
            out.append("\n");
        }
        if let Some(block) = &self.residual {
            out.append(block.as_str());
            out.append("\n");
        }
        if self.note.is_some() || self.residual.is_some() {
            out.append("\n");
        }
        out
    }
}

/// What colored_json writes for a JSON object with these fields: the object
/// on several lines, indented, each key and value in the colour of its kind;
/// `None` where it reports a failure. The keys come out sorted, as serde_json
/// keeps them, so the fields alone decide the text.
pub uninterp spec fn highlighted(fields: Map<Seq<char>, Json>) -> Option<Seq<char>>;

/// Calls `colored_json::to_colored_json` with `ColorMode::On`, on the record
/// as a `Value::Object`. The contract claims that the text, or the failure,
/// is decided by the fields of the record alone. That holds of a
/// `serde_json::Map` that keeps its keys sorted, which it does unless the
/// feature `preserve_order` is switched on.
#[verifier::external_body]
pub(crate) fn highlight(record: serde_json::Map<String, Value>) -> (r: Result<
    String,
    serde_json::Error,
>)
    ensures
        highlighted(record_fields(record)) == match r {
            Ok(block) => Some(block@),
            Err(_) => None,
        },
{
    colored_json::to_colored_json(&Value::Object(record), colored_json::ColorMode::On)
}

/// Five segments in their order, one blank between two of them.
pub open spec fn summary_line(
    time: Seq<char>,
    level: Seq<char>,
    pid: Seq<char>,
    source: Seq<char>,
    what: Seq<char>,
) -> Seq<char> {
    time + seq![' '] + level + seq![' '] + pid + seq![' '] + source + seq![' '] + what
}

/// The summary line of a record on a clock that is `offset` seconds ahead of
/// UTC: time, severity, process, source and context, each by its own rule.
pub open spec fn primary_line(fields: Map<Seq<char>, Json>, offset: int) -> Seq<char> {
    summary_line(
        WhenFormatter::shown(text_of(fields, "when"@), offset),
        LevelFormatter::styled(text_of(fields, "level"@)),
        PidFormatter::styled(text_of(fields, "pid"@)),
        InFormatter::styled(text_of(fields, "in"@)),
        WhatFormatter::styled(text_of(fields, "what"@)),
    )
}

/// The note line of a record, where it has a note.
pub open spec fn note_line(fields: Map<Seq<char>, Json>) -> Option<Seq<char>> {
    match text_of(fields, "text"@) {
        Some(note) => Some(TextFormatter::styled(note)),
        None => None,
    }
}

/// The block for the fields that no rule covers, where there is any.
pub open spec fn residual_block(fields: Map<Seq<char>, Json>) -> Option<Seq<char>> {
    if residual_fields(fields).is_empty() {
        None
    } else {
        highlighted(residual_fields(fields))
    }
}

/// A record as it is rendered on a clock that is `offset` seconds ahead of
/// UTC.
pub open spec fn rendering(fields: Map<Seq<char>, Json>, offset: int) -> RenderedView {
    RenderedView {
        primary: primary_line(fields, offset),
        note: note_line(fields),
        residual: residual_block(fields),
    }
}

/// The record has a time of event that is not a timestamp.
pub open spec fn bad_timestamp(fields: Map<Seq<char>, Json>) -> bool {
    text_of(fields, "when"@) matches Some(time) && !is_timestamp(time)
}

/// The record has fields that no rule covers, and they cannot be highlighted.
pub open spec fn unhighlightable(fields: Map<Seq<char>, Json>) -> bool {
    !residual_fields(fields).is_empty() && highlighted(residual_fields(fields)) is None
}

/// Whether `r` is what rendering a record with these fields gives. A bad
/// timestamp is reported before anything else; fields that cannot be
/// highlighted are reported next; every other record is rendered, and only the
/// offset of the local clock is left to the machine.
pub open spec fn renders(
    fields: Map<Seq<char>, Json>,
    r: Result<Rendered, RenderError>,
) -> bool {
    if bad_timestamp(fields) {
        r matches Err(e) && e == RenderError::BadTimestamp
    } else if unhighlightable(fields) {
        r matches Err(e) && e == RenderError::Highlight
    } else {
        r matches Ok(out) && exists|offset: int|
            is_offset(offset) && out@ == #[trigger] rendering(fields, offset)
    }
}

/// Joins the five segments of a summary line.
pub fn join_segments(time: &str, level: &str, pid: &str, source: &str, what: &str) -> (r: String)
    ensures
        r@ == summary_line(time@, level@, pid@, source@, what@),
{
    proof {
        reveal_strlit(" ");
    }
    let mut line = String::from_str(time);
    line.append(" ");
    line.append(level);
    line.append(" ");
    line.append(pid);
    line.append(" ");
    line.append(source);
    line.append(" ");
    line.append(what);
    line
}

/// Puts the lines of a record together, given what became of its leftover
/// fields: `None` where there were none, the highlighted block, or the failure
/// to highlight them, which is an error.
pub fn assemble(
    primary: String,
    note: Option<String>,
    block: Option<Result<String, serde_json::Error>>,
) -> (r: Result<Rendered, RenderError>)
    ensures
        match block {
            None => r matches Ok(out) && out@ == (RenderedView {
                primary: primary@,
                note: owned_view(note),
                residual: None,
            }),
            Some(Ok(text)) => r matches Ok(out) && out@ == (RenderedView {
                primary: primary@,
                note: owned_view(note),
                residual: Some(text@),
            }),
            Some(Err(_)) => r matches Err(e) && e == RenderError::Highlight,
        },
{
    let residual = match block {
        None => None,
        Some(Ok(text)) => Some(text),
        Some(Err(_)) => {
            return Err(RenderError::Highlight);
        },
    };
    Ok(Rendered { primary, note, residual })
}

/// Renders one record. The fields `when`, `level`, `pid`, `in` and `what`
/// make the summary line, each missing one shown by its placeholder; `text`
/// makes the note line; then every recognized key is dropped, and what is
/// left, if anything, is written out as highlighted JSON. Only the text of a
/// field counts: a recognized key whose value is no string is shown as missing
/// and dropped all the same.
pub fn process_line(record: serde_json::Map<String, Value>) -> (r: Result<Rendered, RenderError>)
    ensures
        renders(record_fields(record), r),
{
    let ghost fields = record_fields(record);
    let mut record = record;
    let time = format_field(Field::When, string_field(&record, Field::When.key()))?;
    let ghost offset: int = choose|offset: int|
        is_offset(offset) && time@ == #[trigger] WhenFormatter::shown(
            text_of(fields, "when"@),
            offset,
        );
    let level = format_field(Field::Level, string_field(&record, Field::Level.key()))?;
    let pid = format_field(Field::Pid, string_field(&record, Field::Pid.key()))?;
    let source = format_field(Field::In, string_field(&record, Field::In.key()))?;
    let what = format_field(Field::What, string_field(&record, Field::What.key()))?;
    let primary = join_segments(
        time.as_str(),
        level.as_str(),
        pid.as_str(),
        source.as_str(),
        what.as_str(),
    );
    let note = match string_field(&record, "text") {
        Some(text) => Some(TextFormatter::format(Some(text))),
        None => None,
    };
    strip_recognized(&mut record);
    let block = if has_no_fields(&record) {
        None
    } else {
        Some(highlight(record))
    };
    let r = assemble(primary, note, block);
    assert(r matches Ok(out) ==> out@ == rendering(fields, offset));
    r
}

/// What is written for a record, case by case: a record with neither note
/// nor block is its summary line; one with a note, a block or both ends with
/// an empty line.
pub proof fn lemma_empty_line_ends_notes_and_blocks(
    primary: Seq<char>,
    note: Seq<char>,
    block: Seq<char>,
)
    ensures
        (RenderedView { primary, note: None, residual: None }).text() == primary + seq!['\n'],
        (RenderedView { primary, note: Some(note), residual: None }).text() == primary + seq![
            '\n',
        ] + note + seq!['\n', '\n'],
        (RenderedView { primary, note: None, residual: Some(block) }).text() == primary + seq![
            '\n',
        ] + block + seq!['\n', '\n'],
        (RenderedView { primary, note: Some(note), residual: Some(block) }).text() == primary
            + seq!['\n'] + note + seq!['\n'] + block + seq!['\n', '\n'],
{
}

/// The summary line that shows nothing but placeholders: the time, the level
/// in its column of seven between brackets, the process in its column of ten,
/// the bar of an empty source, and an empty context.
pub open spec fn placeholder_line() -> Seq<char> {
    summary_line(
        painted(Colour::Blue, false, "XXXX-XX-XX XX:XX:XX"@),
        painted(Colour::Blue, false, "[XXXXXX ]"@),
        painted(Colour::Blue, false, "XXXXXX    "@),
        painted(Colour::White, false, "| "@),
        painted(Colour::White, false, ""@),
    )
}

/// A record without any recognized field shows the five placeholders, in
/// their order and widths, whatever else it holds and whatever the machine's
/// time zone is; it has no note line, and all of it is left for the block.
pub proof fn lemma_bare_record_shows_placeholders(fields: Map<Seq<char>, Json>, offset: int)
    requires
        forall|key: Seq<char>| recognized_keys().contains(key) ==> !fields.contains_key(key),
    ensures
        primary_line(fields, offset) == placeholder_line(),
        note_line(fields) is None,
        residual_fields(fields) == fields,
{
    reveal_strlit("XXXXXX");
    reveal_strlit("[XXXXXX ]");
    reveal_strlit("XXXXXX    ");
    reveal_strlit("| ");
    reveal_strlit("");
    reveal_strlit("alert");
    reveal_strlit("critical");
    reveal_strlit("error");
    reveal_strlit("warning");
    reveal_strlit("notice");
    reveal_strlit("debug");
    assert("XXXXXX"@[0] == 'X');
}

/// The block is what colored_json writes for the record without its
/// recognized keys. There is no block, rather than an empty one, exactly when
/// every key of the record is recognized. The recognized keys never show in
/// it: the block of a record is the block of what remains of it.
pub proof fn lemma_residual_block(fields: Map<Seq<char>, Json>)
    ensures
        fields.dom().subset_of(recognized_keys()) <==> residual_fields(fields).is_empty(),
        fields.dom().subset_of(recognized_keys()) ==> residual_block(fields) is None,
        !fields.dom().subset_of(recognized_keys()) ==> residual_block(fields) == highlighted(
            fields.remove_keys(recognized_keys()),
        ),
        residual_block(residual_fields(fields)) == residual_block(fields),
{
    let rest = residual_fields(fields);
    if rest.is_empty() {
        assert forall|key: Seq<char>| fields.dom().contains(key) implies recognized_keys().contains(
            key,
        ) by {
            if !recognized_keys().contains(key) {
                assert(rest.dom().contains(key));
            }
        }
    }
    assert(residual_fields(rest) =~= rest);
}

} // verus!
