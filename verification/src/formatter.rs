//! One formatting rule for each field that a log line shows.

use crate::clock::{is_offset, is_timestamp, local_offset, shown_at, time_at, TIME_PATTERN};
use crate::error::RenderError;
use crate::style::{paint, paint_bold, painted, Colour};
use crate::text::{center, centered, left_justified, left_justify, same_text, text_view};
use vstd::prelude::*;

verus! {

/// Shown in place of a missing time of event.
pub const WHEN_PLACEHOLDER: &'static str = "XXXX-XX-XX XX:XX:XX";

/// Shown in place of a missing severity level.
pub const LEVEL_PLACEHOLDER: &'static str = "XXXXXX";

/// Shown in place of a missing process identifier.
pub const PID_PLACEHOLDER: &'static str = "XXXXXX";

/// The width of the severity column, brackets not counted.
pub const LEVEL_WIDTH: usize = 7;

/// The width of the process identifier column.
pub const PID_WIDTH: usize = 10;

/// The rule for the severity level.
pub struct LevelFormatter;

impl LevelFormatter {
    /// The colour of a severity level: red for the three gravest, yellow for
    /// warnings and notices, purple for debug, and blue for `info` and for
    /// every level that has no colour of its own.
    pub open spec fn colour_of(level: Seq<char>) -> Colour {
        if level == "alert"@ || level == "critical"@ || level == "error"@ {
            Colour::Red
        } else if level == "warning"@ || level == "notice"@ {
            Colour::Yellow
        } else if level == "info"@ {
            Colour::Blue
        } else if level == "debug"@ {
            Colour::Purple
        } else {
            Colour::Blue
        }
    }

    /// The severity segment: the level, or the placeholder, centred in its
    /// column between brackets and painted in the level's colour.
    pub open spec fn styled(level: Option<Seq<char>>) -> Seq<char> {
        let shown = match level {
            Some(l) => l,
            None => LEVEL_PLACEHOLDER@,
        };
        painted(
            Self::colour_of(shown),
            false,
            seq!['['] + centered(shown, LEVEL_WIDTH as nat) + seq![']'],
        )
    }

    /// The colour that `level` is painted in.
    pub fn colour(level: &str) -> (r: Colour)
        ensures
            r == Self::colour_of(level@),
    {
        if same_text(level, "alert") || same_text(level, "critical") || same_text(level, "error") {
            Colour::Red
        } else if same_text(level, "warning") || same_text(level, "notice") {
            Colour::Yellow
        } else if same_text(level, "info") {
            Colour::Blue
        } else if same_text(level, "debug") {
            Colour::Purple
        } else {
            Colour::Blue
        }
    }

    /// Renders the severity segment.
    pub fn format(level: Option<&str>) -> (r: String)
        ensures
            r@ == Self::styled(text_view(level)),
    {
        let shown = match level {
            Some(l) => l,
            None => LEVEL_PLACEHOLDER,
        };
        let mut cell = String::from_str("[");
        let column = center(shown, LEVEL_WIDTH);
        cell.append(column.as_str());
        cell.append("]");
        proof {
            reveal_strlit("[");
            reveal_strlit("]");
        }
        paint(Self::colour(shown), cell.as_str())
    }
}

/// A level outside the seven that have a colour of their own is painted in
/// the colour of `info`, and so is the placeholder for a missing level. The
/// segment is a function of the level alone: the same level always gives the
/// same segment.
pub proof fn lemma_unlisted_level_is_painted_as_info(level: Seq<char>)
    requires
        level != "alert"@,
        level != "critical"@,
        level != "error"@,
        level != "warning"@,
        level != "notice"@,
        level != "info"@,
        level != "debug"@,
    ensures
        LevelFormatter::colour_of(level) == LevelFormatter::colour_of("info"@),
        LevelFormatter::colour_of(LEVEL_PLACEHOLDER@) == LevelFormatter::colour_of("info"@),
        LevelFormatter::styled(Some(level)) == painted(
            LevelFormatter::colour_of("info"@),
            false,
            seq!['['] + centered(level, LEVEL_WIDTH as nat) + seq![']'],
        ),
{
    reveal_strlit("alert");
    reveal_strlit("critical");
    reveal_strlit("error");
    reveal_strlit("warning");
    reveal_strlit("notice");
    reveal_strlit("info");
    reveal_strlit("debug");
    reveal_strlit("XXXXXX");
    assert("info"@.len() == 4);
    assert("XXXXXX"@[0] == 'X');
}

/// The rule for the time of event.
pub struct WhenFormatter;

impl WhenFormatter {
    /// The time segment: the local time, or the placeholder, painted blue.
    pub open spec fn styled(local: Option<Seq<char>>) -> Seq<char> {
        painted(
            Colour::Blue,
            false,
            match local {
                Some(t) => t,
                None => WHEN_PLACEHOLDER@,
            },
        )
    }

    /// The time segment of a time of event on a clock that is `offset` seconds
    /// ahead of UTC; the placeholder, whatever the clock, where there is no
    /// time of event.
    pub open spec fn shown(time: Option<Seq<char>>, offset: int) -> Seq<char> {
        Self::styled(
            match time {
                Some(t) => Some(shown_at(t, offset)),
                None => None,
            },
        )
    }

    /// Whether `r` is what becomes of a time of event: the placeholder where
    /// it is missing, the time on the local clock where it is a timestamp,
    /// and an error where it is present and cannot be read.
    pub open spec fn formats(time: Option<Seq<char>>, r: Result<String, RenderError>) -> bool {
        if time matches Some(t) && !is_timestamp(t) {
            r matches Err(e) && e == RenderError::BadTimestamp
        } else {
            r matches Ok(segment) && exists|offset: int|
                is_offset(offset) && segment@ == #[trigger] Self::shown(time, offset)
        }
    }

    /// Paints a time that is already in local time, or the placeholder.
    pub fn style(local: Option<&str>) -> (r: String)
        ensures
            r@ == Self::styled(text_view(local)),
    {
        match local {
            Some(t) => paint(Colour::Blue, t),
            None => paint(Colour::Blue, WHEN_PLACEHOLDER),
        }
    }

    /// Renders the time segment of a timestamp on a clock that is `offset`
    /// seconds ahead of UTC, as `YYYY-MM-DD HH:MM:SS`.
    pub fn at_offset(time: &str, offset: i32) -> (r: String)
        requires
            is_timestamp(time@),
            is_offset(offset as int),
        ensures
            r@ == Self::shown(Some(time@), offset as int),
    {
        let local = time_at(time, offset, TIME_PATTERN);
        Self::style(Some(local.as_str()))
    }

    /// Renders the time segment. A missing time of event gives the
    /// placeholder. One that is present is shown in the local time of the
    /// machine, which decides the offset and nothing else. A time of event
    /// that is no timestamp is not let in: `try_format` tells.
    pub fn format(time: Option<&str>) -> (r: String)
        requires
            time matches Some(t) ==> is_timestamp(t@),
        ensures
            time is None ==> r@ == Self::styled(None),
            exists|offset: int|
                is_offset(offset) && r@ == #[trigger] Self::shown(text_view(time), offset),
    {
        match time {
            None => {
                let r = Self::style(None);
                assert(r@ == Self::shown(None, 0));
                r
            },
            Some(t) => {
                let offset = local_offset(t).unwrap();
                let r = Self::at_offset(t, offset);
                assert(r@ == Self::shown(Some(t@), offset as int));
                r
            },
        }
    }

    /// Renders the time segment of any time of event: as `format` does where
    /// it is missing or a timestamp, and otherwise not at all, which ends the
    /// rendering of the record.
    pub fn try_format(time: Option<&str>) -> (r: Result<String, RenderError>)
        ensures
            Self::formats(text_view(time), r),
    {
        let readable = match time {
            Some(t) => local_offset(t).is_some(),
            None => true,
        };
        if readable {
            Ok(Self::format(time))
        } else {
            Err(RenderError::BadTimestamp)
        }
    }
}

/// The rule for the process identifier.
pub struct PidFormatter;

impl PidFormatter {
    /// The process segment: the identifier, or the placeholder, at the left of
    /// its column and painted blue.
    pub open spec fn styled(pid: Option<Seq<char>>) -> Seq<char> {
        let shown = match pid {
            Some(p) => p,
            None => PID_PLACEHOLDER@,
        };
        painted(Colour::Blue, false, left_justified(shown, PID_WIDTH as nat))
    }

    /// Renders the process segment.
    pub fn format(pid: Option<&str>) -> (r: String)
        ensures
            r@ == Self::styled(text_view(pid)),
    {
        let shown = match pid {
            Some(p) => p,
            None => PID_PLACEHOLDER,
        };
        let column = left_justify(shown, PID_WIDTH);
        paint(Colour::Blue, column.as_str())
    }
}

/// The rule for the place that a message speaks of.
pub struct WhatFormatter;

impl WhatFormatter {
    /// The context segment: the text as it is, or nothing, painted white.
    pub open spec fn styled(what: Option<Seq<char>>) -> Seq<char> {
        painted(
            Colour::White,
            false,
            match what {
                Some(w) => w,
                None => Seq::<char>::empty(),
            },
        )
    }

    /// Renders the context segment.
    pub fn format(what: Option<&str>) -> (r: String)
        ensures
            r@ == Self::styled(text_view(what)),
    {
        match what {
            Some(w) => paint(Colour::White, w),
            None => {
                proof {
                    reveal_strlit("");
                }
                paint(Colour::White, "")
            },
        }
    }
}

/// The rule for the source of a message.
pub struct InFormatter;

impl InFormatter {
    /// The source segment: a bar, a blank and the source, which may be
    /// missing, painted white.
    pub open spec fn styled(source: Option<Seq<char>>) -> Seq<char> {
        painted(
            Colour::White,
            false,
            seq!['|', ' '] + match source {
                Some(s) => s,
                None => Seq::<char>::empty(),
            },
        )
    }

    /// Renders the source segment.
    pub fn format(source: Option<&str>) -> (r: String)
        ensures
            r@ == Self::styled(text_view(source)),
    {
        let mut cell = String::from_str("| ");
        proof {
            reveal_strlit("| ");
        }
        if let Some(s) = source {
            cell.append(s);
        }
        paint(Colour::White, cell.as_str())
    }
}

/// The rule for the free-text note.
pub struct TextFormatter;

impl TextFormatter {
    /// The note line: a bold blue arrow, a blank, and the note in green.
    pub open spec fn styled(note: Seq<char>) -> Seq<char> {
        painted(Colour::Blue, true, seq!['>', '>']) + seq![' '] + painted(
            Colour::Green,
            false,
            note,
        )
    }

    /// Renders the note line. There is no placeholder for a note: the caller
    /// asks only when the record has one.
    pub fn format(note: Option<&str>) -> (r: String)
        requires
            note is Some,
        ensures
            r@ == Self::styled(note->0@),
    {
        let body = note.unwrap();
        let mut line = paint_bold(Colour::Blue, ">>");
        let tail = paint(Colour::Green, body);
        proof {
            reveal_strlit(">>");
            reveal_strlit(" ");
        }
        line.append(" ");
        line.append(tail.as_str());
        line
    }
}

/// The fields that the summary line shows, in the order in which it shows
/// them.
#[derive(Clone, Copy, Debug, PartialEq, Eq, Structural)]
pub enum Field {
    /// The time of event.
    When,
    /// The severity level.
    Level,
    /// The process identifier.
    Pid,
    /// The source of the message.
    In,
    /// The place that the message speaks of.
    What,
}

impl Field {
    /// The key under which a record holds the field.
    pub open spec fn key_of(self) -> Seq<char> {
        match self {
            Field::When => "when"@,
            Field::Level => "level"@,
            Field::Pid => "pid"@,
            Field::In => "in"@,
            Field::What => "what"@,
        }
    }

    /// The key under which a record holds the field.
    pub fn key(self) -> (r: &'static str)
        ensures
            r@ == self.key_of(),
    {
        match self {
            Field::When => "when",
            Field::Level => "level",
            Field::Pid => "pid",
            Field::In => "in",
            Field::What => "what",
        }
    }
}

/// Renders the segment of a field by the rule of that field. Only the time
/// of event can fail: the other rules take every text and the lack of one.
pub fn format_field(field: Field, value: Option<&str>) -> (r: Result<String, RenderError>)
    ensures
        match field {
            Field::When => WhenFormatter::formats(text_view(value), r),
            Field::Level => r matches Ok(s) && s@ == LevelFormatter::styled(text_view(value)),
            Field::Pid => r matches Ok(s) && s@ == PidFormatter::styled(text_view(value)),
            Field::In => r matches Ok(s) && s@ == InFormatter::styled(text_view(value)),
            Field::What => r matches Ok(s) && s@ == WhatFormatter::styled(text_view(value)),
        },
{
    match field {
        Field::When => WhenFormatter::try_format(value),
        Field::Level => Ok(LevelFormatter::format(value)),
        Field::Pid => Ok(PidFormatter::format(value)),
        Field::In => Ok(InFormatter::format(value)),
        Field::What => Ok(WhatFormatter::format(value)),
    }
}

} // verus!
