//! Renders structured log records, one JSON object per line, as coloured
//! lines for a terminal.
//!
//! A line goes through three stages. The dispatcher (`dispatch`) hands it
//! back untouched where the output is no terminal, and otherwise reads it as
//! JSON. The renderer (`render`) turns a record (`record`) into a summary
//! line, a note line and a block for the fields that no rule covers. The
//! formatters (`formatter`) hold one rule for each field of the summary line,
//! built on fixed-width columns (`text`) and terminal colours (`style`); the
//! time of event is put in local time by the clock (`clock`), which leaves
//! only the offset of the local clock to the machine.
//!
//! Nothing here reads or writes a stream: every function takes text and gives
//! text back, and the caller does the rest.

pub mod clock;
pub mod dispatch;
pub mod error;
pub mod formatter;
pub mod record;
pub mod render;
pub mod style;
pub mod text;
