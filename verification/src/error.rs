//! Why a record could not be rendered.

use vstd::prelude::*;

verus! {

/// A failure that ends the rendering of one record.
#[derive(Clone, Copy, Debug, PartialEq, Eq, Structural)]
pub enum RenderError {
    /// The record has a time of event that cannot be read as a timestamp.
    BadTimestamp,
    /// The fields that no rule covers could not be written out as JSON.
    Highlight,
}

impl RenderError {
    /// What went wrong, in one sentence.
    pub open spec fn describe(self) -> Seq<char> {
        match self {
            RenderError::BadTimestamp => "the time of event is not a timestamp"@,
            RenderError::Highlight => "the remaining fields cannot be highlighted"@,
        }
    }

    /// What went wrong, in one sentence.
    pub fn message(&self) -> (r: String)
        ensures
            r@ == self.describe(),
    {
        match self {
            RenderError::BadTimestamp => String::from_str("the time of event is not a timestamp"),
            RenderError::Highlight => String::from_str(
                "the remaining fields cannot be highlighted",
            ),
        }
    }
}

} // verus!
