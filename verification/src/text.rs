//! Fixed-width columns and comparisons on text, counted in characters.

use vstd::prelude::*;

verus! {

/// What an optional piece of text holds, as a sequence of characters.
pub open spec fn text_view(text: Option<&str>) -> Option<Seq<char>> {
    match text {
        Some(t) => Some(t@),
        None => None,
    }
}

/// `n` blanks.
pub open spec fn spaces(n: nat) -> Seq<char> {
    Seq::new(n, |i: int| ' ')
}

/// `text` in a column of `width` characters, the blanks split evenly around
/// it and the odd one put after it. A text that fills the column or is wider
/// stays as it is.
pub open spec fn centered(text: Seq<char>, width: nat) -> Seq<char> {
    if text.len() >= width {
        text
    } else {
        let gap = (width - text.len()) as nat;
        spaces(gap / 2) + text + spaces((gap - gap / 2) as nat)
    }
}

/// `text` in a column of `width` characters, the blanks after it. A text that
/// fills the column or is wider stays as it is.
pub open spec fn left_justified(text: Seq<char>, width: nat) -> Seq<char> {
    if text.len() >= width {
        text
    } else {
        text + spaces((width - text.len()) as nat)
    }
}

/// Whether two texts hold the same characters.
pub fn same_text(a: &str, b: &str) -> (r: bool)
    ensures
        r == (a@ == b@),
{
    let n = a.unicode_len();
    if b.unicode_len() != n {
        return false;
    }
    let mut i: usize = 0;
    while i < n
        invariant
            i <= n,
            n == a@.len(),
            n == b@.len(),
            forall|j: int| 0 <= j < i ==> a@[j] == b@[j],
        decreases n - i,
    {
        if a.get_char(i) != b.get_char(i) {
            return false;
        }
        i = i + 1;
    }
    assert(a@ =~= b@);
    true
}

/// Appends `n` blanks to `out`.
pub fn push_spaces(out: &mut String, n: usize)
    ensures
        final(out)@ == old(out)@ + spaces(n as nat),
{
    let mut i: usize = 0;
    while i < n
        invariant
            i <= n,
            out@ == old(out)@ + spaces(i as nat),
        decreases n - i,
    {
        proof {
            reveal_strlit(" ");
        }
        out.append(" ");
        i = i + 1;
    }
}

/// Centres `text` in a column of `width` characters.
pub fn center(text: &str, width: usize) -> (r: String)
    ensures
        r@ == centered(text@, width as nat),
{
    let len = text.unicode_len();
    if len >= width {
        return String::from_str(text);
    }
    let gap = width - len;
    let before = gap / 2;
    let mut out = String::new();
    push_spaces(&mut out, before);
    out.append(text);
    push_spaces(&mut out, gap - before);
    out
}

/// Sets `text` at the left of a column of `width` characters.
pub fn left_justify(text: &str, width: usize) -> (r: String)
    ensures
        r@ == left_justified(text@, width as nat),
{
    let len = text.unicode_len();
    let mut out = String::from_str(text);
    if len < width {
        push_spaces(&mut out, width - len);
    }
    out
}

} // verus!
