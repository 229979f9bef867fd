//! Strings as sequences of characters, for use in contracts.

use vstd::prelude::*;

verus! {

/// The character sequences of a list of strings, in order.
pub open spec fn texts(items: Seq<String>) -> Seq<Seq<char>> {
    items.map_values(|s: String| s@)
}

/// The character sequence of a string that may be absent.
pub open spec fn opt_text(item: Option<String>) -> Option<Seq<char>> {
    match item {
        Some(s) => Some(s@),
        None => None,
    }
}

/// Copies a string that may be absent.
pub fn copy_opt(item: &Option<String>) -> (copy: Option<String>)
    ensures
        opt_text(copy) == opt_text(*item),
{
    match item {
        Some(s) => Some(s.clone()),
        None => None,
    }
}

/// `text` without the line break at its end, if it ends in one: a line
/// feed, with the carriage return before it if there is one.
pub open spec fn without_line_break(text: Seq<char>) -> Seq<char> {
    if text.len() > 0 && text.last() == '\n' {
        if text.len() > 1 && text[text.len() - 2] == '\r' {
            text.subrange(0, text.len() - 2)
        } else {
            text.subrange(0, text.len() - 1)
        }
    } else {
        text
    }
}

/// Takes the line break off the end of `text`, if it ends in one. Nothing
/// else is taken off, and a line break anywhere else stays.
pub fn strip_line_break(text: &str) -> (stripped: String)
    ensures
        stripped@ == without_line_break(text@),
{
    let len: usize = text.unicode_len();
    if len > 0 && text.get_char(len - 1) == '\n' {
        if len > 1 && text.get_char(len - 2) == '\r' {
            text.substring_char(0, len - 2).to_owned()
        } else {
            text.substring_char(0, len - 1).to_owned()
        }
    } else {
        text.to_owned()
    }
}

} // verus!
