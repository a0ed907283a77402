//! Preview text for the clipboard-paste button.
//!
//! Reading the system clipboard is host I/O and happens outside this
//! crate; this module only computes the trimmed preview label shown on
//! the paste button.  The event emitted when the button is pressed always
//! carries the full, untrimmed clipboard text (see
//! [`crate::state::KeyboardState::press_clipboard`]).

use vstd::prelude::*;
use vstd::string::StrSliceExecFns;
use vstd::string::StringExecFns;

verus! {

/// Longest clipboard preview, in characters, before it is cut short.
pub const CLIPBOARD_PREVIEW_CHARS: usize = 20;

/// The character appended to a preview that was cut short.
pub const PREVIEW_ELLIPSIS: char = '\u{2026}';

/// Trims `text` to at most `max_length` characters, appending a single
/// ellipsis character when something was cut off.
pub fn trim_text(text: &str, max_length: usize) -> (trimmed: String)
    ensures
        text@.len() <= max_length ==> trimmed@ == text@,
        text@.len() > max_length ==> trimmed@ == text@.take(max_length as int).push(
            PREVIEW_ELLIPSIS,
        ),
{
    let length = text.unicode_len();
    if length <= max_length {
        text.to_owned()
    } else {
        let head = text.substring_char(0, max_length);
        let mut trimmed = head.to_owned();
        trimmed.append("\u{2026}");
        proof {
            reveal_strlit("\u{2026}");
            assert(trimmed@ =~= text@.take(max_length as int).push(PREVIEW_ELLIPSIS));
        }
        trimmed
    }
}

/// The label shown on the clipboard-paste button for clipboard `text`:
/// the text itself when it is short, else its first
/// [`CLIPBOARD_PREVIEW_CHARS`] characters followed by an ellipsis.
pub fn clipboard_preview(text: &str) -> (label: String)
    ensures
        text@.len() <= CLIPBOARD_PREVIEW_CHARS ==> label@ == text@,
        text@.len() > CLIPBOARD_PREVIEW_CHARS ==> label@ == text@.take(
            CLIPBOARD_PREVIEW_CHARS as int,
        ).push(PREVIEW_ELLIPSIS),
{
    trim_text(text, CLIPBOARD_PREVIEW_CHARS)
}

} // verus!
