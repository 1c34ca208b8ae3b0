//! Handling of a file-dialog result.
//!
//! A dialog interaction ends in exactly one of two ways: the user
//! chose a path, or dismissed the dialog without choosing.  The
//! surrounding process runs the picker itself (it blocks on a one-shot
//! handoff until the picker's completion callback fires exactly once)
//! and hands the outcome here as a plain `Option`.  For the save and
//! open flows a path is mandatory, so the absent case becomes a
//! cancellation error rather than a crash or a hang.

use vstd::prelude::*;

use crate::messages::no_selection_message;
use crate::messages::no_selection_text;

verus! {

/// The label of the file filter both dialogs use.
pub open spec fn filter_label() -> Seq<char> {
    "Markdown"@
}

/// The one extension the file filter admits.
pub open spec fn filter_extension() -> Seq<char> {
    "md"@
}

/// The title of the save dialog.
pub open spec fn save_dialog_title() -> Seq<char> {
    "保存Markdown文件"@
}

/// The title of the open dialog.
pub open spec fn open_dialog_title() -> Seq<char> {
    "打开Markdown文件"@
}

/// The filter label a picker is configured with.
pub fn filter_label_text() -> (r: &'static str)
    ensures
        r@ == filter_label(),
{
    "Markdown"
}

/// The extension a picker restricts the choice to.
pub fn filter_extension_text() -> (r: &'static str)
    ensures
        r@ == filter_extension(),
{
    "md"
}

/// The title a save picker is configured with.
pub fn save_dialog_title_text() -> (r: &'static str)
    ensures
        r@ == save_dialog_title(),
{
    "保存Markdown文件"
}

/// The title an open picker is configured with.
pub fn open_dialog_title_text() -> (r: &'static str)
    ensures
        r@ == open_dialog_title(),
{
    "打开Markdown文件"
}

/// Turns a dialog outcome into the chosen path, or the cancellation
/// error when the dialog was dismissed without a choice.
pub fn require_selection(choice: Option<String>) -> (r: Result<String, String>)
    ensures
        choice matches Some(p) ==> (r matches Ok(q) && q == p),
        choice is None ==> (r matches Err(e) && e@ == no_selection_message()),
{
    match choice {
        Some(p) => Ok(p),
        None => Err(no_selection_text()),
    }
}

} // verus!
