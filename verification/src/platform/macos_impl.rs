//! macOS: the badge is the text label of the application's Dock tile.
use vstd::prelude::*;
use crate::outcome::{opt_string, result_view};
use crate::platform::{format_badge_label, spec_badge_label};

verus! {

/// The error when AppKit is used off the main thread.
pub open spec fn main_thread_message() -> Seq<char> {
    "NSApplication APIs require the main thread"@
}

/// The Dock tile label for `count`: none when the badge label is empty.
pub open spec fn spec_dock_label(count: int) -> Option<Seq<char>> {
    if spec_badge_label(count).len() == 0 {
        None
    } else {
        Some(spec_badge_label(count))
    }
}

/// The Dock tile label to set for `count`, `None` to remove it; AppKit may
/// only be used on the main thread.
pub fn set_badge(count: i32, on_main_thread: bool) -> (r: Result<Option<String>, String>)
    ensures
        match result_view(r) {
            Ok(label) => Ok::<Option<Seq<char>>, Seq<char>>(opt_string(label)),
            Err(e) => Err(e),
        } == if on_main_thread {
            Ok(spec_dock_label(count as int))
        } else {
            Err(main_thread_message())
        },
{
    if !on_main_thread {
        return Err("NSApplication APIs require the main thread".to_string());
    }
    let label = format_badge_label(count);
    if label.as_str().is_empty() {
        Ok(None)
    } else {
        Ok(Some(label))
    }
}

} // verus!
