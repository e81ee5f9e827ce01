//! The decision behind the file-selection dialog.
//!
//! The dialog itself is platform work and lives with the caller; what the
//! library fixes is which notification a choice turns into: a chosen path
//! becomes a `file-selected` notification carrying that path, and a
//! cancelled dialog becomes a `file-selection-cancelled` notification with
//! no payload.  Cancellation is a first-class outcome, not a fault.

use vstd::prelude::*;
use vstd::string::StringExecFns;

verus! {

/// The notification a dialog outcome turns into: the event name, and the
/// chosen path when there is one.
pub struct SelectionNotice {
    pub event: String,
    pub payload: Option<String>,
}

/// Turn the outcome of the file-selection dialog into the notification to
/// send: the chosen path under `file-selected`, or a payload-free
/// `file-selection-cancelled`.
pub fn selection_notice(choice: Option<String>) -> (r: SelectionNotice)
    ensures
        match choice {
            Some(p) => {
                &&& r.event@ == "file-selected"@
                &&& r.payload matches Some(q) && q@ == p@
            },
            None => {
                &&& r.event@ == "file-selection-cancelled"@
                &&& r.payload is None
            },
        },
{
    match choice {
        Some(p) => SelectionNotice {
            event: String::from_str("file-selected"),
            payload: Some(p),
        },
        None => SelectionNotice {
            event: String::from_str("file-selection-cancelled"),
            payload: None,
        },
    }
}

} // verus!
