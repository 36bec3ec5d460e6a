//! The two request handlers the UI layer calls: read the whole history, and
//! complete a copy-to-clipboard request.

use vstd::prelude::*;

use crate::history::{entries_view, ClipboardEntry, HistoryStore};

verus! {

/// Returns a full copy of the history, oldest first. Never fails, and never
/// changes the store.
pub fn get_clipboard_history(store: &HistoryStore) -> (r: Vec<ClipboardEntry>)
    ensures
        entries_view(r@) == store@,
{
    store.snapshot()
}

/// Completes a copy-to-clipboard request. The platform clipboard write
/// itself happens at the process boundary; `outcome` is what the platform
/// set-operation reported, with any platform error already rendered as its
/// message. The outcome is handed back to the caller unchanged — `Ok`
/// exactly when the platform accepted the write, `Err` carrying the
/// platform's message otherwise — and the history is left untouched: a
/// write never records an entry by itself.
pub fn complete_copy_request(store: &mut HistoryStore, outcome: Result<(), String>) -> (r: Result<
    (),
    String,
>)
    ensures
        final(store)@ == old(store)@,
        r == outcome,
{
    outcome
}

} // verus!
