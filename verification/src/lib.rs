//! A verified clipboard-history core: a bounded, insertion-ordered store of
//! clipboard entries, the polling discipline that feeds it (deduplication
//! and empty-text suppression), and the two accessors a UI layer calls.

pub mod clock;
pub mod facade;
pub mod history;
pub mod poll;

pub use facade::complete_copy_request;
pub use facade::get_clipboard_history;
pub use history::ClipboardEntry;
pub use history::HistoryStore;
pub use history::CAPACITY;
pub use poll::Poller;
