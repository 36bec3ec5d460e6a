//! The polling discipline: one tick reads the clipboard, suppresses empty
//! and repeated content, and records anything new with a fresh timestamp.

use vstd::prelude::*;

use crate::clock;
use crate::history::{append_model, ClipboardEntry, EntryView, HistoryStore};

verus! {

/// Whether a successfully read clipboard text gives a new entry: it must be
/// non-empty and differ from the most recently recorded content.
pub open spec fn should_record(reading: Seq<char>, last_seen: Seq<char>) -> bool {
    reading.len() > 0 && reading != last_seen
}

/// The mathematical value of an optional clipboard reading.
pub open spec fn reading_view(r: Option<String>) -> Option<Seq<char>> {
    match r {
        Option::Some(s) => Option::Some(s@),
        Option::None => Option::None,
    }
}

/// What one poll tick does to the history and the last-seen content, given
/// the outcome of the clipboard read and the timestamp of the tick. The
/// result is the new history, the new last-seen content, and whether a
/// change notification is due: a failed read, empty text, and text equal to
/// the last-seen content all leave everything unchanged; any other text is
/// appended (with FIFO eviction) and becomes the last-seen content.
pub open spec fn observe_model(
    h: Seq<EntryView>,
    last: Seq<char>,
    reading: Option<Seq<char>>,
    ts: Seq<char>,
) -> (Seq<EntryView>, Seq<char>, bool) {
    match reading {
        Option::Some(c) => if should_record(c, last) {
            (append_model(h, EntryView { content: c, timestamp: ts }), c, true)
        } else {
            (h, last, false)
        },
        Option::None => (h, last, false),
    }
}

/// Dedup law: once a tick has processed a reading of content `c`, an
/// immediately following tick that reads the same `c` changes nothing —
/// consecutive identical readings produce at most one entry.
pub proof fn lemma_dedup(
    h: Seq<EntryView>,
    last: Seq<char>,
    c: Seq<char>,
    ts1: Seq<char>,
    ts2: Seq<char>,
)
    ensures
        ({
            let (h1, l1, n1) = observe_model(h, last, Option::Some(c), ts1);
            observe_model(h1, l1, Option::Some(c), ts2) == (h1, l1, false)
        }),
{
}

/// Empty-suppression law: a tick whose reading is empty text never records
/// an entry, whatever the last-seen content.
pub proof fn lemma_empty_suppressed(h: Seq<EntryView>, last: Seq<char>, ts: Seq<char>)
    ensures
        observe_model(h, last, Option::Some(Seq::<char>::empty()), ts) == (h, last, false),
{
}

/// The poll loop's private state: the most recently recorded clipboard
/// content, used to suppress duplicate insertions on idle polls.
pub struct Poller {
    last_seen: String,
}

impl View for Poller {
    type V = Seq<char>;

    closed spec fn view(&self) -> Seq<char> {
        self.last_seen@
    }
}

impl Poller {
    /// A fresh poller whose last-seen content starts out empty.
    pub fn new() -> (r: Poller)
        ensures
            r@ == Seq::<char>::empty(),
    {
        Poller { last_seen: String::new() }
    }

    /// Processes the outcome of one clipboard read, with `timestamp` as the
    /// capture time a new entry would carry. Records and notifies exactly as
    /// `observe_model` says.
    pub fn observe(
        &mut self,
        store: &mut HistoryStore,
        reading: Option<String>,
        timestamp: String,
    ) -> (notify: bool)
        requires
            old(store).wf(),
        ensures
            final(store).wf(),
            (final(store)@, final(self)@, notify) == observe_model(
                old(store)@,
                old(self)@,
                reading_view(reading),
                timestamp@,
            ),
    {
        match reading {
            Option::None => false,
            Option::Some(content) => {
                if content.as_str().is_empty() || content == self.last_seen {
                    false
                } else {
                    let entry = ClipboardEntry { content: content.clone(), timestamp };
                    store.append(entry);
                    self.last_seen = content;
                    true
                }
            },
        }
    }

    /// One full poll tick over an already-performed clipboard read: stamps
    /// the tick with the current wall-clock time and processes the reading.
    /// The store and the last-seen content change exactly as `observe_model`
    /// says for some timestamp, and nothing changes unless a non-empty, new
    /// content was read.
    pub fn tick(&mut self, store: &mut HistoryStore, reading: Option<String>) -> (notify: bool)
        requires
            old(store).wf(),
        ensures
            final(store).wf(),
            exists|ts: Seq<char>|
                (final(store)@, final(self)@, notify) == observe_model(
                    old(store)@,
                    old(self)@,
                    reading_view(reading),
                    ts,
                ),
            notify == (match reading_view(reading) {
                Option::Some(c) => should_record(c, old(self)@),
                Option::None => false,
            }),
            !notify ==> final(store)@ == old(store)@ && final(self)@ == old(self)@,
    {
        let ghost h0 = store@;
        let ghost l0 = self@;
        let timestamp = clock::now_formatted();
        let ghost ts = timestamp@;
        let notify = self.observe(store, reading, timestamp);
        proof {
            assert((store@, self@, notify) == observe_model(h0, l0, reading_view(reading), ts));
        }
        notify
    }
}

} // verus!
