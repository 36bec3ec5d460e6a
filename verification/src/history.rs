//! The bounded history store: an insertion-ordered sequence of clipboard
//! entries, capped at `CAPACITY`, with FIFO eviction of the oldest entry.

use vstd::prelude::*;

verus! {

/// Maximum number of entries the store ever holds.
pub const CAPACITY: usize = 100;

/// One recorded clipboard value with its capture timestamp.
pub struct ClipboardEntry {
    pub content: String,
    pub timestamp: String,
}

/// The mathematical value of an entry: its content and timestamp as
/// character sequences.
pub ghost struct EntryView {
    pub content: Seq<char>,
    pub timestamp: Seq<char>,
}

impl View for ClipboardEntry {
    type V = EntryView;

    open spec fn view(&self) -> EntryView {
        EntryView { content: self.content@, timestamp: self.timestamp@ }
    }
}

impl Clone for ClipboardEntry {
    fn clone(&self) -> (r: Self)
        ensures
            r == *self,
    {
        ClipboardEntry { content: self.content.clone(), timestamp: self.timestamp.clone() }
    }
}

/// The mathematical value of a sequence of entries.
pub open spec fn entries_view(es: Seq<ClipboardEntry>) -> Seq<EntryView> {
    es.map_values(|e: ClipboardEntry| e@)
}

/// What one append does to the stored sequence: the entry goes to the end,
/// and if that exceeds the capacity the oldest entry is evicted.
pub open spec fn append_model(s: Seq<EntryView>, e: EntryView) -> Seq<EntryView> {
    if s.len() < CAPACITY {
        s.push(e)
    } else {
        s.push(e).drop_first()
    }
}

/// The result of starting from `s` and appending each element of `es` in
/// order, one `append_model` step per element.
pub open spec fn fold_appends(s: Seq<EntryView>, es: Seq<EntryView>) -> Seq<EntryView>
    decreases es.len(),
{
    if es.len() == 0 {
        s
    } else {
        fold_appends(append_model(s, es[0]), es.drop_first())
    }
}

proof fn lemma_fold_appends_snoc(s: Seq<EntryView>, es: Seq<EntryView>, e: EntryView)
    ensures
        fold_appends(s, es.push(e)) == append_model(fold_appends(s, es), e),
    decreases es.len(),
{
    if es.len() == 0 {
        assert(es.push(e)[0] == e);
        assert(es.push(e).drop_first() =~= Seq::<EntryView>::empty());
        assert(fold_appends(append_model(s, e), Seq::<EntryView>::empty()) == append_model(s, e));
    } else {
        assert(es.push(e)[0] == es[0]);
        assert(es.push(e).drop_first() =~= es.drop_first().push(e));
        lemma_fold_appends_snoc(append_model(s, es[0]), es.drop_first(), e);
    }
}

/// Capacity law: appending the entries of `es`, in order, to an empty store
/// leaves exactly `min(es.len(), CAPACITY)` entries, and they are the last
/// that many elements of `es`, oldest first.
pub proof fn lemma_append_capacity(es: Seq<EntryView>)
    ensures
        fold_appends(Seq::<EntryView>::empty(), es).len() == vstd::math::min(
            es.len() as int,
            CAPACITY as int,
        ),
        fold_appends(Seq::<EntryView>::empty(), es) == es.skip(
            vstd::math::max(es.len() - CAPACITY, 0),
        ),
    decreases es.len(),
{
    let empty = Seq::<EntryView>::empty();
    if es.len() == 0 {
        assert(es.skip(0) =~= es);
    } else {
        let es0 = es.drop_last();
        let e = es.last();
        assert(es =~= es0.push(e));
        lemma_append_capacity(es0);
        lemma_fold_appends_snoc(empty, es0, e);
        if es0.len() < CAPACITY {
            assert(fold_appends(empty, es) =~= es.skip(vstd::math::max(es.len() - CAPACITY, 0)));
        } else {
            assert(fold_appends(empty, es) =~= es.skip(es.len() - CAPACITY as int));
        }
    }
}

/// Order law: appending three entries to an empty store stores exactly those
/// three entries, in the order they were appended.
pub proof fn lemma_order_preserved(e1: EntryView, e2: EntryView, e3: EntryView)
    ensures
        fold_appends(Seq::<EntryView>::empty(), seq![e1, e2, e3]) == seq![e1, e2, e3],
{
    reveal_with_fuel(fold_appends, 5);
    let es = seq![e1, e2, e3];
    let s1 = append_model(Seq::<EntryView>::empty(), e1);
    assert(es.drop_first() =~= seq![e2, e3]);
    assert(seq![e2, e3].drop_first() =~= seq![e3]);
    assert(seq![e3].drop_first() =~= Seq::<EntryView>::empty());
    assert(fold_appends(Seq::<EntryView>::empty(), es) == fold_appends(s1, seq![e2, e3]));
    assert(fold_appends(s1, seq![e2, e3]) == fold_appends(append_model(s1, e2), seq![e3]));
    assert(fold_appends(append_model(s1, e2), seq![e3]) == append_model(append_model(s1, e2), e3));
    assert(append_model(append_model(s1, e2), e3) =~= seq![e1, e2, e3]);
}

/// Eviction law: appending one entry to a full store drops exactly the
/// oldest entry — the new first element is the old second one, every other
/// surviving entry keeps its relative place, and the new last element is the
/// appended entry.
pub proof fn lemma_eviction(s: Seq<EntryView>, e: EntryView)
    requires
        s.len() == CAPACITY,
    ensures
        append_model(s, e).len() == CAPACITY,
        append_model(s, e) == s.drop_first().push(e),
        append_model(s, e)[0] == s[1],
        append_model(s, e).last() == e,
{
    assert(append_model(s, e) =~= s.drop_first().push(e));
}

/// A bounded, insertion-ordered store of clipboard entries: oldest first,
/// newest last, never more than `CAPACITY` of them.
pub struct HistoryStore {
    entries: Vec<ClipboardEntry>,
}

impl View for HistoryStore {
    type V = Seq<EntryView>;

    closed spec fn view(&self) -> Seq<EntryView> {
        entries_view(self.entries@)
    }
}

impl HistoryStore {
    /// The capacity invariant: the store never exceeds `CAPACITY` entries.
    pub open spec fn wf(&self) -> bool {
        self@.len() <= CAPACITY
    }

    /// An empty store.
    pub fn new() -> (r: HistoryStore)
        ensures
            r@ == Seq::<EntryView>::empty(),
            r.wf(),
    {
        let r = HistoryStore { entries: Vec::new() };
        proof {
            assert(r@ =~= Seq::<EntryView>::empty());
        }
        r
    }

    /// Number of entries currently stored.
    pub fn len(&self) -> (n: usize)
        ensures
            n == self@.len(),
    {
        self.entries.len()
    }

    /// Appends `entry` at the end; if the store would then exceed the
    /// capacity, evicts the single oldest entry. Total: no error conditions.
    pub fn append(&mut self, entry: ClipboardEntry)
        requires
            old(self).wf(),
        ensures
            final(self)@ == append_model(old(self)@, entry@),
            final(self).wf(),
    {
        let ghost pre = self.entries@;
        self.entries.push(entry);
        proof {
            assert(self@ =~= entries_view(pre).push(entry@));
        }
        if self.entries.len() > CAPACITY {
            let ghost pushed = self.entries@;
            self.entries.remove(0);
            proof {
                assert(self@ =~= entries_view(pushed).drop_first());
            }
        }
    }

    /// A full copy of the current contents, insertion order preserved.
    pub fn snapshot(&self) -> (r: Vec<ClipboardEntry>)
        ensures
            entries_view(r@) == self@,
    {
        let mut r: Vec<ClipboardEntry> = Vec::new();
        let mut i: usize = 0;
        while i < self.entries.len()
            invariant
                i <= self.entries@.len(),
                entries_view(r@) == entries_view(self.entries@.take(i as int)),
            decreases self.entries@.len() - i,
        {
            let ghost prev = r@;
            r.push(self.entries[i].clone());
            proof {
                let full = self.entries@;
                assert(entries_view(prev).len() == prev.len());
                assert(entries_view(full.take(i as int)).len() == i);
                assert(prev.len() == i);
                assert forall|j: int| 0 <= j < r@.len() implies entries_view(r@)[j]
                    == entries_view(full.take(i + 1))[j] by {
                    if j < prev.len() {
                        assert(entries_view(prev)[j] == entries_view(full.take(i as int))[j]);
                    }
                }
                assert(entries_view(r@) =~= entries_view(full.take(i + 1)));
            }
            i = i + 1;
        }
        proof {
            assert(self.entries@.take(self.entries@.len() as int) =~= self.entries@);
        }
        r
    }
}

} // verus!
