//! The history log: every command text that was submitted, in arrival order.
//!
//! The log only grows. An entry, once appended, is never changed, moved or
//! removed, so a log is at every moment an extension of each of its earlier
//! states.

use vstd::prelude::*;
use vstd::seq_lib::lemma_multiset_commutative;

verus! {

/// An append-only ordered log of submitted command texts.
///
/// Its view is the sequence of the entries, oldest first, each entry as the
/// sequence of its characters.
pub struct HistoryLog {
    entries: Vec<String>,
}

impl View for HistoryLog {
    type V = Seq<Seq<char>>;

    closed spec fn view(&self) -> Seq<Seq<char>> {
        self.entries.deep_view()
    }
}

impl HistoryLog {
    /// An empty log.
    pub fn new() -> (log: HistoryLog)
        ensures
            log@ == Seq::<Seq<char>>::empty(),
    {
        HistoryLog { entries: Vec::new() }
    }

    /// The number of entries.
    pub fn len(&self) -> (n: usize)
        ensures
            n == self@.len(),
    {
        self.entries.len()
    }

    /// Whether nothing was appended yet.
    pub fn is_empty(&self) -> (b: bool)
        ensures
            b == (self@.len() == 0),
    {
        self.entries.len() == 0
    }

    /// Appends `text`, verbatim, as the newest entry. The earlier entries stay
    /// as they are.
    pub fn append(&mut self, text: &str)
        ensures
            final(self)@ == old(self)@.push(text@),
    {
        self.entries.push(text.to_owned());
    }

    /// The entry at position `i`, counted from the oldest, if there is one.
    pub fn get(&self, i: usize) -> (text: Option<&str>)
        ensures
            match text {
                Some(entry) => i < self@.len() && entry@ == self@[i as int],
                None => i >= self@.len(),
            },
    {
        if i < self.entries.len() {
            Some(self.entries[i].as_str())
        } else {
            None
        }
    }

    /// A copy of the entries, oldest first, that later appends do not touch.
    pub fn snapshot(&self) -> (copy: Vec<String>)
        ensures
            copy.deep_view() == self@,
    {
        let mut copy: Vec<String> = Vec::new();
        let mut i: usize = 0;
        while i < self.entries.len()
            invariant
                i <= self.entries.len(),
                copy.len() == i,
                copy.deep_view() == self.entries.deep_view().take(i as int),
            decreases self.entries.len() - i,
        {
            let ghost before = copy;
            copy.push(self.entries[i].clone());
            i += 1;
            assert forall|k: int| 0 <= k < i implies #[trigger] copy.deep_view()[k]
                == self.entries.deep_view()[k] by {
                if k < i - 1 {
                    assert(before.deep_view()[k] == self.entries.deep_view().take(i - 1)[k]);
                }
            }
        }
        copy
    }
}

impl Default for HistoryLog {
    /// An empty log.
    fn default() -> (log: HistoryLog)
        ensures
            log@ == Seq::<Seq<char>>::empty(),
    {
        HistoryLog::new()
    }
}

/// The log after the texts of `batch` were appended to `log` one by one, in
/// order.
pub open spec fn append_all(log: Seq<Seq<char>>, batch: Seq<Seq<char>>) -> Seq<Seq<char>>
    decreases batch.len(),
{
    if batch.len() == 0 {
        log
    } else {
        append_all(log, batch.drop_last()).push(batch.last())
    }
}

/// Appending a batch of texts one by one adds exactly the batch at the end of
/// the log: every text of the batch is there once, none is lost, and what was
/// in the log before is untouched. In particular the length grows by the size
/// of the batch.
pub proof fn lemma_append_all(log: Seq<Seq<char>>, batch: Seq<Seq<char>>)
    ensures
        append_all(log, batch) == log + batch,
        append_all(log, batch).len() == log.len() + batch.len(),
        log.is_prefix_of(append_all(log, batch)),
    decreases batch.len(),
{
    if batch.len() > 0 {
        lemma_append_all(log, batch.drop_last());
    }
}

/// The order in which a batch of texts is appended changes the order of the
/// new entries and nothing else: two orders of the same batch give logs of
/// the same length that hold the same entries, each as often as the other.
pub proof fn lemma_append_order(
    log: Seq<Seq<char>>,
    batch: Seq<Seq<char>>,
    reordered: Seq<Seq<char>>,
)
    requires
        batch.to_multiset() == reordered.to_multiset(),
    ensures
        append_all(log, batch).len() == append_all(log, reordered).len(),
        append_all(log, batch).to_multiset() == append_all(log, reordered).to_multiset(),
        append_all(log, batch).to_multiset() == log.to_multiset().add(batch.to_multiset()),
{
    lemma_append_all(log, batch);
    lemma_append_all(log, reordered);
    lemma_multiset_commutative(log, batch);
    lemma_multiset_commutative(log, reordered);
    batch.to_multiset_ensures();
    reordered.to_multiset_ensures();
}

} // verus!
