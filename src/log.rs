//! The bounded, timestamped log kept for each job.

use crate::text::{truncate_text, truncated};
use std::collections::VecDeque;
use vstd::prelude::*;

verus! {

/// Most entries a log buffer keeps; appending beyond it evicts the oldest.
pub const LOG_CAPACITY: usize = 997;

/// One line of a job's log.
#[derive(Debug)]
pub struct LogEntry {
    /// Seconds since the Unix epoch.
    pub timestamp: u64,
    pub text: String,
}

/// What a log entry holds, as a value.
pub struct EntryView {
    pub timestamp: u64,
    pub text: Seq<char>,
}

impl View for LogEntry {
    type V = EntryView;

    open spec fn view(&self) -> EntryView {
        EntryView { timestamp: self.timestamp, text: self.text@ }
    }
}

impl LogEntry {
    pub fn new(timestamp: u64, text: String) -> (r: LogEntry)
        ensures
            r@ == (EntryView { timestamp, text: text@ }),
    {
        LogEntry { timestamp, text }
    }
}

/// `log` after appending `e`: the oldest entries go once the capacity is exceeded.
pub open spec fn appended(log: Seq<EntryView>, e: EntryView) -> Seq<EntryView> {
    last_n(log.push(e), LOG_CAPACITY as nat)
}

/// `log` after appending each of `es` in order.
pub open spec fn appended_all(log: Seq<EntryView>, es: Seq<EntryView>) -> Seq<EntryView>
    decreases es.len(),
{
    if es.len() == 0 {
        log
    } else {
        appended(appended_all(log, es.drop_last()), es.last())
    }
}

/// The last `n` elements of `s`, or all of them when there are fewer.
pub open spec fn last_n<A>(s: Seq<A>, n: nat) -> Seq<A> {
    if s.len() <= n {
        s
    } else {
        s.subrange(s.len() - n, s.len() as int)
    }
}

/// `e` with its text cut to `max` characters.
pub open spec fn truncated_entry(e: EntryView, max: nat) -> EntryView {
    EntryView { timestamp: e.timestamp, text: truncated(e.text, max) }
}

/// The newest `limit` entries of `log`, newest first, texts cut to `max` characters.
pub open spec fn snapshot_of(log: Seq<EntryView>, limit: nat, max: nat) -> Seq<EntryView> {
    let n = if limit < log.len() {
        limit
    } else {
        log.len()
    };
    Seq::new(n, |i: int| truncated_entry(log[log.len() - 1 - i], max))
}

/// A chronological log that never holds more than `LOG_CAPACITY` entries.
pub struct LogBuffer {
    entries: VecDeque<LogEntry>,
}

impl View for LogBuffer {
    type V = Seq<EntryView>;

    closed spec fn view(&self) -> Seq<EntryView> {
        self.entries@.map_values(|e: LogEntry| e@)
    }
}

impl LogBuffer {
    pub fn new() -> (r: LogBuffer)
        ensures
            r@ == Seq::<EntryView>::empty(),
    {
        let r = LogBuffer { entries: VecDeque::new() };
        assert(r@ =~= Seq::<EntryView>::empty());
        r
    }

    pub fn len(&self) -> (r: usize)
        ensures
            r == self@.len(),
    {
        self.entries.len()
    }

    /// Appends `entry` at the back, evicting the oldest entry past the capacity.
    pub fn append(&mut self, entry: LogEntry)
        ensures
            final(self)@ == appended(old(self)@, entry@),
            final(self)@.len() <= LOG_CAPACITY,
    {
        let ghost full = old(self)@.push(entry@);
        self.entries.push_back(entry);
        assert(self@ =~= full);
        while self.entries.len() > LOG_CAPACITY
            invariant
                self@.len() <= full.len(),
                self@ == full.subrange(full.len() - self@.len(), full.len() as int),
                self@.len() < full.len() ==> self@.len() >= LOG_CAPACITY,
            decreases self@.len(),
        {
            let ghost prev = self@;
            let ghost prev_entries = self.entries@;
            let _ = self.entries.pop_front();
            assert(self.entries@ =~= prev_entries.subrange(1, prev_entries.len() as int));
            assert(self@ =~= prev.subrange(1, prev.len() as int));
            assert(self@ =~= full.subrange(full.len() - self@.len(), full.len() as int));
        }
        proof {
            if full.len() <= LOG_CAPACITY {
                assert(self@ =~= full);
            }
        }
    }

    /// The newest `limit` entries, newest first, each text cut to
    /// `max_len` characters with `...` marking a cut. The buffer is left
    /// as it is, so repeated calls return the same entries.
    pub fn snapshot(&self, limit: usize, max_len: usize) -> (r: Vec<LogEntry>)
        ensures
            r@.map_values(|e: LogEntry| e@) == snapshot_of(self@, limit as nat, max_len as nat),
    {
        let len = self.entries.len();
        let n = if limit < len {
            limit
        } else {
            len
        };
        let mut out: Vec<LogEntry> = Vec::new();
        let mut i: usize = 0;
        while i < n
            invariant
                n <= len,
                len == self@.len(),
                i <= n,
                out@.map_values(|e: LogEntry| e@) == snapshot_of(self@, limit as nat, max_len as nat).take(i as int),
                n == snapshot_of(self@, limit as nat, max_len as nat).len(),
            decreases n - i,
        {
            let source = &self.entries[len - 1 - i];
            let text = truncate_text(source.text.as_str(), max_len);
            let ghost before = out@.map_values(|e: LogEntry| e@);
            let entry = LogEntry { timestamp: source.timestamp, text };
            assert(entry@ == snapshot_of(self@, limit as nat, max_len as nat)[i as int]);
            out.push(entry);
            assert(out@.map_values(|e: LogEntry| e@) =~= before.push(entry@));
            i = i + 1;
            assert(out@.map_values(|e: LogEntry| e@) =~= snapshot_of(self@, limit as nat, max_len as nat).take(i as int));
        }
        assert(snapshot_of(self@, limit as nat, max_len as nat).take(n as int) =~= snapshot_of(self@, limit as nat, max_len as nat));
        out
    }
}

/// Appending to a log that holds at most `LOG_CAPACITY` entries leaves the
/// last `LOG_CAPACITY` entries of everything appended so far, in order.
pub proof fn lemma_appended_all_keeps_last(log: Seq<EntryView>, es: Seq<EntryView>)
    requires
        log.len() <= LOG_CAPACITY,
    ensures
        appended_all(log, es) == last_n(log + es, LOG_CAPACITY as nat),
    decreases es.len(),
{
    if es.len() == 0 {
        assert(log + es =~= log);
    } else {
        let prefix = es.drop_last();
        lemma_appended_all_keeps_last(log, prefix);
        let t = log + prefix;
        assert(t.push(es.last()) =~= log + es);
        let kept = last_n(t, LOG_CAPACITY as nat);
        if t.len() < LOG_CAPACITY {
            assert(appended(kept, es.last()) =~= last_n(log + es, LOG_CAPACITY as nat));
        } else {
            assert(appended(kept, es.last()) =~= last_n(log + es, LOG_CAPACITY as nat));
        }
    }
}

/// Appending `LOG_CAPACITY + k` entries to an empty log leaves exactly
/// `LOG_CAPACITY` entries: the last `LOG_CAPACITY` appended, in order.
pub proof fn lemma_overflowing_appends_keep_last(es: Seq<EntryView>)
    requires
        es.len() >= LOG_CAPACITY,
    ensures
        appended_all(Seq::empty(), es).len() == LOG_CAPACITY,
        appended_all(Seq::empty(), es) == es.subrange(
            es.len() - LOG_CAPACITY,
            es.len() as int,
        ),
{
    lemma_appended_all_keeps_last(Seq::empty(), es);
    assert(Seq::<EntryView>::empty() + es =~= es);
}

} // verus!
