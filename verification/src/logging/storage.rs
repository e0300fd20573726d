//! The log store: a bounded buffer of entries that drops its oldest entry
//! first, numbers its entries in increasing order and hands out filtered
//! copies, newest first.

use crate::clock::{now, Timestamp};
use crate::config::LogConfig;
use crate::json::JsonText;
use crate::logging::ansi::{remove_ansi_sequences, strip};
use crate::logging::entry::{spec_passes, ContentView, LogEntry, LogEntryContent, LogEntryView};
use crate::logging::filter::{LogFilter, LogFilterView};
use crate::types::RequestId;
use std::collections::VecDeque;
use vstd::prelude::*;

verus! {

/// The log store.
#[derive(Debug)]
pub struct LogStorage {
    entries: VecDeque<LogEntry>,
    next_id: usize,
    max_entries: usize,
    ansi_removal_enabled: bool,
}

/// What a log store holds.
pub struct LogStorageView {
    /// The entries, oldest first.
    pub entries: Seq<LogEntryView>,
    /// The number that the next entry gets.
    pub next_id: usize,
    /// How many entries the store keeps at most.
    pub max_entries: usize,
    /// Whether colour sequences are removed from diagnostic lines.
    pub ansi_removal: bool,
}

/// The views of a sequence of entries.
pub open spec fn entries_view(s: Seq<LogEntry>) -> Seq<LogEntryView> {
    Seq::new(s.len(), |i: int| s[i]@)
}

/// The last `c` items of `s`, or all of `s` if it has no more than `c`.
pub open spec fn keep_last<T>(s: Seq<T>, c: nat) -> Seq<T> {
    if s.len() > c {
        s.subrange(s.len() - c, s.len() as int)
    } else {
        s
    }
}

/// The store is within its capacity, and its entries are numbered in
/// strictly increasing order below the next number, which is at least 1.
pub open spec fn spec_well_formed(v: LogStorageView) -> bool {
    &&& v.entries.len() <= v.max_entries
    &&& v.next_id >= 1
    &&& forall|i: int| 0 <= i < v.entries.len() ==> 1 <= (#[trigger] v.entries[i]).id < v.next_id
    &&& forall|i: int, j: int|
        0 <= i < j < v.entries.len() ==> (#[trigger] v.entries[i]).id < (#[trigger] v.entries[j]).id
}

/// The store after one more entry: it gets the next number and goes to the
/// end; the oldest entries leave until the store is within its capacity.
pub open spec fn spec_record(v: LogStorageView, timestamp: Timestamp, content: ContentView) -> LogStorageView {
    LogStorageView {
        entries: keep_last(
            v.entries.push(LogEntryView { id: v.next_id, timestamp, content }),
            v.max_entries as nat,
        ),
        next_id: (v.next_id + 1) as usize,
        max_entries: v.max_entries,
        ansi_removal: v.ansi_removal,
    }
}

/// The store after it was cleared: no entries, and numbering starts again at 1.
pub open spec fn spec_cleared(v: LogStorageView) -> LogStorageView {
    LogStorageView {
        entries: Seq::empty(),
        next_id: 1,
        max_entries: v.max_entries,
        ansi_removal: v.ansi_removal,
    }
}

/// The text of a diagnostic line as it is stored.
pub open spec fn spec_stored_message(v: LogStorageView, message: Seq<char>) -> Seq<char> {
    if v.ansi_removal {
        strip(message)
    } else {
        message
    }
}

/// Whether an entry is let through: by the filter if there is one.
pub open spec fn spec_selected(e: LogEntryView, filter: Option<LogFilterView>) -> bool {
    match filter {
        Some(f) => spec_passes(e, f),
        None => true,
    }
}

/// The entries that are let through, in their order.
pub open spec fn spec_select(s: Seq<LogEntryView>, filter: Option<LogFilterView>) -> Seq<LogEntryView>
    decreases s.len(),
{
    if s.len() == 0 {
        Seq::empty()
    } else if spec_selected(s.last(), filter) {
        spec_select(s.drop_last(), filter).push(s.last())
    } else {
        spec_select(s.drop_last(), filter)
    }
}

/// `e` put into a sequence that is ordered newest first: before every entry
/// that is strictly older than it, behind all others.
pub open spec fn spec_insert_newest_first(sorted: Seq<LogEntryView>, e: LogEntryView) -> Seq<LogEntryView>
    decreases sorted.len(),
{
    if sorted.len() > 0 && sorted.last().timestamp.spec_before(e.timestamp) {
        spec_insert_newest_first(sorted.drop_last(), e).push(sorted.last())
    } else {
        sorted.push(e)
    }
}

/// The entries ordered by time stamp, newest first; entries with the same
/// time stamp keep their order.
pub open spec fn spec_newest_first(s: Seq<LogEntryView>) -> Seq<LogEntryView>
    decreases s.len(),
{
    if s.len() == 0 {
        Seq::empty()
    } else {
        spec_insert_newest_first(spec_newest_first(s.drop_last()), s.last())
    }
}

/// The first `limit` items, or all where there is no limit or fewer items.
pub open spec fn spec_truncate(s: Seq<LogEntryView>, limit: Option<usize>) -> Seq<LogEntryView> {
    match limit {
        Some(n) => if n < s.len() {
            s.take(n as int)
        } else {
            s
        },
        None => s,
    }
}

/// What a reader gets: the entries that the filter lets through, newest
/// first, cut to the limit.
pub open spec fn spec_get_logs(
    entries: Seq<LogEntryView>,
    limit: Option<usize>,
    filter: Option<LogFilterView>,
) -> Seq<LogEntryView> {
    spec_truncate(spec_newest_first(spec_select(entries, filter)), limit)
}

/// The view of an optional filter.
pub open spec fn filter_view(filter: Option<LogFilter>) -> Option<LogFilterView> {
    match filter {
        Some(f) => Some(f@),
        None => None,
    }
}

impl View for LogStorage {
    type V = LogStorageView;

    closed spec fn view(&self) -> LogStorageView {
        LogStorageView {
            entries: entries_view(self.entries@),
            next_id: self.next_id,
            max_entries: self.max_entries,
            ansi_removal: self.ansi_removal_enabled,
        }
    }
}

impl LogStorage {
    #[verifier::type_invariant]
    spec fn holds(self) -> bool {
        spec_well_formed(self@)
    }

    /// The store is within its capacity and its entries are numbered in
    /// strictly increasing order.
    pub open spec fn well_formed(&self) -> bool {
        spec_well_formed(self@)
    }

    /// Every store is well-formed: a call of this function brings the fact
    /// into the caller's proof. It does nothing when it runs.
    pub fn show_well_formed(&self)
        ensures
            self.well_formed(),
    {
        proof {
            use_type_invariant(self);
        }
    }

    /// An empty store with the capacity that the configuration gives.
    pub fn new(config: &LogConfig) -> (s: Self)
        ensures
            s.well_formed(),
            s@.entries.len() == 0,
            s@.next_id == 1,
            s@.max_entries == config.log_size,
            s@.ansi_removal,
    {
        Self::new_with_max_entries(config.log_size)
    }

    /// An empty store that keeps at most `max_entries` entries. Numbering
    /// starts at 1, and colour sequences are removed from diagnostic lines.
    pub fn new_with_max_entries(max_entries: usize) -> (s: Self)
        ensures
            s.well_formed(),
            s@.entries.len() == 0,
            s@.next_id == 1,
            s@.max_entries == max_entries,
            s@.ansi_removal,
    {
        let s = LogStorage {
            entries: VecDeque::new(),
            next_id: 1,
            max_entries,
            ansi_removal_enabled: true,
        };
        assert(s@.entries =~= Seq::empty());
        s
    }

    /// Puts one entry with the next number at the end and drops the oldest
    /// entries that no longer fit.
    pub fn record_at(&mut self, timestamp: Timestamp, content: LogEntryContent) -> (id: RequestId)
        requires
            old(self)@.next_id < usize::MAX,
        ensures
            id.0 == old(self)@.next_id,
            final(self)@ == spec_record(old(self)@, timestamp, content@),
    {
        proof {
            use_type_invariant(&*self);
            lemma_record_well_formed(old(self)@, timestamp, content@);
        }
        let id = self.next_id;
        let ghost entry = LogEntryView { id, timestamp, content: content@ };
        self.next_id = id + 1;
        if self.max_entries == 0 {
            assert(self@.entries =~= keep_last(old(self)@.entries.push(entry), 0));
            return RequestId(id);
        }
        // The entries are taken out and put back, so that the store is
        // well-formed at every step in between.
        let mut entries: VecDeque<LogEntry> = VecDeque::new();
        std::mem::swap(&mut self.entries, &mut entries);
        if entries.len() >= self.max_entries {
            entries.pop_front();
        }
        entries.push_back(LogEntry { id, timestamp, content });
        assert(entries_view(entries@) =~= keep_last(
            old(self)@.entries.push(entry),
            self.max_entries as nat,
        ));
        self.entries = entries;
        RequestId(id)
    }

    /// Records a request, stamped with the present time, and gives its number.
    pub fn add_request(&mut self, tool_name: String, arguments: JsonText) -> (id: RequestId)
        requires
            old(self)@.next_id < usize::MAX,
        ensures
            id.0 == old(self)@.next_id,
            exists|t: Timestamp|
                final(self)@ == spec_record(
                    old(self)@,
                    t,
                    ContentView::Request { tool_name: tool_name@, content: arguments@ },
                ),
    {
        let t = now();
        self.record_at(t, LogEntryContent::Request { tool_name, content: arguments })
    }

    /// Records the response to the request `request_id`, stamped with the present time.
    pub fn add_response(&mut self, request_id: RequestId, tool_name: String, response: JsonText)
        requires
            old(self)@.next_id < usize::MAX,
        ensures
            exists|t: Timestamp|
                final(self)@ == spec_record(
                    old(self)@,
                    t,
                    ContentView::Response {
                        tool_name: tool_name@,
                        request_id: request_id.0,
                        response: response@,
                    },
                ),
    {
        let t = now();
        self.record_at(
            t,
            LogEntryContent::Response { tool_name, request_id: request_id.0, response },
        );
    }

    /// Records an error for the request `request_id`, stamped with the present time.
    pub fn add_error(&mut self, request_id: RequestId, tool_name: String, error_message: String)
        requires
            old(self)@.next_id < usize::MAX,
        ensures
            exists|t: Timestamp|
                final(self)@ == spec_record(
                    old(self)@,
                    t,
                    ContentView::Error {
                        tool_name: tool_name@,
                        request_id: request_id.0,
                        error: error_message@,
                    },
                ),
    {
        let t = now();
        self.record_at(
            t,
            LogEntryContent::Error { tool_name, request_id: request_id.0, error: error_message },
        );
    }

    /// The diagnostic line as it is stored: without colour sequences where
    /// their removal is switched on.
    pub fn clean_message(&self, message: String) -> (r: String)
        ensures
            r@ == spec_stored_message(self@, message@),
    {
        if self.ansi_removal_enabled {
            remove_ansi_sequences(message.as_str())
        } else {
            message
        }
    }

    /// Records a diagnostic line of the child, stamped with the present
    /// time. Colour sequences are removed first where that is switched on.
    pub fn add_stderr(&mut self, message: String)
        requires
            old(self)@.next_id < usize::MAX,
        ensures
            exists|t: Timestamp|
                final(self)@ == spec_record(
                    old(self)@,
                    t,
                    ContentView::Stderr { message: spec_stored_message(old(self)@, message@) },
                ),
    {
        let t = now();
        let cleaned = self.clean_message(message);
        self.record_at(t, LogEntryContent::Stderr { message: cleaned });
    }

    /// Copies of the entries that the filter lets through, newest first, at
    /// most `limit` of them. Entries with the same time stamp stay in the
    /// order in which they were recorded.
    pub fn get_logs(&self, limit: Option<usize>, filter: Option<LogFilter>) -> (r: Vec<LogEntry>)
        ensures
            entries_view(r@) == spec_get_logs(self@.entries, limit, filter_view(filter)),
    {
        let ghost all = self@.entries;
        let ghost fv = filter_view(filter);
        let mut result: Vec<LogEntry> = Vec::new();
        let n = self.entries.len();
        let mut i: usize = 0;
        assert(all.take(0) =~= Seq::empty());
        while i < n
            invariant
                0 <= i <= n,
                n == self.entries@.len(),
                all == entries_view(self.entries@),
                fv == filter_view(filter),
                entries_view(result@) == spec_newest_first(spec_select(all.take(i as int), fv)),
            decreases n - i,
        {
            let entry = &self.entries[i];
            let passes = match &filter {
                Some(f) => entry.filter(f),
                None => true,
            };
            proof {
                assert(all.take(i + 1).drop_last() =~= all.take(i as int));
                assert(all.take(i + 1).last() == entry@);
            }
            if passes {
                let copy = entry.duplicate();
                let ghost sorted = entries_view(result@);
                let mut pos: usize = result.len();
                while pos > 0 && result[pos - 1].timestamp.before(&copy.timestamp)
                    invariant
                        0 <= pos <= result.len(),
                        sorted == entries_view(result@),
                        forall|k: int|
                            pos <= k < sorted.len() ==> (#[trigger] sorted[k]).timestamp.spec_before(
                                copy.timestamp,
                            ),
                    decreases pos,
                {
                    pos -= 1;
                }
                proof {
                    if pos > 0 {
                        assert(sorted[pos - 1] == result[pos - 1]@);
                    }
                    lemma_insert_position(sorted, copy@, pos as int);
                }
                result.insert(pos, copy);
                assert(entries_view(result@) =~= sorted.insert(pos as int, copy@));
                assert(spec_selected(entry@, fv));
                let ghost chosen = spec_select(all.take(i as int), fv);
                assert(spec_select(all.take(i + 1), fv) == chosen.push(entry@));
                assert(chosen.push(entry@).drop_last() =~= chosen);
                assert(spec_newest_first(chosen.push(entry@)) == spec_insert_newest_first(
                    spec_newest_first(chosen),
                    entry@,
                ));
            } else {
                assert(!spec_selected(entry@, fv));
                assert(spec_select(all.take(i + 1), fv) == spec_select(all.take(i as int), fv));
            }
            i += 1;
        }
        assert(all.take(n as int) =~= all);
        if let Some(limit) = limit {
            if limit < result.len() {
                result.truncate(limit);
                assert(entries_view(result@) =~= spec_newest_first(spec_select(all, fv)).take(
                    limit as int,
                ));
            }
        }
        result
    }

    /// Removes every entry and starts numbering again at 1.
    pub fn clear_logs(&mut self)
        ensures
            final(self)@ == spec_cleared(old(self)@),
    {
        proof {
            use_type_invariant(&*self);
        }
        self.entries = VecDeque::new();
        assert(self@.entries =~= Seq::empty());
        self.next_id = 1;
    }

    /// Whether another entry can be numbered: the next number is not the
    /// largest that the machine can hold.
    pub fn can_record(&self) -> (r: bool)
        ensures
            r == (self@.next_id < usize::MAX),
    {
        self.next_id < usize::MAX
    }

    /// Whether `count` more entries can be numbered.
    pub fn has_room(&self, count: usize) -> (r: bool)
        ensures
            r == (self@.next_id + count <= usize::MAX),
    {
        count <= usize::MAX - self.next_id
    }

    /// The number of entries held.
    pub fn get_log_count(&self) -> (n: usize)
        ensures
            n == self@.entries.len(),
    {
        self.entries.len()
    }

    /// Switches the removal of colour sequences from diagnostic lines on or off.
    pub fn set_ansi_removal(&mut self, enabled: bool)
        ensures
            final(self)@ == (LogStorageView { ansi_removal: enabled, ..old(self)@ }),
    {
        proof {
            use_type_invariant(&*self);
        }
        self.ansi_removal_enabled = enabled;
    }
}

/// Where `pos` parts the entries that are not older than `e` from those that
/// are strictly older, `e` goes in at `pos`.
pub proof fn lemma_insert_position(sorted: Seq<LogEntryView>, e: LogEntryView, pos: int)
    requires
        0 <= pos <= sorted.len(),
        forall|k: int| pos <= k < sorted.len() ==> (#[trigger] sorted[k]).timestamp.spec_before(
            e.timestamp,
        ),
        pos > 0 ==> !sorted[pos - 1].timestamp.spec_before(e.timestamp),
    ensures
        spec_insert_newest_first(sorted, e) == sorted.insert(pos, e),
    decreases sorted.len(),
{
    if pos == sorted.len() {
        assert(sorted.push(e) =~= sorted.insert(pos, e));
    } else {
        let rest = sorted.drop_last();
        assert(sorted.last().timestamp.spec_before(e.timestamp));
        assert forall|k: int| pos <= k < rest.len() implies (#[trigger] rest[k]).timestamp.spec_before(
            e.timestamp,
        ) by {
            assert(rest[k] == sorted[k]);
        }
        lemma_insert_position(rest, e, pos);
        assert(rest.insert(pos, e).push(sorted.last()) =~= sorted.insert(pos, e));
    }
}

/// One input to the store: the time stamp and the content of an entry.
pub struct Record {
    pub timestamp: Timestamp,
    pub content: ContentView,
}

/// The store after a sequence of inputs, recorded in order.
pub open spec fn spec_record_all(v: LogStorageView, items: Seq<Record>) -> LogStorageView
    decreases items.len(),
{
    if items.len() == 0 {
        v
    } else {
        spec_record(
            spec_record_all(v, items.drop_last()),
            items.last().timestamp,
            items.last().content,
        )
    }
}

/// The inputs as entries, numbered in order from `first_id` on.
pub open spec fn spec_numbered(items: Seq<Record>, first_id: int) -> Seq<LogEntryView> {
    Seq::new(
        items.len(),
        |k: int|
            LogEntryView {
                id: (first_id + k) as usize,
                timestamp: items[k].timestamp,
                content: items[k].content,
            },
    )
}

/// Cutting to the last `c` before and after adding an item is the same as
/// cutting once after adding it.
pub proof fn lemma_keep_last_push<T>(s: Seq<T>, x: T, c: nat)
    ensures
        keep_last(keep_last(s, c).push(x), c) == keep_last(s.push(x), c),
{
    assert(keep_last(keep_last(s, c).push(x), c) =~= keep_last(s.push(x), c));
}

/// First in, first out: after any sequence of inputs the store holds the
/// most recent entries, as many as its capacity allows, in the order in which
/// they came, and each input got the number that follows the one before it.
pub proof fn lemma_fifo_eviction(v: LogStorageView, items: Seq<Record>)
    requires
        spec_well_formed(v),
        v.next_id + items.len() <= usize::MAX,
    ensures
        spec_record_all(v, items).entries == keep_last(
            v.entries + spec_numbered(items, v.next_id as int),
            v.max_entries as nat,
        ),
        spec_record_all(v, items).next_id == v.next_id + items.len(),
        spec_record_all(v, items).max_entries == v.max_entries,
        spec_record_all(v, items).entries.len() <= v.max_entries,
    decreases items.len(),
{
    let c = v.max_entries as nat;
    if items.len() == 0 {
        assert(v.entries + spec_numbered(items, v.next_id as int) =~= v.entries);
    } else {
        let head = items.drop_last();
        lemma_fifo_eviction(v, head);
        let p = spec_record_all(v, head);
        let all_head = v.entries + spec_numbered(head, v.next_id as int);
        let x = LogEntryView {
            id: p.next_id,
            timestamp: items.last().timestamp,
            content: items.last().content,
        };
        lemma_keep_last_push(all_head, x, c);
        assert(all_head.push(x) =~= v.entries + spec_numbered(items, v.next_id as int));
    }
}

/// Numbers only grow: the number that the store hands out after `k` inputs
/// is `k` more than the one it started with, and recording keeps the store
/// well-formed, so that the numbers of the entries it holds increase strictly.
pub proof fn lemma_monotonic_ids(v: LogStorageView, items: Seq<Record>)
    requires
        spec_well_formed(v),
        v.next_id + items.len() <= usize::MAX,
    ensures
        spec_well_formed(spec_record_all(v, items)),
        forall|k: int|
            0 <= k <= items.len() ==> (#[trigger] spec_record_all(v, items.take(k))).next_id
                == v.next_id + k,
    decreases items.len(),
{
    assert forall|k: int| 0 <= k <= items.len() implies (#[trigger] spec_record_all(
        v,
        items.take(k),
    )).next_id == v.next_id + k by {
        lemma_fifo_eviction(v, items.take(k));
    }
    if items.len() > 0 {
        let head = items.drop_last();
        lemma_monotonic_ids(v, head);
        lemma_fifo_eviction(v, head);
        let p = spec_record_all(v, head);
        lemma_record_well_formed(p, items.last().timestamp, items.last().content);
    }
}

/// Recording one entry keeps the store well-formed.
pub proof fn lemma_record_well_formed(v: LogStorageView, timestamp: Timestamp, content: ContentView)
    requires
        spec_well_formed(v),
        v.next_id < usize::MAX,
    ensures
        spec_well_formed(spec_record(v, timestamp, content)),
{
    let x = LogEntryView { id: v.next_id, timestamp, content };
    let pushed = v.entries.push(x);
    let r = spec_record(v, timestamp, content);
    let d = pushed.len() - r.entries.len();
    assert forall|i: int| 0 <= i < r.entries.len() implies 1 <= (#[trigger] r.entries[i]).id
        < r.next_id by {
        assert(r.entries[i] == pushed[i + d]);
        if i + d < v.entries.len() {
            assert(pushed[i + d] == v.entries[i + d]);
        }
    }
    assert forall|i: int, j: int| 0 <= i < j < r.entries.len() implies (#[trigger] r.entries[i]).id
        < (#[trigger] r.entries[j]).id by {
        assert(r.entries[i] == pushed[i + d]);
        assert(r.entries[j] == pushed[j + d]);
        assert(pushed[i + d] == v.entries[i + d]);
        if j + d < v.entries.len() {
            assert(pushed[j + d] == v.entries[j + d]);
        }
    }
}

/// Only the oldest entry leaves, and only from a full store: recording into
/// a store with room puts the new entry at the end and keeps all others;
/// recording into a full store drops the first entry and nothing else.
pub proof fn lemma_record_evicts_oldest_only(
    v: LogStorageView,
    timestamp: Timestamp,
    content: ContentView,
)
    requires
        spec_well_formed(v),
    ensures
        ({
            let e = LogEntryView { id: v.next_id, timestamp, content };
            let after = spec_record(v, timestamp, content).entries;
            &&& v.entries.len() < v.max_entries ==> after == v.entries.push(e)
            &&& v.entries.len() == v.max_entries && v.max_entries >= 1 ==> after
                == v.entries.drop_first().push(e)
            &&& v.max_entries == 0 ==> after == Seq::<LogEntryView>::empty()
        }),
{
    let e = LogEntryView { id: v.next_id, timestamp, content };
    let after = spec_record(v, timestamp, content).entries;
    if v.entries.len() < v.max_entries {
        assert(after =~= v.entries.push(e));
    } else if v.max_entries >= 1 {
        assert(after =~= v.entries.drop_first().push(e));
    } else {
        assert(after =~= Seq::<LogEntryView>::empty());
    }
}

/// The number that an entry gets is new: it is above the number of every
/// entry that the store holds, the entry carries it with its content
/// unchanged, and the next number is one more.
pub proof fn lemma_record_number_is_new(
    v: LogStorageView,
    timestamp: Timestamp,
    content: ContentView,
)
    requires
        spec_well_formed(v),
        v.next_id < usize::MAX,
    ensures
        forall|i: int| 0 <= i < v.entries.len() ==> (#[trigger] v.entries[i]).id < v.next_id,
        spec_record(v, timestamp, content).next_id == v.next_id + 1,
        v.max_entries >= 1 ==> spec_record(v, timestamp, content).entries.last() == (LogEntryView {
            id: v.next_id,
            timestamp,
            content,
        }),
{
}

/// No entry is strictly older than one that comes after it.
pub open spec fn is_newest_first(s: Seq<LogEntryView>) -> bool {
    forall|i: int, j: int|
        0 <= i < j < s.len() ==> !(#[trigger] s[i]).timestamp.spec_before((#[trigger] s[j]).timestamp)
}

/// The place at which `spec_insert_newest_first` puts `e`.
proof fn lemma_insert_point(sorted: Seq<LogEntryView>, e: LogEntryView) -> (pos: int)
    ensures
        0 <= pos <= sorted.len(),
        spec_insert_newest_first(sorted, e) == sorted.insert(pos, e),
        forall|k: int| pos <= k < sorted.len() ==> (#[trigger] sorted[k]).timestamp.spec_before(
            e.timestamp,
        ),
        pos > 0 ==> !sorted[pos - 1].timestamp.spec_before(e.timestamp),
    decreases sorted.len(),
{
    if sorted.len() > 0 && sorted.last().timestamp.spec_before(e.timestamp) {
        let rest = sorted.drop_last();
        let pos = lemma_insert_point(rest, e);
        assert(rest.insert(pos, e).push(sorted.last()) =~= sorted.insert(pos, e));
        assert forall|k: int| pos <= k < sorted.len() implies (
        #[trigger] sorted[k]).timestamp.spec_before(e.timestamp) by {
            if k < rest.len() {
                assert(sorted[k] == rest[k]);
            }
        }
        if pos > 0 {
            assert(sorted[pos - 1] == rest[pos - 1]);
        }
        pos
    } else {
        assert(sorted.push(e) =~= sorted.insert(sorted.len() as int, e));
        sorted.len() as int
    }
}

/// Ordering newest first gives a sequence in which no entry is strictly
/// older than one behind it, and which holds the same entries as often.
pub proof fn lemma_newest_first(s: Seq<LogEntryView>)
    ensures
        is_newest_first(spec_newest_first(s)),
        spec_newest_first(s).to_multiset() == s.to_multiset(),
        spec_newest_first(s).len() == s.len(),
    decreases s.len(),
{
    broadcast use vstd::seq_lib::to_multiset_build, vstd::seq_lib::to_multiset_insert;

    if s.len() == 0 {
        assert(spec_newest_first(s) =~= s);
    } else {
        let head = s.drop_last();
        let e = s.last();
        lemma_newest_first(head);
        let sorted = spec_newest_first(head);
        let pos = lemma_insert_point(sorted, e);
        let r = sorted.insert(pos, e);
        assert(spec_newest_first(s) == r);
        assert forall|i: int, j: int| 0 <= i < j < r.len() implies !(
        #[trigger] r[i]).timestamp.spec_before((#[trigger] r[j]).timestamp) by {
            if j < pos {
                assert(r[i] == sorted[i] && r[j] == sorted[j]);
            } else if j == pos {
                assert(r[i] == sorted[i]);
                if i < pos - 1 {
                    assert(!sorted[i].timestamp.spec_before(sorted[pos - 1].timestamp));
                }
            } else if i < pos {
                assert(r[i] == sorted[i] && r[j] == sorted[j - 1]);
            } else if i == pos {
                assert(r[j] == sorted[j - 1]);
            } else {
                assert(r[i] == sorted[i - 1] && r[j] == sorted[j - 1]);
            }
        }
        assert(head.push(e) =~= s);
        assert(r.to_multiset() == sorted.to_multiset().insert(e));
        assert(s.to_multiset() == head.to_multiset().insert(e));
    }
}

/// Read ordering: whatever the order in which the entries were recorded,
/// what a reader gets is ordered newest first and is no longer than the limit.
pub proof fn lemma_read_ordering(
    entries: Seq<LogEntryView>,
    limit: Option<usize>,
    filter: Option<LogFilterView>,
)
    ensures
        is_newest_first(spec_get_logs(entries, limit, filter)),
        limit matches Some(n) ==> spec_get_logs(entries, limit, filter).len() <= n,
        spec_get_logs(entries, limit, filter).len() <= entries.len(),
{
    let chosen = spec_select(entries, filter);
    lemma_select_len(entries, filter);
    lemma_newest_first(chosen);
    let sorted = spec_newest_first(chosen);
    let r = spec_get_logs(entries, limit, filter);
    assert forall|i: int, j: int| 0 <= i < j < r.len() implies !(
    #[trigger] r[i]).timestamp.spec_before((#[trigger] r[j]).timestamp) by {
        assert(r[i] == sorted[i] && r[j] == sorted[j]);
    }
}

/// A selection is no longer than what it was made from.
pub proof fn lemma_select_len(s: Seq<LogEntryView>, filter: Option<LogFilterView>)
    ensures
        spec_select(s, filter).len() <= s.len(),
    decreases s.len(),
{
    if s.len() > 0 {
        lemma_select_len(s.drop_last(), filter);
    }
}

} // verus!
