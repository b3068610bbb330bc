//! The history of dictations: the newest entries first, and no more than
//! `MAX_HISTORY_ENTRIES` of them after an entry is added or entries are
//! imported.

use crate::active_app_context::ActiveAppContextSnapshot;
use crate::active_app_context::ActiveAppContextSnapshotView;
use crate::text::str_eq;
use vstd::prelude::*;

verus! {

/// The number of entries that the history keeps.
pub const MAX_HISTORY_ENTRIES: usize = 500;

/// How entries from a file are put into the history.
#[derive(Debug, Clone, Copy, PartialEq, Eq, Structural)]
pub enum HistoryImportStrategy {
    /// The entries from the file take the place of the history.
    Replace,
    /// The entries from the file are put before the history.
    MergeAppend,
    /// The entries from the file whose id the history does not hold yet are
    /// put into the history by their time.
    MergeDeduplicate,
}

/// How an import went.
#[derive(Debug, Clone, Copy, PartialEq, Eq, Structural)]
pub struct HistoryImportResult {
    pub success: bool,
    pub entries_imported: Option<usize>,
    pub entries_skipped: Option<usize>,
}

/// The time of an entry: seconds since the start of 1970 in UTC, and the
/// nanoseconds within the second.
#[derive(Debug, Clone, Copy, PartialEq, Eq, Structural)]
pub struct EntryTimestamp {
    pub seconds: i64,
    pub nanoseconds: u32,
}

impl EntryTimestamp {
    /// Whether this time lies before `other`.
    pub open spec fn is_before(self, other: EntryTimestamp) -> bool {
        self.seconds < other.seconds || (self.seconds == other.seconds && self.nanoseconds
            < other.nanoseconds)
    }

    /// Tests whether this time lies before `other`.
    pub fn before(self, other: EntryTimestamp) -> (r: bool)
        ensures
            r == self.is_before(other),
    {
        self.seconds < other.seconds || (self.seconds == other.seconds && self.nanoseconds
            < other.nanoseconds)
    }
}

/// One dictation.
#[derive(Debug)]
pub struct HistoryEntry {
    pub id: String,
    pub timestamp: EntryTimestamp,
    /// The text as it was typed.
    pub text: String,
    /// The text as it was heard.
    pub raw_text: String,
    /// What had the focus when the text was dictated.
    pub active_app_context: Option<ActiveAppContextSnapshot>,
}

/// A `HistoryEntry` as plain text.
pub struct HistoryEntryView {
    pub id: Seq<char>,
    pub timestamp: EntryTimestamp,
    pub text: Seq<char>,
    pub raw_text: Seq<char>,
    pub active_app_context: Option<ActiveAppContextSnapshotView>,
}

impl View for HistoryEntry {
    type V = HistoryEntryView;

    open spec fn view(&self) -> HistoryEntryView {
        HistoryEntryView {
            id: self.id@,
            timestamp: self.timestamp,
            text: self.text@,
            raw_text: self.raw_text@,
            active_app_context: match self.active_app_context {
                Some(snapshot) => Some(snapshot@),
                None => None,
            },
        }
    }
}

impl Clone for HistoryEntry {
    fn clone(&self) -> (r: Self)
        ensures
            r == *self,
    {
        HistoryEntry {
            id: self.id.clone(),
            timestamp: self.timestamp,
            text: self.text.clone(),
            raw_text: self.raw_text.clone(),
            active_app_context: match &self.active_app_context {
                Some(snapshot) => Some(snapshot.clone()),
                None => None,
            },
        }
    }
}

impl HistoryEntry {
    /// Makes the entry of a dictation from its id, which is to be new, and the
    /// time of the dictation.
    pub fn new(
        id: String,
        timestamp: EntryTimestamp,
        text: String,
        raw_text: String,
        active_app_context: Option<ActiveAppContextSnapshot>,
    ) -> (r: Self)
        ensures
            r == (HistoryEntry { id, timestamp, text, raw_text, active_app_context }),
    {
        HistoryEntry { id, timestamp, text, raw_text, active_app_context }
    }
}

/// The entries of a list as plain text.
pub open spec fn entry_views(entries: Seq<HistoryEntry>) -> Seq<HistoryEntryView> {
    entries.map_values(|entry: HistoryEntry| entry@)
}

/// The first `MAX_HISTORY_ENTRIES` entries of a list.
pub open spec fn capped(entries: Seq<HistoryEntryView>) -> Seq<HistoryEntryView> {
    if entries.len() > MAX_HISTORY_ENTRIES {
        entries.take(MAX_HISTORY_ENTRIES as int)
    } else {
        entries
    }
}

/// The first `limit` entries of a list, and all where there is no limit or
/// the list is shorter.
pub open spec fn limited(entries: Seq<HistoryEntryView>, limit: Option<usize>) -> Seq<
    HistoryEntryView,
> {
    match limit {
        Some(limit) => if limit < entries.len() {
            entries.take(limit as int)
        } else {
            entries
        },
        None => entries,
    }
}

/// Whether an entry of the list has the id `id`.
pub open spec fn holds_id(entries: Seq<HistoryEntryView>, id: Seq<char>) -> bool {
    exists|i: int| 0 <= i < entries.len() && #[trigger] entries[i].id == id
}

/// The entries of a list whose id is not `id`, in their order.
pub open spec fn without_id(entries: Seq<HistoryEntryView>, id: Seq<char>) -> Seq<HistoryEntryView>
    decreases entries.len(),
{
    if entries.len() == 0 {
        entries
    } else if entries.last().id == id {
        without_id(entries.drop_last(), id)
    } else {
        without_id(entries.drop_last(), id).push(entries.last())
    }
}

/// The entries of `imported` whose id no entry of `existing` has, in their
/// order.
pub open spec fn not_yet_held(imported: Seq<HistoryEntryView>, existing: Seq<HistoryEntryView>)
    -> Seq<HistoryEntryView>
    decreases imported.len(),
{
    if imported.len() == 0 {
        imported
    } else if holds_id(existing, imported.last().id) {
        not_yet_held(imported.drop_last(), existing)
    } else {
        not_yet_held(imported.drop_last(), existing).push(imported.last())
    }
}

/// A list that is in order with `entry` put into it: behind every entry that
/// is not older, so before the first that is older.
pub open spec fn inserted_newest_first(sorted: Seq<HistoryEntryView>, entry: HistoryEntryView)
    -> Seq<HistoryEntryView>
    decreases sorted.len(),
{
    if sorted.len() == 0 {
        seq![entry]
    } else if sorted.first().timestamp.is_before(entry.timestamp) {
        seq![entry] + sorted
    } else {
        seq![sorted.first()] + inserted_newest_first(sorted.drop_first(), entry)
    }
}

/// The entries of a list with the newest first. Entries of the same time keep
/// their order.
pub open spec fn newest_first(entries: Seq<HistoryEntryView>) -> Seq<HistoryEntryView>
    decreases entries.len(),
{
    if entries.len() == 0 {
        entries
    } else {
        inserted_newest_first(newest_first(entries.drop_last()), entries.last())
    }
}

/// Whether no entry of the list stands before a newer one.
pub open spec fn is_newest_first(entries: Seq<HistoryEntryView>) -> bool {
    forall|i: int, j: int|
        0 <= i < j < entries.len() ==> !(#[trigger] entries[i]).timestamp.is_before(
            (#[trigger] entries[j]).timestamp,
        )
}

/// Putting an entry into a list is putting it at the first place at which an
/// older entry stands, or at the end.
pub proof fn lemma_inserted_at(sorted: Seq<HistoryEntryView>, entry: HistoryEntryView, at: int)
    requires
        0 <= at <= sorted.len(),
        forall|i: int| 0 <= i < at ==> !(#[trigger] sorted[i]).timestamp.is_before(entry.timestamp),
        at < sorted.len() ==> sorted[at].timestamp.is_before(entry.timestamp),
    ensures
        inserted_newest_first(sorted, entry) == sorted.insert(at, entry),
    decreases sorted.len(),
{
    if sorted.len() == 0 {
        assert(sorted.insert(at, entry) =~= seq![entry]);
    } else if at == 0 {
        assert(sorted.insert(at, entry) =~= seq![entry] + sorted);
    } else {
        let rest = sorted.drop_first();
        assert(!sorted[0].timestamp.is_before(entry.timestamp));
        assert forall|i: int| 0 <= i < at - 1 implies !(#[trigger] rest[i]).timestamp.is_before(
            entry.timestamp,
        ) by {
            assert(rest[i] == sorted[i + 1]);
        }
        lemma_inserted_at(rest, entry, at - 1);
        assert(sorted.insert(at, entry) =~= seq![sorted.first()] + rest.insert(at - 1, entry));
    }
}

/// Putting an entry into a list gives a list with that entry and those of the
/// list, one longer, and in order where the list was.
pub proof fn lemma_inserted_keeps_order(sorted: Seq<HistoryEntryView>, entry: HistoryEntryView)
    requires
        is_newest_first(sorted),
    ensures
        is_newest_first(inserted_newest_first(sorted, entry)),
        inserted_newest_first(sorted, entry).len() == sorted.len() + 1,
        inserted_newest_first(sorted, entry).to_multiset() == sorted.to_multiset().insert(entry),
    decreases sorted.len(),
{
    broadcast use vstd::seq_lib::group_to_multiset_ensures;

    let result = inserted_newest_first(sorted, entry);
    if sorted.len() == 0 {
        assert(result =~= sorted.push(entry));
    } else if sorted.first().timestamp.is_before(entry.timestamp) {
        assert(result =~= sorted.insert(0, entry));
        assert forall|i: int, j: int| 0 <= i < j < result.len() implies !(
        #[trigger] result[i]).timestamp.is_before((#[trigger] result[j]).timestamp) by {
            if i == 0 {
                assert(result[j] == sorted[j - 1]);
                if j - 1 > 0 {
                    assert(!sorted[0].timestamp.is_before(sorted[j - 1].timestamp));
                }
            } else {
                assert(result[i] == sorted[i - 1]);
                assert(result[j] == sorted[j - 1]);
            }
        }
    } else {
        let rest = sorted.drop_first();
        assert forall|i: int, j: int| 0 <= i < j < rest.len() implies !(
        #[trigger] rest[i]).timestamp.is_before((#[trigger] rest[j]).timestamp) by {
            assert(rest[i] == sorted[i + 1]);
            assert(rest[j] == sorted[j + 1]);
        }
        lemma_inserted_keeps_order(rest, entry);
        let tail = inserted_newest_first(rest, entry);
        assert(result =~= tail.insert(0, sorted.first()));
        assert(sorted =~= rest.insert(0, sorted.first()));
        assert forall|i: int, j: int| 0 <= i < j < result.len() implies !(
        #[trigger] result[i]).timestamp.is_before((#[trigger] result[j]).timestamp) by {
            if i == 0 {
                let other = tail[j - 1];
                assert(result[j] == other);
                assert(tail.to_multiset().count(other) > 0);
                if other != entry {
                    assert(rest.to_multiset().count(other) > 0);
                    let k = choose|k: int| 0 <= k < rest.len() && rest[k] == other;
                    assert(sorted[k + 1] == other);
                    assert(!sorted[0].timestamp.is_before(sorted[k + 1].timestamp));
                }
            } else {
                assert(result[i] == tail[i - 1]);
                assert(result[j] == tail[j - 1]);
            }
        }
    }
}

/// The list with the newest first holds the entries of the list it was made
/// of, each as often, and no entry of it stands before a newer one.
pub proof fn lemma_newest_first_sorts(entries: Seq<HistoryEntryView>)
    ensures
        is_newest_first(newest_first(entries)),
        newest_first(entries).len() == entries.len(),
        newest_first(entries).to_multiset() == entries.to_multiset(),
    decreases entries.len(),
{
    broadcast use vstd::seq_lib::group_to_multiset_ensures;

    if entries.len() > 0 {
        lemma_newest_first_sorts(entries.drop_last());
        lemma_inserted_keeps_order(newest_first(entries.drop_last()), entries.last());
        assert(entries =~= entries.drop_last().push(entries.last()));
    }
}

/// Puts the entries of a list in order, the newest first.
fn sort_newest_first(entries: Vec<HistoryEntry>) -> (r: Vec<HistoryEntry>)
    ensures
        entry_views(r@) == newest_first(entry_views(entries@)),
{
    let ghost all = entry_views(entries@);
    let mut pending = entries;
    let mut sorted: Vec<HistoryEntry> = Vec::new();
    let ghost mut done: int = 0;
    assert(all.skip(0) =~= all);
    assert(all.take(0) =~= Seq::<HistoryEntryView>::empty());
    assert(entry_views(sorted@) =~= Seq::<HistoryEntryView>::empty());
    while pending.len() > 0
        invariant
            0 <= done <= all.len(),
            pending.len() == all.len() - done,
            entry_views(pending@) == all.skip(done),
            entry_views(sorted@) == newest_first(all.take(done)),
        decreases pending.len(),
    {
        let ghost pending_before = pending@;
        let ghost sorted_before = sorted@;
        let entry = pending.remove(0);
        let mut position: usize = 0;
        while position < sorted.len() && !sorted[position].timestamp.before(entry.timestamp)
            invariant
                position <= sorted.len(),
                forall|i: int|
                    0 <= i < position ==> !(#[trigger] sorted@[i]).timestamp.is_before(
                        entry.timestamp,
                    ),
            decreases sorted.len() - position,
        {
            position = position + 1;
        }
        proof {
            let views = entry_views(sorted@);
            assert forall|i: int| 0 <= i < position implies !(
            #[trigger] views[i]).timestamp.is_before(entry@.timestamp) by {
                assert(views[i] == sorted@[i]@);
            }
            lemma_inserted_at(views, entry@, position as int);
            assert(entry_views(pending_before)[0] == entry@);
            assert(all.skip(done)[0] == all[done]);
            assert(all.take(done + 1).drop_last() =~= all.take(done));
            assert(all.take(done + 1).last() == all[done]);
        }
        sorted.insert(position, entry);
        proof {
            assert(entry_views(sorted@) =~= entry_views(sorted_before).insert(
                position as int,
                entry@,
            ));
            assert forall|k: int| 0 <= k < pending@.len() implies entry_views(pending@)[k]
                == all.skip(done + 1)[k] by {
                assert(pending@[k] == pending_before[k + 1]);
                assert(entry_views(pending_before)[k + 1] == all.skip(done)[k + 1]);
            }
            assert(entry_views(pending@) =~= all.skip(done + 1));
            done = done + 1;
        }
    }
    assert(all.take(all.len() as int) =~= all);
    sorted
}

/// Cuts a list down to its first `MAX_HISTORY_ENTRIES` entries.
fn cap(entries: &mut Vec<HistoryEntry>)
    ensures
        entry_views(final(entries)@) == capped(entry_views(old(entries)@)),
{
    if entries.len() > MAX_HISTORY_ENTRIES {
        entries.truncate(MAX_HISTORY_ENTRIES);
        assert(entry_views(entries@) =~= entry_views(old(entries)@).take(
            MAX_HISTORY_ENTRIES as int,
        ));
    }
}

/// Tests whether an entry of the list has the id `id`.
fn contains_id(entries: &Vec<HistoryEntry>, id: &str) -> (r: bool)
    ensures
        r == holds_id(entry_views(entries@), id@),
{
    let mut i: usize = 0;
    while i < entries.len()
        invariant
            i <= entries.len(),
            forall|j: int| 0 <= j < i ==> entries@[j].id@ != id@,
        decreases entries.len() - i,
    {
        if str_eq(entries[i].id.as_str(), id) {
            assert(entry_views(entries@)[i as int].id == id@);
            return true;
        }
        i = i + 1;
    }
    assert forall|j: int| 0 <= j < entry_views(entries@).len() implies #[trigger] entry_views(
        entries@,
    )[j].id != id@ by {
        assert(entry_views(entries@)[j] == entries@[j]@);
    }
    false
}

/// The history of dictations as the running application holds it. Each
/// change is made here first; the caller then writes the history to disk.
pub struct HistoryStorage {
    entries: Vec<HistoryEntry>,
}

impl View for HistoryStorage {
    type V = Seq<HistoryEntryView>;

    closed spec fn view(&self) -> Seq<HistoryEntryView> {
        entry_views(self.entries@)
    }
}

/// What an import makes of the history: the entries that the history then
/// holds, before it is cut down, and the number of entries that were taken
/// in.
pub open spec fn imported(
    existing: Seq<HistoryEntryView>,
    entries: Seq<HistoryEntryView>,
    strategy: HistoryImportStrategy,
) -> (Seq<HistoryEntryView>, nat) {
    match strategy {
        HistoryImportStrategy::Replace => (newest_first(entries), entries.len()),
        HistoryImportStrategy::MergeAppend => (newest_first(entries) + existing, entries.len()),
        HistoryImportStrategy::MergeDeduplicate => (
            newest_first(not_yet_held(entries, existing) + existing),
            not_yet_held(entries, existing).len(),
        ),
    }
}

impl HistoryStorage {
    /// Makes the history of the entries that were read from disk, or an empty
    /// one where none could be read.
    pub fn new(loaded_entries: Option<Vec<HistoryEntry>>) -> (r: Self)
        ensures
            r@ == match loaded_entries {
                Some(entries) => entry_views(entries@),
                None => Seq::empty(),
            },
    {
        HistoryStorage {
            entries: match loaded_entries {
                Some(entries) => entries,
                None => Vec::new(),
            },
        }
    }

    /// Puts a new entry at the head of the history and drops what lies beyond
    /// the `MAX_HISTORY_ENTRIES` newest. The result is a copy of the entry.
    pub fn add_entry(&mut self, new_history_entry: HistoryEntry) -> (r: HistoryEntry)
        ensures
            r@ == new_history_entry@,
            final(self)@ == capped(seq![new_history_entry@] + old(self)@),
    {
        let copy = new_history_entry.clone();
        self.entries.insert(0, new_history_entry);
        assert(entry_views(self.entries@) =~= seq![new_history_entry@] + old(self)@);
        cap(&mut self.entries);
        copy
    }

    /// The entries of the history, the newest first: the first `limit` of
    /// them, or all where there is no limit.
    pub fn get_all(&self, limit: Option<usize>) -> (r: Vec<HistoryEntry>)
        ensures
            entry_views(r@) == limited(self@, limit),
    {
        let count: usize = match limit {
            Some(limit) => if limit < self.entries.len() {
                limit
            } else {
                self.entries.len()
            },
            None => self.entries.len(),
        };
        let mut result: Vec<HistoryEntry> = Vec::new();
        let mut i: usize = 0;
        while i < count
            invariant
                i <= count <= self.entries.len(),
                entry_views(result@) == self@.take(i as int),
            decreases count - i,
        {
            let ghost result_before = result@;
            result.push(self.entries[i].clone());
            assert(self@[i as int] == self.entries@[i as int]@);
            assert(entry_views(result@) =~= entry_views(result_before).push(
                self.entries@[i as int]@,
            ));
            assert(entry_views(result@) =~= self@.take(i + 1));
            i = i + 1;
        }
        assert(self@.take(self.entries.len() as int) =~= self@);
        result
    }

    /// Takes the entries with the id `id` out of the history, and tells
    /// whether there was one.
    pub fn delete(&mut self, id: &str) -> (deleted: bool)
        ensures
            final(self)@ == without_id(old(self)@, id@),
            deleted == holds_id(old(self)@, id@),
            deleted == (final(self)@.len() < old(self)@.len()),
    {
        let ghost before = self@;
        let mut kept: Vec<HistoryEntry> = Vec::new();
        let mut dropped: usize = 0;
        let mut i: usize = 0;
        assert(before.take(0) =~= Seq::<HistoryEntryView>::empty());
        while i < self.entries.len()
            invariant
                i <= self.entries.len(),
                self@ == before,
                entry_views(kept@) == without_id(before.take(i as int), id@),
                kept.len() + dropped == i,
                dropped > 0 <==> holds_id(before.take(i as int), id@),
            decreases self.entries.len() - i,
        {
            let ghost kept_before = kept@;
            proof {
                assert(before.take(i + 1).drop_last() =~= before.take(i as int));
                assert(before.take(i + 1).last() == self.entries@[i as int]@);
                lemma_holds_id_push(before.take(i as int), self.entries@[i as int]@, id@);
                assert(before.take(i + 1) =~= before.take(i as int).push(self.entries@[i as int]@));
            }
            if str_eq(self.entries[i].id.as_str(), id) {
                dropped = dropped + 1;
            } else {
                kept.push(self.entries[i].clone());
                assert(entry_views(kept@) =~= entry_views(kept_before).push(
                    self.entries@[i as int]@,
                ));
            }
            i = i + 1;
        }
        assert(before.take(before.len() as int) =~= before);
        self.entries = kept;
        dropped > 0
    }

    /// Empties the history.
    pub fn clear(&mut self)
        ensures
            final(self)@ == Seq::<HistoryEntryView>::empty(),
    {
        self.entries.clear();
        assert(entry_views(self.entries@) =~= Seq::<HistoryEntryView>::empty());
    }

    /// Takes the entries of a file into the history, as `strategy` says, and
    /// drops what lies beyond the first `MAX_HISTORY_ENTRIES`. The result
    /// counts the entries that were taken in; none counts as skipped.
    pub fn import_entries(&mut self, entries: Vec<HistoryEntry>, strategy: HistoryImportStrategy)
        -> (r: HistoryImportResult)
        ensures
            final(self)@ == capped(imported(old(self)@, entry_views(entries@), strategy).0),
            r == (HistoryImportResult {
                success: true,
                entries_imported: Some(
                    imported(old(self)@, entry_views(entries@), strategy).1 as usize,
                ),
                entries_skipped: Some(0usize),
            }),
    {
        let imported_count: usize;
        match strategy {
            HistoryImportStrategy::Replace => {
                imported_count = entries.len();
                self.entries = sort_newest_first(entries);
            },
            HistoryImportStrategy::MergeAppend => {
                imported_count = entries.len();
                let mut combined_entries = sort_newest_first(entries);
                let ghost head = entry_views(combined_entries@);
                combined_entries.append(&mut self.entries);
                assert(entry_views(combined_entries@) =~= head + old(self)@);
                self.entries = combined_entries;
            },
            HistoryImportStrategy::MergeDeduplicate => {
                let ghost all = entry_views(entries@);
                let ghost existing = old(self)@;
                let mut pending = entries;
                let mut new_entries: Vec<HistoryEntry> = Vec::new();
                let ghost mut done: int = 0;
                assert(all.skip(0) =~= all);
                assert(all.take(0) =~= Seq::<HistoryEntryView>::empty());
                while pending.len() > 0
                    invariant
                        0 <= done <= all.len(),
                        pending.len() == all.len() - done,
                        self@ == existing,
                        entry_views(pending@) == all.skip(done),
                        entry_views(new_entries@) == not_yet_held(all.take(done), existing),
                    decreases pending.len(),
                {
                    let ghost pending_before = pending@;
                    let ghost new_before = new_entries@;
                    let entry = pending.remove(0);
                    proof {
                        assert(entry_views(pending_before)[0] == entry@);
                        assert(all.skip(done)[0] == all[done]);
                        assert(all.take(done + 1).drop_last() =~= all.take(done));
                        assert(all.take(done + 1).last() == all[done]);
                        assert forall|k: int| 0 <= k < pending@.len() implies entry_views(
                            pending@,
                        )[k] == all.skip(done + 1)[k] by {
                            assert(pending@[k] == pending_before[k + 1]);
                            assert(entry_views(pending_before)[k + 1] == all.skip(done)[k + 1]);
                        }
                        assert(entry_views(pending@) =~= all.skip(done + 1));
                    }
                    if !contains_id(&self.entries, entry.id.as_str()) {
                        new_entries.push(entry);
                        assert(entry_views(new_entries@) =~= entry_views(new_before).push(entry@));
                    }
                    proof {
                        done = done + 1;
                    }
                }
                assert(all.take(all.len() as int) =~= all);
                imported_count = new_entries.len();
                let ghost head = entry_views(new_entries@);
                let mut combined_entries = new_entries;
                combined_entries.append(&mut self.entries);
                assert(entry_views(combined_entries@) =~= head + existing);
                self.entries = sort_newest_first(combined_entries);
            },
        }
        cap(&mut self.entries);
        HistoryImportResult {
            success: true,
            entries_imported: Some(imported_count),
            entries_skipped: Some(0),
        }
    }
}

/// A list with one more entry holds an id exactly if the list did or the
/// entry has it.
proof fn lemma_holds_id_push(
    entries: Seq<HistoryEntryView>,
    entry: HistoryEntryView,
    id: Seq<char>,
)
    ensures
        holds_id(entries.push(entry), id) <==> holds_id(entries, id) || entry.id == id,
{
    let longer = entries.push(entry);
    if holds_id(entries, id) {
        let i = choose|i: int| 0 <= i < entries.len() && #[trigger] entries[i].id == id;
        assert(longer[i].id == id);
    }
    if entry.id == id {
        assert(longer[entries.len() as int].id == id);
    }
    if holds_id(longer, id) {
        let i = choose|i: int| 0 <= i < longer.len() && #[trigger] longer[i].id == id;
        if i < entries.len() {
            assert(entries[i].id == id);
        }
    }
}

/// Taking the entries with an id out of a list makes the list shorter exactly
/// if it held the id, and leaves no entry with the id.
pub proof fn lemma_without_id(entries: Seq<HistoryEntryView>, id: Seq<char>)
    ensures
        without_id(entries, id).len() <= entries.len(),
        without_id(entries, id).len() < entries.len() <==> holds_id(entries, id),
        !holds_id(without_id(entries, id), id),
    decreases entries.len(),
{
    if entries.len() > 0 {
        let front = entries.drop_last();
        lemma_without_id(front, id);
        assert(entries =~= front.push(entries.last()));
        lemma_holds_id_push(front, entries.last(), id);
        if entries.last().id != id {
            lemma_holds_id_push(without_id(front, id), entries.last(), id);
        }
    }
}

} // verus!
