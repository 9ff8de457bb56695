//! The rotating log sink's state: the active file's byte count and the
//! matching files still on disk. A write rotates before it would push the
//! active file past the size bound; a rotation evicts the oldest files until
//! the retention count holds again. The caller performs the file operations
//! the returned plans call for; the sink is the only mutator of its
//! directory, so the model here tracks the directory exactly.

use vstd::prelude::*;
use vstd::seq_lib::group_to_multiset_ensures;
use vstd::string::StringSliceAdditionalSpecFns;
use crate::logfmt::{lemma_fresh_name_matches_pattern, log_file_name, spec_is_log_file_name,
    spec_log_file_name, TIMESTAMP_LIMIT_SECS};

verus! {

/// Size bound of the active log file, in bytes.
pub const MAX_LOG_SIZE: u64 = 2 * 1024 * 1024;

/// Retention bound: how many matching log files the directory may hold.
pub const MAX_LOG_FILES: usize = 5;

/// Largest record the sink takes, in bytes; keeps size arithmetic exact.
pub const MAX_RECORD_BYTES: u64 = 0xffff_ffff;

/// One log file on disk: its name and its last-modified time.
#[derive(Debug)]
pub struct LogFileRecord {
    pub name: String,
    pub modified_secs: u64,
}

/// `rec` is at least as old as every file of `files`.
pub open spec fn is_oldest_of(rec: LogFileRecord, files: Seq<LogFileRecord>) -> bool {
    forall|i: int|
        0 <= i < files.len() ==> rec.modified_secs <= (#[trigger] files[i]).modified_secs
}

/// What retention cleanup owes: `kept` and `evicted` split `files` exactly,
/// the kept count is below the retention bound, and nothing kept is older
/// than anything evicted.
pub open spec fn spec_cleanup_ok(
    files: Seq<LogFileRecord>,
    kept: Seq<LogFileRecord>,
    evicted: Seq<LogFileRecord>,
) -> bool {
    &&& kept.to_multiset().add(evicted.to_multiset()) == files.to_multiset()
    &&& kept.len() == if files.len() >= MAX_LOG_FILES {
        (MAX_LOG_FILES - 1) as int
    } else {
        files.len() as int
    }
    &&& kept.len() + evicted.len() == files.len()
    &&& forall|i: int, j: int|
        0 <= i < evicted.len() && 0 <= j < kept.len() ==> (#[trigger] evicted[i]).modified_secs
            <= (#[trigger] kept[j]).modified_secs
}

fn index_of_oldest(files: &Vec<LogFileRecord>) -> (m: usize)
    requires
        files@.len() > 0,
    ensures
        m < files@.len(),
        forall|j: int|
            0 <= j < files@.len() ==> files@[m as int].modified_secs
                <= (#[trigger] files@[j]).modified_secs,
{
    let mut m: usize = 0;
    let mut i: usize = 1;
    while i < files.len()
        invariant
            m < i,
            i <= files@.len(),
            forall|j: int|
                0 <= j < i ==> files@[m as int].modified_secs
                    <= (#[trigger] files@[j]).modified_secs,
        decreases files@.len() - i,
    {
        if files[i].modified_secs < files[m].modified_secs {
            m = i;
        }
        i += 1;
    }
    m
}

/// Retention cleanup: evict the oldest files, one at a time, until fewer than
/// `MAX_LOG_FILES` remain. Returns the kept files and the evicted ones.
pub fn plan_cleanup(files: Vec<LogFileRecord>) -> (r: (Vec<LogFileRecord>, Vec<LogFileRecord>))
    ensures
        spec_cleanup_ok(files@, r.0@, r.1@),
{
    broadcast use group_to_multiset_ensures;

    let ghost all = files@;
    let mut kept = files;
    let mut evicted: Vec<LogFileRecord> = Vec::new();
    while kept.len() >= MAX_LOG_FILES
        invariant
            kept@.to_multiset().add(evicted@.to_multiset()) == all.to_multiset(),
            kept@.len() + evicted@.len() == all.len(),
            all.len() >= MAX_LOG_FILES ==> kept@.len() >= MAX_LOG_FILES - 1,
            all.len() < MAX_LOG_FILES ==> kept@.len() == all.len(),
            forall|i: int, j: int|
                0 <= i < evicted@.len() && 0 <= j < kept@.len() ==> (
                #[trigger] evicted@[i]).modified_secs <= (#[trigger] kept@[j]).modified_secs,
        decreases kept@.len(),
    {
        let m = index_of_oldest(&kept);
        let ghost kept_before = kept@;
        let ghost evicted_before = evicted@;
        let rec = kept.remove(m);
        evicted.push(rec);
        proof {
            broadcast use group_to_multiset_ensures;
            broadcast use vstd::multiset::group_multiset_axioms;
            broadcast use vstd::multiset::group_multiset_properties;

            assert(kept_before.contains(kept_before[m as int]));
            assert(kept@.to_multiset() == kept_before.remove(m as int).to_multiset());
            assert(kept_before.remove(m as int).to_multiset() =~= kept_before.to_multiset()
                .remove(kept_before[m as int]));
            assert(evicted@.to_multiset() =~= evicted_before.to_multiset().insert(rec));
            assert(kept@.to_multiset().add(evicted@.to_multiset()) =~= kept_before.to_multiset()
                .add(evicted_before.to_multiset()));
            assert forall|i: int, j: int|
                0 <= i < evicted@.len() && 0 <= j < kept@.len() implies (
            #[trigger] evicted@[i]).modified_secs <= (#[trigger] kept@[j]).modified_secs by {
                if i < evicted_before.len() {
                    assert(kept@[j] == kept_before.remove(m as int)[j]);
                    if j < m {
                        assert(kept@[j] == kept_before[j]);
                    } else {
                        assert(kept@[j] == kept_before[j + 1]);
                    }
                } else {
                    assert(evicted@[i] == rec);
                    if j < m {
                        assert(kept@[j] == kept_before[j]);
                    } else {
                        assert(kept@[j] == kept_before[j + 1]);
                    }
                }
            }
        }
    }
    (kept, evicted)
}

/// Cleanup invents nothing: every kept and every evicted file was present in
/// the directory it ran over.
pub proof fn lemma_cleanup_members_come_from_files(
    files: Seq<LogFileRecord>,
    kept: Seq<LogFileRecord>,
    evicted: Seq<LogFileRecord>,
)
    requires
        spec_cleanup_ok(files, kept, evicted),
    ensures
        forall|j: int| 0 <= j < kept.len() ==> files.contains(#[trigger] kept[j]),
        forall|j: int| 0 <= j < evicted.len() ==> files.contains(#[trigger] evicted[j]),
{
    broadcast use group_to_multiset_ensures;
    broadcast use vstd::multiset::group_multiset_axioms;

    assert forall|j: int| 0 <= j < kept.len() implies files.contains(#[trigger] kept[j]) by {
        assert(kept.contains(kept[j]));
        assert(kept.to_multiset().count(kept[j]) > 0);
        assert(files.to_multiset().count(kept[j]) > 0);
    }
    assert forall|j: int| 0 <= j < evicted.len() implies files.contains(#[trigger] evicted[j]) by {
        assert(evicted.contains(evicted[j]));
        assert(evicted.to_multiset().count(evicted[j]) > 0);
        assert(files.to_multiset().count(evicted[j]) > 0);
    }
}

proof fn lemma_seq_has_oldest(files: Seq<LogFileRecord>)
    requires
        files.len() > 0,
    ensures
        exists|i: int| 0 <= i < files.len() && is_oldest_of(#[trigger] files[i], files),
    decreases files.len(),
{
    if files.len() == 1 {
        assert(is_oldest_of(files[0], files));
    } else {
        lemma_seq_has_oldest(files.drop_last());
        let i = choose|i: int|
            0 <= i < files.drop_last().len() && is_oldest_of(
                #[trigger] files.drop_last()[i],
                files.drop_last(),
            );
        if files.last().modified_secs < files[i].modified_secs {
            assert forall|j: int|
                0 <= j < files.len() implies files.last().modified_secs
                <= (#[trigger] files[j]).modified_secs by {
                if j < files.len() - 1 {
                    assert(files.drop_last()[j] == files[j]);
                }
            }
            assert(is_oldest_of(files[files.len() - 1], files));
        } else {
            assert forall|j: int|
                0 <= j < files.len() implies files[i].modified_secs
                <= (#[trigger] files[j]).modified_secs by {
                if j < files.len() - 1 {
                    assert(files.drop_last()[j] == files[j]);
                }
            }
            assert(is_oldest_of(files[i], files));
        }
    }
}

/// Oldest-first eviction: whenever cleanup runs over a directory at or above
/// the retention bound, some evicted file is as old as the oldest file
/// present — the earliest-modified file is among those removed.
pub proof fn lemma_oldest_first_eviction(
    files: Seq<LogFileRecord>,
    kept: Seq<LogFileRecord>,
    evicted: Seq<LogFileRecord>,
)
    requires
        spec_cleanup_ok(files, kept, evicted),
        files.len() >= MAX_LOG_FILES,
    ensures
        exists|e: int| 0 <= e < evicted.len() && is_oldest_of(#[trigger] evicted[e], files),
{
    broadcast use group_to_multiset_ensures;

    lemma_seq_has_oldest(files);
    let o = choose|o: int| 0 <= o < files.len() && is_oldest_of(#[trigger] files[o], files);
    assert(files.contains(files[o]));
    assert(files.to_multiset().count(files[o]) > 0);
    assert(kept.to_multiset().count(files[o]) > 0 || evicted.to_multiset().count(files[o]) > 0);
    if evicted.to_multiset().count(files[o]) > 0 {
        assert(evicted.contains(files[o]));
        let e = choose|e: int| 0 <= e < evicted.len() && evicted[e] == files[o];
        assert(is_oldest_of(evicted[e], files));
    } else {
        assert(kept.contains(files[o]));
        let k = choose|k: int| 0 <= k < kept.len() && kept[k] == files[o];
        assert(evicted.len() > 0);
        assert(evicted[0].modified_secs <= kept[k].modified_secs);
        assert forall|i: int|
            0 <= i < files.len() implies evicted[0].modified_secs
            <= (#[trigger] files[i]).modified_secs by {
            assert(is_oldest_of(files[o], files));
        }
        assert(is_oldest_of(evicted[0], files));
    }
}

/// The byte length one record adds: the message's bytes plus its newline.
pub open spec fn spec_record_len(msg: &str) -> int {
    msg.spec_bytes().len() as int + 1
}

/// Whether a record of `record_len` bytes forces a rotation first.
pub open spec fn spec_needs_rotation(active_size: u64, record_len: int) -> bool {
    active_size + record_len > MAX_LOG_SIZE
}

/// The size any write leaves behind: appended when the record fits, alone in
/// a fresh file when it does not.
pub open spec fn spec_next_size(size: int, record_len: int) -> int {
    if size + record_len > MAX_LOG_SIZE {
        record_len
    } else {
        size + record_len
    }
}

/// The active file's size after one record of `record_len` bytes.
pub open spec fn spec_next_active_size(active_size: u64, record_len: int) -> int {
    spec_next_size(active_size as int, record_len)
}

/// Rotation size invariant: whatever the active size was, after any one
/// write it is at most `MAX_LOG_SIZE` plus that record's length, because
/// rotation comes before the write that would overflow.
pub proof fn lemma_rotation_size_invariant(active_size: u64, record_len: int)
    requires
        record_len >= 0,
    ensures
        spec_next_active_size(active_size, record_len) <= MAX_LOG_SIZE + record_len,
{
}

/// The active size left after a whole sequence of writes, first to last.
pub open spec fn spec_size_after(start: int, record_lens: Seq<int>) -> int
    decreases record_lens.len(),
{
    if record_lens.len() == 0 {
        start
    } else {
        spec_size_after(spec_next_size(start, record_lens[0]), record_lens.drop_first())
    }
}

proof fn lemma_size_after_snoc(start: int, record_lens: Seq<int>)
    requires
        record_lens.len() > 0,
    ensures
        spec_size_after(start, record_lens) == spec_next_size(
            spec_size_after(start, record_lens.drop_last()),
            record_lens.last(),
        ),
    decreases record_lens.len(),
{
    if record_lens.len() == 1 {
        assert(record_lens.drop_last() =~= Seq::<int>::empty());
        assert(record_lens.drop_first() =~= Seq::<int>::empty());
        assert(spec_size_after(spec_next_size(start, record_lens[0]), Seq::<int>::empty())
            == spec_next_size(start, record_lens[0]));
        assert(spec_size_after(start, Seq::<int>::empty()) == start);
        assert(record_lens.last() == record_lens[0]);
    } else {
        lemma_size_after_snoc(spec_next_size(start, record_lens[0]), record_lens.drop_first());
        assert(record_lens.drop_first().drop_last() =~= record_lens.drop_last().drop_first());
        assert(record_lens.drop_first().last() == record_lens.last());
        assert(record_lens.drop_last()[0] == record_lens[0]);
        assert(spec_size_after(start, record_lens.drop_last()) == spec_size_after(
            spec_next_size(start, record_lens[0]),
            record_lens.drop_last().drop_first(),
        ));
    }
}

/// Rotation size invariant over whole histories: however the sink starts and
/// whatever sequence of records is written, at no point does the active size
/// exceed `MAX_LOG_SIZE` plus the length of the record just written.
pub proof fn lemma_size_invariant_all_histories(start: int, record_lens: Seq<int>, k: int)
    requires
        forall|i: int| 0 <= i < record_lens.len() ==> (#[trigger] record_lens[i]) >= 0,
        0 <= k < record_lens.len(),
    ensures
        spec_size_after(start, record_lens.take(k + 1)) <= MAX_LOG_SIZE + record_lens[k],
{
    lemma_size_after_snoc(start, record_lens.take(k + 1));
    assert(record_lens.take(k + 1).drop_last() =~= record_lens.take(k));
    assert(record_lens.take(k + 1).last() == record_lens[k]);
}

/// The sink's state: the rotated files still on disk and the active file.
pub struct LogSinkState {
    /// Closed log files still on disk, each older than the active one.
    pub rotated: Vec<LogFileRecord>,
    /// The file every write appends to.
    pub active_name: String,
    /// When the active file was last written (or created).
    pub active_mtime: u64,
    /// Bytes written to the active file so far.
    pub active_size: u64,
}

impl LogSinkState {
    /// Holds from initialization on: every tracked file matches the sink's
    /// naming pattern, and with the active file the directory is within the
    /// retention bound.
    pub open spec fn wf(self) -> bool {
        &&& self.rotated@.len() < MAX_LOG_FILES
        &&& forall|i: int|
            0 <= i < self.rotated@.len() ==> spec_is_log_file_name(
                (#[trigger] self.rotated@[i]).name@,
            )
        &&& spec_is_log_file_name(self.active_name@)
    }

    /// Matching files on disk: the rotated ones and the active one.
    pub open spec fn spec_file_count(self) -> int {
        self.rotated@.len() as int + 1
    }

    /// Start the sink over a directory holding `existing` matching files:
    /// evict until below the retention bound, then open a fresh active file
    /// named for `now_secs`. The caller deletes the returned files and
    /// creates the active one.
    pub fn init(existing: Vec<LogFileRecord>, now_secs: u64) -> (r: (
        LogSinkState,
        Vec<LogFileRecord>,
    ))
        requires
            now_secs <= TIMESTAMP_LIMIT_SECS,
            forall|i: int|
                0 <= i < existing@.len() ==> spec_is_log_file_name(
                    (#[trigger] existing@[i]).name@,
                ),
        ensures
            r.0.wf(),
            r.0.spec_file_count() <= MAX_LOG_FILES,
            spec_cleanup_ok(existing@, r.0.rotated@, r.1@),
            r.0.active_name@ == spec_log_file_name(now_secs),
            r.0.active_mtime == now_secs,
            r.0.active_size == 0,
    {
        let ghost all = existing@;
        let (kept, evicted) = plan_cleanup(existing);
        let state = LogSinkState {
            rotated: kept,
            active_name: log_file_name(now_secs),
            active_mtime: now_secs,
            active_size: 0,
        };
        proof {
            lemma_fresh_name_matches_pattern(now_secs);
            lemma_cleanup_members_come_from_files(all, kept@, evicted@);
            assert forall|i: int|
                0 <= i < state.rotated@.len() implies spec_is_log_file_name(
                (#[trigger] state.rotated@[i]).name@,
            ) by {
                let w = choose|w: int| 0 <= w < all.len() && all[w] == kept@[i];
            }
        }
        (state, evicted)
    }

    /// Append one record. When the record would push the active file past
    /// `MAX_LOG_SIZE`, the sink rotates first: the active file closes with
    /// its last-write time, retention cleanup runs over all matching files,
    /// and a fresh active file named for `now_secs` starts with this record.
    /// Returns the evicted files when it rotated, `None` otherwise.
    pub fn write_record(&mut self, msg: &str, now_secs: u64) -> (r: Option<Vec<LogFileRecord>>)
        requires
            old(self).wf(),
            now_secs <= TIMESTAMP_LIMIT_SECS,
            msg.spec_bytes().len() < MAX_RECORD_BYTES,
        ensures
            final(self).wf(),
            final(self).spec_file_count() <= MAX_LOG_FILES,
            final(self).active_size == spec_next_active_size(
                old(self).active_size,
                spec_record_len(msg),
            ),
            final(self).active_size <= MAX_LOG_SIZE + spec_record_len(msg),
            final(self).active_mtime == now_secs,
            !spec_needs_rotation(old(self).active_size, spec_record_len(msg)) ==> r is None
                && final(self).rotated@ == old(self).rotated@ && final(self).active_name@ == old(
                self,
            ).active_name@,
            spec_needs_rotation(old(self).active_size, spec_record_len(msg)) ==> (r matches Some(
                evicted,
            ) && spec_cleanup_ok(
                old(self).rotated@.push(
                    (LogFileRecord {
                        name: old(self).active_name,
                        modified_secs: old(self).active_mtime,
                    }),
                ),
                final(self).rotated@,
                evicted@,
            ) && final(self).active_name@ == spec_log_file_name(now_secs)),
    {
        let record_len: u64 = msg.len() as u64 + 1;
        if record_len > MAX_LOG_SIZE || self.active_size > MAX_LOG_SIZE - record_len {
            let mut closed_name = log_file_name(now_secs);
            core::mem::swap(&mut closed_name, &mut self.active_name);
            let closed = LogFileRecord { name: closed_name, modified_secs: self.active_mtime };
            let mut candidates: Vec<LogFileRecord> = Vec::new();
            core::mem::swap(&mut candidates, &mut self.rotated);
            candidates.push(closed);
            let ghost all = candidates@;
            let (kept, evicted) = plan_cleanup(candidates);
            self.rotated = kept;
            self.active_mtime = now_secs;
            self.active_size = record_len;
            proof {
                lemma_fresh_name_matches_pattern(now_secs);
                lemma_cleanup_members_come_from_files(all, self.rotated@, evicted@);
                assert forall|i: int|
                    0 <= i < self.rotated@.len() implies spec_is_log_file_name(
                    (#[trigger] self.rotated@[i]).name@,
                ) by {
                    let w = choose|w: int| 0 <= w < all.len() && all[w] == self.rotated@[i];
                    assert(all == old(self).rotated@.push(closed));
                }
            }
            Some(evicted)
        } else {
            self.active_size = self.active_size + record_len;
            self.active_mtime = now_secs;
            None
        }
    }
}

/// Retention invariant: from initialization on, the matching files on disk —
/// the rotated ones and the active one — never number more than
/// `MAX_LOG_FILES`.
pub proof fn lemma_retention_invariant(s: LogSinkState)
    requires
        s.wf(),
    ensures
        s.spec_file_count() <= MAX_LOG_FILES,
{
}

} // verus!
