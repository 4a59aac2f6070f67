//! Serialization of concurrent production cycles at the import handle.
//!
//! The automatic and the manual trigger drive the pipeline concurrently; the
//! import handle is guarded by a mutual-exclusion lock, taken in
//! first-acquired-first-served order (not request-submission order). This
//! module models the observable history at that lock — acquisitions, import
//! calls and releases, each tagged with the cycle that performed it — and
//! proves that in any history the lock discipline permits, the import calls
//! of two different cycles never interleave: a later import call by another
//! cycle can only follow a release by the first.

use vstd::prelude::*;

verus! {

/// One observable event at the import-handle lock, tagged with the
/// production cycle (task) that performed it.
#[derive(Clone, Copy, Debug, PartialEq, Eq, Structural)]
pub enum LockEvent {
    /// The cycle acquired the lock.
    Acquire { task: u64 },
    /// The cycle called into the importer while holding the lock.
    ImportCall { task: u64 },
    /// The cycle released the lock.
    Release { task: u64 },
}

/// Whether `trace` obeys the lock discipline when the lock is currently held
/// by `holder` (`None`: free): a cycle acquires only a free lock, and only
/// the holder may call the importer or release.
pub open spec fn lock_trace_wf_from(holder: Option<u64>, trace: Seq<LockEvent>) -> bool
    decreases trace.len(),
{
    trace.len() == 0 || (match trace[0] {
        LockEvent::Acquire { task } => holder is None && lock_trace_wf_from(
            Some(task),
            trace.drop_first(),
        ),
        LockEvent::ImportCall { task } => holder == Some(task) && lock_trace_wf_from(
            holder,
            trace.drop_first(),
        ),
        LockEvent::Release { task } => holder == Some(task) && lock_trace_wf_from(
            None,
            trace.drop_first(),
        ),
    })
}

/// Whether a whole history at the import-handle lock, starting with the lock
/// free, obeys the lock discipline.
pub open spec fn lock_trace_wf(trace: Seq<LockEvent>) -> bool {
    lock_trace_wf_from(None, trace)
}

/// While `holder_task` holds the lock, no other cycle reaches the importer
/// before `holder_task` releases: any import call by another cycle is
/// preceded by a `Release` of the current holder.
proof fn lemma_holder_release_precedes_foreign_import(
    trace: Seq<LockEvent>,
    holder_task: u64,
    j: int,
    other: u64,
)
    requires
        lock_trace_wf_from(Some(holder_task), trace),
        0 <= j < trace.len(),
        trace[j] == (LockEvent::ImportCall { task: other }),
        other != holder_task,
    ensures
        exists|k: int| 0 <= k < j && trace[k] == (LockEvent::Release { task: holder_task }),
    decreases j,
{
    match trace[0] {
        LockEvent::Acquire { task: _ } => {
            // The lock is held, so the discipline forbids an acquisition here.
            assert(false);
        },
        LockEvent::ImportCall { task } => {
            // Only the holder may call the importer, so trace[j] stands later.
            assert(task == holder_task);
            assert(j > 0);
            lemma_holder_release_precedes_foreign_import(
                trace.drop_first(),
                holder_task,
                j - 1,
                other,
            );
            let k0 = choose|k: int|
                0 <= k < j - 1 && trace.drop_first()[k] == (LockEvent::Release {
                    task: holder_task,
                });
            assert(trace[k0 + 1] == (LockEvent::Release { task: holder_task }));
        },
        LockEvent::Release { task } => {
            assert(task == holder_task);
            assert(j > 0);
            assert(trace[0] == (LockEvent::Release { task: holder_task }));
        },
    }
}

/// Two concurrent cycles never interleave their import calls: in any history
/// the lock discipline permits, between an import call by cycle `a` and a
/// later import call by a different cycle `b` there is a release by `a` —
/// `a`'s critical section is over before `b`'s import call begins.
pub proof fn lemma_imports_serialized(trace: Seq<LockEvent>, i: int, j: int, a: u64, b: u64)
    requires
        lock_trace_wf(trace),
        0 <= i < j < trace.len(),
        trace[i] == (LockEvent::ImportCall { task: a }),
        trace[j] == (LockEvent::ImportCall { task: b }),
        a != b,
    ensures
        exists|k: int| i < k < j && trace[k] == (LockEvent::Release { task: a }),
{
    lemma_imports_serialized_from(None, trace, i, j, a, b);
}

/// The inductive core of [`lemma_imports_serialized`], generalized over the
/// cycle holding the lock at the start of `trace`.
proof fn lemma_imports_serialized_from(
    holder: Option<u64>,
    trace: Seq<LockEvent>,
    i: int,
    j: int,
    a: u64,
    b: u64,
)
    requires
        lock_trace_wf_from(holder, trace),
        0 <= i < j < trace.len(),
        trace[i] == (LockEvent::ImportCall { task: a }),
        trace[j] == (LockEvent::ImportCall { task: b }),
        a != b,
    ensures
        exists|k: int| i < k < j && trace[k] == (LockEvent::Release { task: a }),
    decreases i,
{
    if i == 0 {
        // The discipline makes `a` the holder here; the import call by `b`
        // at j can only follow a release by `a`.
        assert(holder == Some(a));
        assert(lock_trace_wf_from(Some(a), trace.drop_first()));
        lemma_holder_release_precedes_foreign_import(trace.drop_first(), a, j - 1, b);
        let k0 = choose|k: int|
            0 <= k < j - 1 && trace.drop_first()[k] == (LockEvent::Release { task: a });
        assert(trace[k0 + 1] == (LockEvent::Release { task: a }));
    } else {
        let next_holder = match trace[0] {
            LockEvent::Acquire { task } => Some(task),
            LockEvent::ImportCall { task: _ } => holder,
            LockEvent::Release { task: _ } => None,
        };
        assert(lock_trace_wf_from(next_holder, trace.drop_first()));
        lemma_imports_serialized_from(next_holder, trace.drop_first(), i - 1, j - 1, a, b);
        let k0 = choose|k: int|
            i - 1 < k < j - 1 && trace.drop_first()[k] == (LockEvent::Release { task: a });
        assert(trace[k0 + 1] == (LockEvent::Release { task: a }));
    }
}

} // verus!
