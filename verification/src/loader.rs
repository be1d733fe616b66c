//! Loading one batch into the store, one step at a time, and the account of a
//! whole load.
//!
//! The store's bulk-append interface serves one session at a time, so a batch
//! is loaded inside a critical section: enter and begin a session, append the
//! rows in order, flush, leave. The caller owns the connection and the lock and
//! performs each action; [`BatchLoad`] decides which action comes next from the
//! store's reply to the last one.

use crate::chunker::{
    batch_count, batch_end, batch_of, batch_start, batches_of, concat, count_batches,
    lemma_batch_count_is_ceiling, lemma_batch_lengths, lemma_batches_reconstruct,
};
use vstd::multiset::Multiset;
use vstd::prelude::*;

verus! {

/// How the load of one batch ended.
#[derive(Clone, Copy, Debug, PartialEq, Eq, Structural)]
pub enum BatchOutcome {
    /// Every row was appended and the flush went through.
    Flushed,
    /// The store refused to begin a bulk-append session.
    SessionRefused,
    /// The store rejected row `row`; the rows behind it were not tried and
    /// nothing was flushed, so the rows before it may or may not be visible.
    RowRejected { row: usize },
    /// Every row was appended, and the flush failed.
    FlushFailed,
    /// The unit of work died of a fault before it could say how it ended.
    Faulted,
}

/// What the caller is asked to do at the store.
#[derive(Clone, Copy, Debug, PartialEq, Eq, Structural)]
pub enum StoreAction {
    /// Enter the critical section and begin a bulk-append session.
    Begin,
    /// Append row `row` of the batch.
    Append { row: usize },
    /// Flush the session.
    Flush,
    /// End the session and leave the critical section.
    Release,
}

/// Where the load of a batch stands: which action is awaited, or how it ended.
#[derive(Clone, Copy, Debug, PartialEq, Eq, Structural)]
pub enum Phase {
    /// `Begin` is awaited.
    Entering,
    /// `Append { row }` is awaited; the rows before `row` were appended.
    Appending { row: usize },
    /// `Flush` is awaited; every row was appended.
    Flushing,
    /// `Release` is awaited; the outcome is settled.
    Leaving { outcome: BatchOutcome },
    /// The critical section was left.
    Finished { outcome: BatchOutcome },
}

/// The load of one batch of `rows` rows.
#[derive(Clone, Copy, Debug, PartialEq, Eq, Structural)]
pub struct BatchLoad {
    pub rows: usize,
    pub phase: Phase,
}

/// The phase that follows `phase` when the store answers the awaited action
/// with `accepted`.
pub open spec fn next_phase(rows: nat, phase: Phase, accepted: bool) -> Phase {
    match phase {
        Phase::Entering => if !accepted {
            Phase::Leaving { outcome: BatchOutcome::SessionRefused }
        } else if rows == 0 {
            Phase::Flushing
        } else {
            Phase::Appending { row: 0 }
        },
        Phase::Appending { row } => if !accepted {
            Phase::Leaving { outcome: BatchOutcome::RowRejected { row } }
        } else if row + 1 < rows {
            Phase::Appending { row: (row + 1) as usize }
        } else {
            Phase::Flushing
        },
        Phase::Flushing => if accepted {
            Phase::Leaving { outcome: BatchOutcome::Flushed }
        } else {
            Phase::Leaving { outcome: BatchOutcome::FlushFailed }
        },
        Phase::Leaving { outcome } => Phase::Finished { outcome },
        Phase::Finished { outcome } => Phase::Finished { outcome },
    }
}

/// The action that `phase` awaits; none once the load is finished.
pub open spec fn awaited(phase: Phase) -> Option<StoreAction> {
    match phase {
        Phase::Entering => Some(StoreAction::Begin),
        Phase::Appending { row } => Some(StoreAction::Append { row }),
        Phase::Flushing => Some(StoreAction::Flush),
        Phase::Leaving { outcome } => Some(StoreAction::Release),
        Phase::Finished { outcome } => None,
    }
}

/// The phase reached from the start after the store has given `replies`, one
/// for each action in turn.
pub open spec fn phase_after(rows: nat, replies: Seq<bool>) -> Phase
    decreases replies.len(),
{
    if replies.len() == 0 {
        Phase::Entering
    } else {
        next_phase(rows, phase_after(rows, replies.drop_last()), replies.last())
    }
}

/// Whether the first `count` replies are all acceptances.
pub open spec fn all_accepted(replies: Seq<bool>, count: int) -> bool {
    forall|i: int| 0 <= i < count && i < replies.len() ==> replies[i]
}

impl BatchLoad {
    /// An `Appending` phase names a row of the batch.
    pub open spec fn well_formed(&self) -> bool {
        match self.phase {
            Phase::Appending { row } => row < self.rows,
            _ => true,
        }
    }

    /// The load of a batch of `rows` rows, before anything was done.
    pub fn new(rows: usize) -> (load: BatchLoad)
        ensures
            load.rows == rows,
            load.phase == Phase::Entering,
            load.well_formed(),
    {
        BatchLoad { rows, phase: Phase::Entering }
    }

    /// The action to perform next, or `None` when the load is finished.
    pub fn pending(&self) -> (action: Option<StoreAction>)
        ensures
            action == awaited(self.phase),
    {
        match self.phase {
            Phase::Entering => Some(StoreAction::Begin),
            Phase::Appending { row } => Some(StoreAction::Append { row }),
            Phase::Flushing => Some(StoreAction::Flush),
            Phase::Leaving { outcome } => Some(StoreAction::Release),
            Phase::Finished { outcome } => None,
        }
    }

    /// Takes the store's reply to the pending action: `accepted` says whether
    /// it went through. A rejected row ends the appending at once and leaves
    /// out the flush; whatever happened, the next action but one at the latest
    /// is `Release`.
    pub fn step(&mut self, accepted: bool)
        ensures
            final(self).rows == old(self).rows,
            final(self).phase == next_phase(old(self).rows as nat, old(self).phase, accepted),
            old(self).well_formed() ==> final(self).well_formed(),
    {
        let next = match self.phase {
            Phase::Entering => if !accepted {
                Phase::Leaving { outcome: BatchOutcome::SessionRefused }
            } else if self.rows == 0 {
                Phase::Flushing
            } else {
                Phase::Appending { row: 0 }
            },
            Phase::Appending { row } => if !accepted {
                Phase::Leaving { outcome: BatchOutcome::RowRejected { row } }
            } else if row < self.rows && row + 1 < self.rows {
                Phase::Appending { row: row + 1 }
            } else {
                Phase::Flushing
            },
            Phase::Flushing => if accepted {
                Phase::Leaving { outcome: BatchOutcome::Flushed }
            } else {
                Phase::Leaving { outcome: BatchOutcome::FlushFailed }
            },
            Phase::Leaving { outcome } => Phase::Finished { outcome },
            Phase::Finished { outcome } => Phase::Finished { outcome },
        };
        self.phase = next;
    }

    /// How the load ended, once the critical section was left.
    pub fn outcome(&self) -> (outcome: Option<BatchOutcome>)
        ensures
            outcome == match self.phase {
                Phase::Finished { outcome } => Some(outcome),
                _ => None,
            },
    {
        match self.phase {
            Phase::Finished { outcome } => Some(outcome),
            _ => None,
        }
    }
}

/// While the store accepts everything, the actions come in one fixed order:
/// `Begin`, then `Append` for row 0, 1, 2, ... up to the last, then `Flush`,
/// then `Release`, and the outcome is `Flushed`.
pub proof fn lemma_accepted_run(rows: nat, replies: Seq<bool>)
    requires
        rows <= usize::MAX,
        all_accepted(replies, replies.len() as int),
    ensures
        replies.len() == 0 ==> phase_after(rows, replies) == Phase::Entering,
        1 <= replies.len() <= rows ==> phase_after(rows, replies) == (Phase::Appending {
            row: (replies.len() - 1) as usize,
        }),
        replies.len() == rows + 1 ==> phase_after(rows, replies) == Phase::Flushing,
        replies.len() == rows + 2 ==> phase_after(rows, replies) == (Phase::Leaving {
            outcome: BatchOutcome::Flushed,
        }),
        replies.len() >= rows + 3 ==> phase_after(rows, replies) == (Phase::Finished {
            outcome: BatchOutcome::Flushed,
        }),
    decreases replies.len(),
{
    if replies.len() > 0 {
        lemma_accepted_run(rows, replies.drop_last());
        assert(replies.last());
    }
}

/// The rows are appended in the order of the batch, each once: whatever the
/// replies, row `row` is asked for after exactly `row + 1` replies, all of them
/// acceptances, and at no other time.
pub proof fn lemma_rows_in_order(rows: nat, replies: Seq<bool>)
    requires
        rows <= usize::MAX,
        phase_after(rows, replies) is Appending,
    ensures
        replies.len() == phase_after(rows, replies)->row + 1,
        phase_after(rows, replies)->row < rows,
        all_accepted(replies, replies.len() as int),
    decreases replies.len(),
{
    let before = replies.drop_last();
    if phase_after(rows, before) is Appending {
        lemma_rows_in_order(rows, before);
    } else {
        lemma_entering_is_first(rows, before);
    }
    assert forall|i: int| 0 <= i < replies.len() implies replies[i] by {
        if i < before.len() {
            assert(before[i] == replies[i]);
        }
    }
}

/// Only a load that has had no reply yet waits to enter.
proof fn lemma_entering_is_first(rows: nat, replies: Seq<bool>)
    requires
        phase_after(rows, replies) is Entering,
    ensures
        replies.len() == 0,
{
}

/// A flush is asked for only when every row of the batch has been appended:
/// after exactly `rows + 1` replies, all of them acceptances.
pub proof fn lemma_flush_follows_all_rows(rows: nat, replies: Seq<bool>)
    requires
        rows <= usize::MAX,
        phase_after(rows, replies) is Flushing,
    ensures
        replies.len() == rows + 1,
        all_accepted(replies, replies.len() as int),
{
    let before = replies.drop_last();
    if phase_after(rows, before) is Appending {
        lemma_rows_in_order(rows, before);
    } else {
        lemma_entering_is_first(rows, before);
    }
    assert forall|i: int| 0 <= i < replies.len() implies replies[i] by {
        if i < before.len() {
            assert(before[i] == replies[i]);
        }
    }
}

/// The outcome that the first refusal settles: of the session at reply 0, of
/// row `failed - 1` at a reply up to `rows`, of the flush at reply `rows + 1`.
pub open spec fn outcome_of_refusal(rows: nat, failed: int) -> BatchOutcome {
    if failed == 0 {
        BatchOutcome::SessionRefused
    } else if failed <= rows {
        BatchOutcome::RowRejected { row: (failed - 1) as usize }
    } else {
        BatchOutcome::FlushFailed
    }
}

/// Once the store refuses an action, nothing more is appended and nothing is
/// flushed: the very next action is `Release`, after which the load is
/// finished, with the outcome that the refusal settled. (A reply to `Release`
/// itself changes nothing, so `failed` is at most `rows + 1`.)
pub proof fn lemma_refused_run(rows: nat, replies: Seq<bool>, failed: int)
    requires
        rows <= usize::MAX,
        0 <= failed < replies.len(),
        failed <= rows + 1,
        !replies[failed],
        all_accepted(replies, failed),
    ensures
        replies.len() == failed + 1 ==> phase_after(rows, replies) == (Phase::Leaving {
            outcome: outcome_of_refusal(rows, failed),
        }),
        replies.len() > failed + 1 ==> phase_after(rows, replies) == (Phase::Finished {
            outcome: outcome_of_refusal(rows, failed),
        }),
    decreases replies.len(),
{
    let before = replies.drop_last();
    if replies.len() == failed + 1 {
        assert(all_accepted(before, before.len() as int));
        lemma_accepted_run(rows, before);
    } else {
        lemma_refused_run(rows, before, failed);
    }
}

/// A load never asks for a row that the batch does not have, and it is
/// finished after `rows + 3` replies at the latest, whatever the replies: the
/// critical section is always left.
pub proof fn lemma_run_ends(rows: nat, replies: Seq<bool>)
    requires
        rows <= usize::MAX,
    ensures
        phase_after(rows, replies) matches Phase::Appending { row } ==> row < rows,
        replies.len() >= rows + 3 ==> phase_after(rows, replies) is Finished,
{
    if exists|failed: int| 0 <= failed < replies.len() && failed <= rows + 1 && !replies[failed] {
        let failed = choose|failed: int|
            0 <= failed < replies.len() && failed <= rows + 1 && !replies[failed];
        lemma_first_refusal(rows, replies, failed);
    } else {
        lemma_accepted_prefix(rows, replies);
    }
}

/// A load finishes only by way of `Release`: the phase before `Finished` is
/// `Leaving` with the same outcome, or `Finished` already.
pub proof fn lemma_release_precedes_finish(rows: nat, replies: Seq<bool>)
    requires
        phase_after(rows, replies) is Finished,
    ensures
        replies.len() > 0,
        phase_after(rows, replies.drop_last()) == (Phase::Leaving {
            outcome: phase_after(rows, replies)->Finished_outcome,
        }) || phase_after(rows, replies.drop_last()) == phase_after(rows, replies),
{
}

proof fn lemma_first_refusal(rows: nat, replies: Seq<bool>, failed: int)
    requires
        rows <= usize::MAX,
        0 <= failed < replies.len(),
        failed <= rows + 1,
        !replies[failed],
    ensures
        phase_after(rows, replies) is Leaving || phase_after(rows, replies) is Finished,
        replies.len() >= rows + 3 ==> phase_after(rows, replies) is Finished,
    decreases failed,
{
    if exists|earlier: int| 0 <= earlier < failed && !replies[earlier] {
        let earlier = choose|earlier: int| 0 <= earlier < failed && !replies[earlier];
        lemma_first_refusal(rows, replies, earlier);
    } else {
        assert(all_accepted(replies, failed));
        lemma_refused_run(rows, replies, failed);
    }
}

proof fn lemma_accepted_prefix(rows: nat, replies: Seq<bool>)
    requires
        rows <= usize::MAX,
        forall|i: int| 0 <= i < replies.len() && i <= rows + 1 ==> replies[i],
    ensures
        phase_after(rows, replies) matches Phase::Appending { row } ==> row < rows,
        replies.len() >= rows + 3 ==> phase_after(rows, replies) is Finished,
        replies.len() <= rows + 2 ==> phase_after(rows, replies) !is Finished,
    decreases replies.len(),
{
    if replies.len() <= rows + 2 {
        assert(all_accepted(replies, replies.len() as int));
        lemma_accepted_run(rows, replies);
    } else {
        lemma_accepted_prefix(rows, replies.drop_last());
        if replies.len() == rows + 3 {
            assert(all_accepted(replies.drop_last(), replies.len() - 1));
            lemma_accepted_run(rows, replies.drop_last());
        }
    }
}

/// Number of items in batch `index` of `n` items in batches of `size`.
pub open spec fn batch_len(n: nat, size: nat, index: int) -> nat {
    (batch_end(n, size, index) - batch_start(size, index)) as nat
}

/// Number of batches, among the first `count`, whose outcome is `outcome`.
pub open spec fn count_of(outcomes: Seq<BatchOutcome>, outcome: BatchOutcome, count: nat) -> nat
    decreases count,
{
    if count == 0 {
        0
    } else {
        count_of(outcomes, outcome, (count - 1) as nat) + if outcomes[count - 1] == outcome {
            1nat
        } else {
            0nat
        }
    }
}

/// Number of rows in those of the first `count` batches that were flushed.
pub open spec fn rows_flushed(n: nat, size: nat, outcomes: Seq<BatchOutcome>, count: nat) -> nat
    decreases count,
{
    if count == 0 {
        0
    } else {
        rows_flushed(n, size, outcomes, (count - 1) as nat) + if outcomes[count - 1]
            == BatchOutcome::Flushed {
            batch_len(n, size, count - 1)
        } else {
            0nat
        }
    }
}

/// The rows that the first `count` batches are known to have put into the
/// table: those of the flushed batches. It is a multiset, for the batches reach
/// the store in no fixed order.
pub open spec fn loaded<T>(
    items: Seq<T>,
    size: nat,
    outcomes: Seq<BatchOutcome>,
    count: nat,
) -> Multiset<T>
    decreases count,
{
    if count == 0 {
        Multiset::empty()
    } else {
        let before = loaded(items, size, outcomes, (count - 1) as nat);
        if outcomes[count - 1] == BatchOutcome::Flushed {
            before.add(batch_of(items, size, count - 1).to_multiset())
        } else {
            before
        }
    }
}

/// The rows of those of the first `count` batches that were not flushed: of
/// these the load promises nothing.
pub open spec fn withheld<T>(
    items: Seq<T>,
    size: nat,
    outcomes: Seq<BatchOutcome>,
    count: nat,
) -> Multiset<T>
    decreases count,
{
    if count == 0 {
        Multiset::empty()
    } else {
        let before = withheld(items, size, outcomes, (count - 1) as nat);
        if outcomes[count - 1] == BatchOutcome::Flushed {
            before
        } else {
            before.add(batch_of(items, size, count - 1).to_multiset())
        }
    }
}

/// How a whole load ended.
#[derive(Clone, Copy, Debug, PartialEq, Eq, Structural)]
pub enum LoadVerdict {
    /// Every batch was flushed.
    Complete,
    /// Some batch failed at the store and none died of a fault: the failure
    /// stayed within its batch, and the rows of the other batches are loaded.
    Partial,
    /// Some unit of work died of a fault: the load as a whole has failed.
    Failed,
}

/// The account of a load: one outcome per batch went into it.
#[derive(Clone, Copy, Debug, PartialEq, Eq, Structural)]
pub struct LoadReport {
    /// Number of batches.
    pub batches: usize,
    /// Number of batches that were flushed.
    pub flushed: usize,
    /// Number of batches whose unit of work died of a fault.
    pub faulted: usize,
    /// Number of rows in the flushed batches.
    pub rows_loaded: usize,
}

impl LoadReport {
    /// The verdict that the counts give.
    pub open spec fn spec_verdict(&self) -> LoadVerdict {
        if self.faulted > 0 {
            LoadVerdict::Failed
        } else if self.flushed == self.batches {
            LoadVerdict::Complete
        } else {
            LoadVerdict::Partial
        }
    }

    /// How the load ended. A fault in any unit of work fails the load; short
    /// of that the load is complete only if every batch was flushed.
    pub fn verdict(&self) -> (verdict: LoadVerdict)
        ensures
            verdict == self.spec_verdict(),
    {
        if self.faulted > 0 {
            LoadVerdict::Failed
        } else if self.flushed == self.batches {
            LoadVerdict::Complete
        } else {
            LoadVerdict::Partial
        }
    }

    /// Whether the load succeeded as a whole: every batch was flushed.
    pub fn succeeded(&self) -> (ok: bool)
        ensures
            ok <==> self.spec_verdict() == LoadVerdict::Complete,
    {
        self.faulted == 0 && self.flushed == self.batches
    }
}

proof fn lemma_counts_bounded(n: nat, size: nat, outcomes: Seq<BatchOutcome>, count: nat)
    requires
        size > 0,
        count <= batch_count(n, size),
    ensures
        count_of(outcomes, BatchOutcome::Flushed, count) + count_of(
            outcomes,
            BatchOutcome::Faulted,
            count,
        ) <= count,
        count == 0 ==> rows_flushed(n, size, outcomes, count) == 0,
        count > 0 ==> rows_flushed(n, size, outcomes, count) <= batch_end(n, size, count - 1),
    decreases count,
{
    if count > 0 {
        lemma_counts_bounded(n, size, outcomes, (count - 1) as nat);
        let items = Seq::new(n, |i: int| 0int);
        lemma_batch_lengths(items, size, count - 1);
        if count > 1 {
            lemma_batch_lengths(items, size, count - 2);
        }
    }
}

/// Draws up the account of a load of `total` rows in batches of `size` from the
/// outcomes of the batches, `outcomes[i]` being that of batch `i`. There is an
/// account exactly if `size` is positive and there is one outcome for each
/// batch.
pub fn load_report(total: usize, size: usize, outcomes: &Vec<BatchOutcome>) -> (report: Option<
    LoadReport,
>)
    ensures
        report is Some <==> size > 0 && outcomes@.len() == batch_count(total as nat, size as nat),
        report matches Some(report) ==> {
            &&& report.batches == outcomes@.len()
            &&& report.flushed == count_of(outcomes@, BatchOutcome::Flushed, outcomes@.len())
            &&& report.faulted == count_of(outcomes@, BatchOutcome::Faulted, outcomes@.len())
            &&& report.rows_loaded == rows_flushed(
                total as nat,
                size as nat,
                outcomes@,
                outcomes@.len(),
            )
        },
{
    if size == 0 || outcomes.len() != count_batches(total, size) {
        return None;
    }
    let mut flushed: usize = 0;
    let mut faulted: usize = 0;
    let mut rows_loaded: usize = 0;
    let mut start: usize = 0;
    let mut index: usize = 0;
    while index < outcomes.len()
        invariant
            size > 0,
            index <= outcomes@.len(),
            outcomes@.len() == batch_count(total as nat, size as nat),
            flushed == count_of(outcomes@, BatchOutcome::Flushed, index as nat),
            faulted == count_of(outcomes@, BatchOutcome::Faulted, index as nat),
            rows_loaded == rows_flushed(total as nat, size as nat, outcomes@, index as nat),
            index < outcomes@.len() ==> start == batch_start(size as nat, index as int),
            start <= total,
        decreases outcomes@.len() - index,
    {
        proof {
            let items = Seq::new(total as nat, |i: int| 0int);
            lemma_batch_lengths(items, size as nat, index as int);
            if index + 1 < outcomes@.len() {
                lemma_batch_lengths(items, size as nat, index + 1);
            }
            lemma_counts_bounded(total as nat, size as nat, outcomes@, index as nat);
            lemma_counts_bounded(total as nat, size as nat, outcomes@, (index + 1) as nat);
            assert((index + 1) * size == index * size + size) by (nonlinear_arith);
        }
        let length: usize = if total - start < size {
            total - start
        } else {
            size
        };
        match outcomes[index] {
            BatchOutcome::Flushed => {
                flushed = flushed + 1;
                rows_loaded = rows_loaded + length;
            },
            BatchOutcome::Faulted => {
                faulted = faulted + 1;
            },
            _ => {},
        }
        start = start + length;
        index = index + 1;
    }
    Some(LoadReport { batches: outcomes.len(), flushed, faulted, rows_loaded })
}

/// Every row of the input is either loaded or in a batch that was not flushed:
/// the flushed and the withheld rows together are the input, each row as often
/// as it came.
pub proof fn lemma_rows_accounted<T>(items: Seq<T>, size: nat, outcomes: Seq<BatchOutcome>)
    requires
        size > 0,
        outcomes.len() == batch_count(items.len(), size),
    ensures
        loaded(items, size, outcomes, outcomes.len()).add(
            withheld(items, size, outcomes, outcomes.len()),
        ) == items.to_multiset(),
{
    lemma_rows_accounted_upto(items, size, outcomes, outcomes.len());
    lemma_batches_reconstruct(items, size);
}

proof fn lemma_rows_accounted_upto<T>(
    items: Seq<T>,
    size: nat,
    outcomes: Seq<BatchOutcome>,
    count: nat,
)
    requires
        size > 0,
        count <= outcomes.len() == batch_count(items.len(), size),
    ensures
        loaded(items, size, outcomes, count).add(withheld(items, size, outcomes, count)) == concat(
            batches_of(items, size),
            count,
        ).to_multiset(),
    decreases count,
{
    broadcast use vstd::multiset::group_multiset_axioms;

    if count == 0 {
        concat(batches_of(items, size), 0).to_multiset_ensures();
        assert(concat(batches_of(items, size), 0).to_multiset() =~= Multiset::<T>::empty());
        assert(Multiset::<T>::empty().add(Multiset::<T>::empty()) =~= Multiset::<T>::empty());
    } else {
        lemma_rows_accounted_upto(items, size, outcomes, (count - 1) as nat);
        let before = concat(batches_of(items, size), (count - 1) as nat);
        let batch = batch_of(items, size, count - 1);
        assert(batches_of(items, size)[count - 1] == batch);
        vstd::seq_lib::lemma_multiset_commutative(before, batch);
        let l = loaded(items, size, outcomes, (count - 1) as nat);
        let w = withheld(items, size, outcomes, (count - 1) as nat);
        assert(l.add(batch.to_multiset()).add(w) =~= l.add(w).add(batch.to_multiset()));
        assert(l.add(w.add(batch.to_multiset())) =~= l.add(w).add(batch.to_multiset()));
    }
}

/// Where no batch fails, the table gains exactly the input: every row, as
/// often as it came, whatever the batch size and in whatever order the batches
/// reached the store; and the account counts as many rows as came in.
pub proof fn lemma_complete_load<T>(items: Seq<T>, size: nat, outcomes: Seq<BatchOutcome>)
    requires
        size > 0,
        outcomes.len() == batch_count(items.len(), size),
        forall|i: int| 0 <= i < outcomes.len() ==> outcomes[i] == BatchOutcome::Flushed,
    ensures
        loaded(items, size, outcomes, outcomes.len()) == items.to_multiset(),
        loaded(items, size, outcomes, outcomes.len()).len() == items.len(),
        rows_flushed(items.len(), size, outcomes, outcomes.len()) == items.len(),
        count_of(outcomes, BatchOutcome::Flushed, outcomes.len()) == outcomes.len(),
{
    broadcast use vstd::multiset::group_multiset_axioms;

    lemma_rows_accounted(items, size, outcomes);
    lemma_all_flushed(items, size, outcomes, outcomes.len());
    let l = loaded(items, size, outcomes, outcomes.len());
    assert(l.add(Multiset::<T>::empty()) =~= l);
    items.to_multiset_ensures();
    lemma_batch_count_is_ceiling(items.len(), size);
    if outcomes.len() > 0 {
        lemma_batch_lengths(items, size, outcomes.len() - 1);
    }
}

proof fn lemma_all_flushed<T>(items: Seq<T>, size: nat, outcomes: Seq<BatchOutcome>, count: nat)
    requires
        size > 0,
        count <= outcomes.len() == batch_count(items.len(), size),
        forall|i: int| 0 <= i < outcomes.len() ==> outcomes[i] == BatchOutcome::Flushed,
    ensures
        withheld(items, size, outcomes, count) == Multiset::<T>::empty(),
        count_of(outcomes, BatchOutcome::Flushed, count) == count,
        count == 0 ==> rows_flushed(items.len(), size, outcomes, count) == 0,
        count > 0 ==> rows_flushed(items.len(), size, outcomes, count) == batch_end(
            items.len(),
            size,
            count - 1,
        ),
    decreases count,
{
    if count > 0 {
        lemma_all_flushed(items, size, outcomes, (count - 1) as nat);
        lemma_batch_lengths(items, size, count - 1);
        if count > 1 {
            lemma_batch_lengths(items, size, count - 2);
        }
    }
}

/// A failure stays within its batch: whatever became of the other batches, the
/// rows of a flushed batch are all loaded, each as often as the batch held it.
pub proof fn lemma_flushed_batch_is_loaded<T>(
    items: Seq<T>,
    size: nat,
    outcomes: Seq<BatchOutcome>,
    index: int,
)
    requires
        size > 0,
        outcomes.len() == batch_count(items.len(), size),
        0 <= index < outcomes.len(),
        outcomes[index] == BatchOutcome::Flushed,
    ensures
        batch_of(items, size, index).to_multiset().subset_of(
            loaded(items, size, outcomes, outcomes.len()),
        ),
{
    lemma_flushed_batch_is_loaded_upto(items, size, outcomes, index, outcomes.len());
}

proof fn lemma_flushed_batch_is_loaded_upto<T>(
    items: Seq<T>,
    size: nat,
    outcomes: Seq<BatchOutcome>,
    index: int,
    count: nat,
)
    requires
        0 <= index < count <= outcomes.len(),
        outcomes[index] == BatchOutcome::Flushed,
    ensures
        batch_of(items, size, index).to_multiset().subset_of(
            loaded(items, size, outcomes, count),
        ),
    decreases count,
{
    broadcast use vstd::multiset::group_multiset_axioms;

    if index < count - 1 {
        lemma_flushed_batch_is_loaded_upto(items, size, outcomes, index, (count - 1) as nat);
    }
}

/// Where exactly one batch fails, the table gains the rows of all the other
/// batches and the account misses only the failed batch: the loaded rows and
/// the rows of that batch together are the input.
pub proof fn lemma_single_failure<T>(
    items: Seq<T>,
    size: nat,
    outcomes: Seq<BatchOutcome>,
    failed: int,
)
    requires
        size > 0,
        outcomes.len() == batch_count(items.len(), size),
        0 <= failed < outcomes.len(),
        forall|i: int|
            0 <= i < outcomes.len() ==> (outcomes[i] == BatchOutcome::Flushed <==> i != failed),
    ensures
        loaded(items, size, outcomes, outcomes.len()).add(
            batch_of(items, size, failed).to_multiset(),
        ) == items.to_multiset(),
        rows_flushed(items.len(), size, outcomes, outcomes.len()) + batch_len(
            items.len(),
            size,
            failed,
        ) == items.len(),
{
    lemma_rows_accounted(items, size, outcomes);
    lemma_one_withheld(items, size, outcomes, failed, outcomes.len());
    lemma_batch_count_is_ceiling(items.len(), size);
    lemma_batch_lengths(items, size, outcomes.len() - 1);
}

proof fn lemma_one_withheld<T>(
    items: Seq<T>,
    size: nat,
    outcomes: Seq<BatchOutcome>,
    failed: int,
    count: nat,
)
    requires
        size > 0,
        count <= outcomes.len() == batch_count(items.len(), size),
        0 <= failed < outcomes.len(),
        forall|i: int|
            0 <= i < outcomes.len() ==> (outcomes[i] == BatchOutcome::Flushed <==> i != failed),
    ensures
        count <= failed ==> withheld(items, size, outcomes, count) == Multiset::<T>::empty(),
        count > failed ==> withheld(items, size, outcomes, count) == batch_of(
            items,
            size,
            failed,
        ).to_multiset(),
        count == 0 ==> rows_flushed(items.len(), size, outcomes, count) == 0,
        0 < count <= failed ==> rows_flushed(items.len(), size, outcomes, count) == batch_end(
            items.len(),
            size,
            count - 1,
        ),
        count > failed ==> rows_flushed(items.len(), size, outcomes, count) + batch_len(
            items.len(),
            size,
            failed,
        ) == batch_end(items.len(), size, count - 1),
    decreases count,
{
    broadcast use vstd::multiset::group_multiset_axioms;

    if count > 0 {
        lemma_one_withheld(items, size, outcomes, failed, (count - 1) as nat);
        lemma_batch_lengths(items, size, count - 1);
        if count > 1 {
            lemma_batch_lengths(items, size, count - 2);
        }
        if count - 1 == failed {
            let batch = batch_of(items, size, failed).to_multiset();
            assert(Multiset::<T>::empty().add(batch) =~= batch);
        }
    }
}

} // verus!
