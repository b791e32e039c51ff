//! What holds of the transfer book across its operations: clearing drops
//! exactly the finished tasks, a failing task is retried a bounded number of
//! times with a doubling backoff, cancellation wins over retrying, and a
//! decision applied to the remaining tasks of a group answers their conflicts.

use vstd::prelude::*;

use super::book::{
    after_error_spec, backoff_ms, conflict_choice_spec, finished, group_of, kept, policy_of,
    removes_partials, requeued, retry_backoff, AfterError, BookModel, ConflictDecision, ConflictPolicy, TaskModel,
    MAX_RETRIES,
};
use crate::domain::transfer::TransferStatus;

verus! {

/// Clearing with `finished_only` drops exactly the finished (completed,
/// cancelled or failed) tasks and keeps the others, in order; clearing without
/// it keeps none.
pub proof fn law_clear_drops_exactly_finished(ts: Seq<TaskModel>)
    ensures
        kept(ts, false).len() == 0,
        kept(ts, true) == ts.filter(|m: TaskModel| !finished(m.status)),
    decreases ts.len(),
{
    reveal(Seq::filter);
    if ts.len() > 0 {
        law_clear_drops_exactly_finished(ts.drop_last());
    }
}

/// A task that fails every attempt, from a full retry budget and never
/// cancelled, is retried exactly `MAX_RETRIES` times, after 1000 ms and then
/// 2000 ms, and then fails with the last message.
pub proof fn law_retries_are_bounded(m: TaskModel, e1: Seq<char>, e2: Seq<char>, e3: Seq<char>)
    requires
        m.retries_left == MAX_RETRIES,
        !m.cancel,
    ensures
        after_error_spec(m, e1).1 == AfterError::Retry(1000),
        after_error_spec(after_error_spec(m, e1).0, e2).1 == AfterError::Retry(2000),
        after_error_spec(after_error_spec(after_error_spec(m, e1).0, e2).0, e3).1
            == AfterError::Failed,
        after_error_spec(after_error_spec(after_error_spec(m, e1).0, e2).0, e3).0.status
            == TransferStatus::Failed,
        after_error_spec(after_error_spec(after_error_spec(m, e1).0, e2).0, e3).0.error == Some(e3),
{
    reveal_with_fuel(backoff_ms, 3);
    assert(retry_backoff(1) == 1000);
    assert(retry_backoff(0) == 2000);
}

/// Each further retry waits twice as long as the one before.
pub proof fn law_backoff_doubles(step: nat)
    ensures
        backoff_ms(step + 1) == 2 * backoff_ms(step),
        backoff_ms(step) >= 500,
    decreases step,
{
    if step > 0 {
        law_backoff_doubles((step - 1) as nat);
    }
}

/// A cancelled task that hits an error ends as cancelled, whatever its budget.
pub proof fn law_cancel_wins_over_retry(m: TaskModel, message: Seq<char>)
    requires
        m.cancel,
    ensures
        after_error_spec(m, message).1 == AfterError::Cancelled,
        after_error_spec(m, message).0.status == TransferStatus::Cancelled,
        after_error_spec(m, message).0.error is None,
{
}

/// A manual retry gives a task a clean start: queued, no progress, no error,
/// not cancelled, with its full retry budget; the task stays the same task.
pub proof fn law_requeue_is_clean(m: TaskModel)
    ensures
        requeued(m).status == TransferStatus::Queued,
        requeued(m).transferred == 0,
        requeued(m).error is None,
        requeued(m).speed is None,
        !requeued(m).cancel,
        requeued(m).retries_left == MAX_RETRIES,
        requeued(m).id == m.id && requeued(m).local == m.local && requeued(m).remote == m.remote,
{
}

/// Once a decision is recorded for a group, every task of the group gets it
/// at its conflict check, whatever its own policy.
pub proof fn law_group_decision_answers_the_group(
    b: BookModel,
    id: Seq<char>,
    g: Seq<char>,
    d: ConflictDecision,
    policy: ConflictPolicy,
)
    requires
        group_of(b.tasks, id) == Some(g),
        b.decisions.contains_key(g),
        b.decisions[g] == d,
    ensures
        conflict_choice_spec(b, id, policy) == Some(d),
{
}

/// Without a group decision, a policy that repeats a decision gives that
/// decision, and `Ask` gives none (the user is asked).
pub proof fn law_policy_repeats_decision(b: BookModel, id: Seq<char>, d: ConflictDecision)
    requires
        group_of(b.tasks, id) is None || !b.decisions.contains_key(group_of(b.tasks, id)->0),
    ensures
        conflict_choice_spec(b, id, policy_of(d)) == Some(d),
        conflict_choice_spec(b, id, ConflictPolicy::Ask) is None,
{
}

/// After answering a conflict of task `id` with `apply_to_remaining` (the
/// book as `respond_conflict` leaves it), every task of `id`'s group gets the
/// same decision at its conflict check.
pub proof fn law_apply_to_remaining(
    before: BookModel,
    after: BookModel,
    id: Seq<char>,
    d: ConflictDecision,
    other: Seq<char>,
    policy: ConflictPolicy,
)
    requires
        group_of(before.tasks, id) is Some,
        after.tasks == before.tasks,
        after.decisions == before.decisions.insert(group_of(before.tasks, id)->0, d),
        group_of(before.tasks, other) == group_of(before.tasks, id),
    ensures
        conflict_choice_spec(after, other, policy) == Some(d),
{
}

/// A cancelled task keeps its `.shelx-partial` file and a task that still has
/// retries keeps it too; a task that fails for good has it removed.
pub proof fn law_partials_kept_unless_failed(m: TaskModel, message: Seq<char>)
    ensures
        m.cancel ==> !removes_partials(after_error_spec(m, message).1),
        !m.cancel && m.retries_left > 0 ==> !removes_partials(after_error_spec(m, message).1),
        !m.cancel && m.retries_left == 0 ==> removes_partials(after_error_spec(m, message).1),
{
}

} // verus!
