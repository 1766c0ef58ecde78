//! The laws of the escrow state machine, each proved once and for all from
//! the contracts and the store's well-formedness — not from any particular
//! run of the code.

use crate::errors::Error;
use crate::escrow::{fund_error, has_job, job_at, overdue_error, submit_error, Escrow};
use crate::types::{
    job_matches, lemma_sum_milestones_pos, sum_milestones, JobStatus, MilestoneInput,
    MilestoneStatus,
};
use vstd::prelude::*;

verus! {

/// Job identifiers are assigned sequentially: in a well-formed store the
/// job at position `i` carries identifier `i + 1`, so identifiers start at
/// 1 and strictly increase — one new identifier per successful creation,
/// never reused.
pub proof fn lemma_ids_sequential(e: Escrow)
    requires
        e.wf(),
    ensures
        forall|i: int| 0 <= i < e@.len() ==> #[trigger] e@[i].id == i + 1,
        forall|i: int, j: int|
            0 <= i < j < e@.len() ==> #[trigger] e@[i].id < #[trigger] e@[j].id,
{
    assert forall|i: int| 0 <= i < e@.len() implies #[trigger] e@[i].id == i + 1 by {
        assert(crate::types::job_wf(e@[i]));
    }
}

/// A job's total never drifts: in a well-formed store, `total_amount`
/// equals the exact sum of the milestone amounts — as computed once at
/// creation — and is strictly positive.
pub proof fn lemma_total_is_sum(e: Escrow, job_id: u64)
    requires
        e.wf(),
        has_job(e@, job_id),
    ensures
        job_at(e@, job_id).total_amount == sum_milestones(job_at(e@, job_id).milestones@),
        job_at(e@, job_id).total_amount > 0,
{
    assert(crate::types::job_wf(e@[job_id - 1]));
    lemma_sum_milestones_pos(job_at(e@, job_id).milestones@);
}

/// Round trip through the store: for the identifier a successful creation
/// returns, the stored job — the one `get_job` hands back — matches the
/// creation arguments field for field. The premises are exactly what
/// `create_job` ensures on success.
pub proof fn lemma_create_get_round_trip(
    pre: Escrow,
    post: Escrow,
    id: u64,
    client: u64,
    freelancer: u64,
    token: u64,
    inputs: Seq<MilestoneInput>,
    job_deadline: u64,
)
    requires
        post@.len() == pre@.len() + 1,
        id as int == pre@.len() + 1,
        job_matches(post@.last(), id, client, freelancer, token, inputs, job_deadline),
    ensures
        has_job(post@, id),
        job_at(post@, id) == post@.last(),
        job_matches(job_at(post@, id), id, client, freelancer, token, inputs, job_deadline),
{
}

/// Funding is not repeatable: once a job stands `Funded`, no further
/// funding request for it can succeed — a stranger is refused as
/// `Unauthorized`, the client as `InvalidJobStatus`.
pub proof fn lemma_no_double_funding(e: Escrow, job_id: u64, caller: u64)
    requires
        has_job(e@, job_id),
        job_at(e@, job_id).status == JobStatus::Funded,
    ensures
        fund_error(e@, job_id, caller) is Some,
        caller == job_at(e@, job_id).client ==> fund_error(e@, job_id, caller) == Some(
            Error::InvalidJobStatus,
        ),
{
}

/// Submission and overdue detection read the same clock the same way:
/// when every structural condition of a submission holds, the submission
/// is admitted exactly while the milestone is not overdue, and refused
/// with `MilestoneDeadlineExceeded` exactly once the deadline lies
/// strictly in the past.
pub proof fn lemma_overdue_blocks_submission(
    e: Escrow,
    job_id: u64,
    index: int,
    caller: u64,
    now: u64,
)
    requires
        has_job(e@, job_id),
        0 <= index < job_at(e@, job_id).milestones@.len(),
        caller == job_at(e@, job_id).freelancer,
        job_at(e@, job_id).status == JobStatus::Funded,
        job_at(e@, job_id).milestones@[index].status == MilestoneStatus::Pending,
    ensures
        overdue_error(e@, job_id, index) is None,
        now > job_at(e@, job_id).milestones@[index].deadline ==> submit_error(
            e@,
            job_id,
            index,
            caller,
            now,
        ) == Some(Error::MilestoneDeadlineExceeded),
        now <= job_at(e@, job_id).milestones@[index].deadline ==> submit_error(
            e@,
            job_id,
            index,
            caller,
            now,
        ) is None,
{
}

} // verus!
