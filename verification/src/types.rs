use crate::errors::Error;
use vstd::prelude::*;

verus! {

/// Where a milestone stands: pending work, or submitted before its deadline.
#[derive(Clone, Copy, Debug, PartialEq, Eq, Structural)]
pub enum MilestoneStatus {
    Pending,
    Submitted,
}

/// Where a job stands. `Created` is the initial status; funding moves the
/// job to `Funded`; once every milestone has been submitted the job is
/// `Completed`.
#[derive(Clone, Copy, Debug, PartialEq, Eq, Structural)]
pub enum JobStatus {
    Created,
    Funded,
    Completed,
}

/// A milestone as handed to job creation: a label, a positive amount in the
/// token's smallest unit, and the ledger time by which it must be submitted.
pub struct MilestoneInput {
    pub description: String,
    pub amount: i128,
    pub deadline: u64,
}

/// A milestone as stored inside a job. Its amount and description never
/// change after creation; the deadline may only be extended, and the status
/// moves from `Pending` to `Submitted` at most once.
pub struct Milestone {
    pub description: String,
    pub amount: i128,
    pub deadline: u64,
    pub status: MilestoneStatus,
}

/// An escrow agreement between one client and one freelancer over a fixed
/// list of milestones, paid in a single token.
///
/// Identifiers are assigned sequentially starting at 1 and never reused.
/// `total_amount` equals the sum of the milestone amounts for the whole
/// life of the job, since amounts are immutable after creation.
pub struct Job {
    pub id: u64,
    pub client: u64,
    pub freelancer: u64,
    pub token: u64,
    pub milestones: Vec<Milestone>,
    pub total_amount: i128,
    pub status: JobStatus,
    pub job_deadline: u64,
}

/// The value transfer a successful funding asks of the host: move `amount`
/// of `token` from `from` (the job's client) into escrow custody. The host
/// performs it atomically in the same transaction and aborts the whole
/// transaction if the token refuses it.
#[derive(Clone, Copy, Debug, PartialEq, Eq, Structural)]
pub struct FundTransfer {
    pub token: u64,
    pub from: u64,
    pub amount: i128,
}

/// The sum of the milestone amounts handed to job creation.
pub open spec fn sum_inputs(ms: Seq<MilestoneInput>) -> int
    decreases ms.len(),
{
    if ms.len() == 0 {
        0
    } else {
        sum_inputs(ms.drop_last()) + ms.last().amount
    }
}

/// The sum of the amounts of stored milestones.
pub open spec fn sum_milestones(ms: Seq<Milestone>) -> int
    decreases ms.len(),
{
    if ms.len() == 0 {
        0
    } else {
        sum_milestones(ms.drop_last()) + ms.last().amount
    }
}

/// Every milestone amount is strictly positive.
pub open spec fn all_amounts_positive(ms: Seq<MilestoneInput>) -> bool {
    forall|i: int| 0 <= i < ms.len() ==> #[trigger] ms[i].amount > 0
}

/// Every milestone deadline, and the overall job deadline, lies strictly
/// after the creation-time clock reading. The safety margin chosen here is
/// the strict inequality itself: no additional buffer beyond one time unit.
pub open spec fn deadlines_in_future(ms: Seq<MilestoneInput>, job_deadline: u64, now: u64) -> bool {
    &&& job_deadline > now
    &&& forall|i: int| 0 <= i < ms.len() ==> #[trigger] ms[i].deadline > now
}

/// The milestones a fresh job stores for the given creation inputs: the
/// same labels, amounts and deadlines, each starting out `Pending`.
pub open spec fn milestones_from(inputs: Seq<MilestoneInput>) -> Seq<Milestone> {
    inputs.map_values(
        |mi: MilestoneInput|
            Milestone {
                description: mi.description,
                amount: mi.amount,
                deadline: mi.deadline,
                status: MilestoneStatus::Pending,
            },
    )
}

/// Every milestone of the sequence is still pending.
pub open spec fn all_pending(ms: Seq<Milestone>) -> bool {
    forall|i: int| 0 <= i < ms.len() ==> #[trigger] ms[i].status == MilestoneStatus::Pending
}

/// Every milestone of the sequence has been submitted.
pub open spec fn all_submitted(ms: Seq<Milestone>) -> bool {
    forall|i: int| 0 <= i < ms.len() ==> #[trigger] ms[i].status == MilestoneStatus::Submitted
}

/// The well-formedness every stored job keeps for its whole life:
/// a non-empty milestone list, strictly positive amounts, a total equal to
/// the sum of the milestone amounts, and a status coherent with the
/// milestone statuses (nothing is submitted before funding; `Completed`
/// means everything was submitted).
pub open spec fn job_wf(j: Job) -> bool {
    &&& j.id >= 1
    &&& j.milestones@.len() > 0
    &&& forall|i: int| 0 <= i < j.milestones@.len() ==> #[trigger] j.milestones@[i].amount > 0
    &&& j.total_amount == sum_milestones(j.milestones@)
    &&& j.status == JobStatus::Created ==> all_pending(j.milestones@)
    &&& j.status == JobStatus::Completed ==> all_submitted(j.milestones@)
}

/// How a stored job relates to the arguments of the creation that made it:
/// identifier and immutable fields as given, milestones copied in order and
/// all pending, the total computed as the sum of the amounts, and the
/// initial status `Created`.
pub open spec fn job_matches(
    j: Job,
    id: u64,
    client: u64,
    freelancer: u64,
    token: u64,
    inputs: Seq<MilestoneInput>,
    job_deadline: u64,
) -> bool {
    &&& j.id == id
    &&& j.client == client
    &&& j.freelancer == freelancer
    &&& j.token == token
    &&& j.milestones@ =~= milestones_from(inputs)
    &&& j.total_amount == sum_inputs(inputs)
    &&& j.status == JobStatus::Created
    &&& j.job_deadline == job_deadline
}

/// The given milestone with its deadline replaced and nothing else touched.
pub open spec fn with_deadline(m: Milestone, deadline: u64) -> Milestone {
    Milestone { deadline, ..m }
}

/// The given milestone marked submitted and nothing else touched.
pub open spec fn submitted(m: Milestone) -> Milestone {
    Milestone { status: MilestoneStatus::Submitted, ..m }
}

/// The fields of a job no operation after creation may change: identity,
/// parties, token, total and overall deadline.
pub open spec fn same_core(a: Job, b: Job) -> bool {
    &&& b.id == a.id
    &&& b.client == a.client
    &&& b.freelancer == a.freelancer
    &&& b.token == a.token
    &&& b.total_amount == a.total_amount
    &&& b.job_deadline == a.job_deadline
}

/// A prefix of a sequence of positive amounts never sums to more than the
/// whole sequence does.
pub proof fn lemma_sum_inputs_take_le(ms: Seq<MilestoneInput>, i: int)
    requires
        0 <= i <= ms.len(),
        all_amounts_positive(ms),
    ensures
        sum_inputs(ms.take(i)) <= sum_inputs(ms),
    decreases ms.len() - i,
{
    if i == ms.len() {
        assert(ms.take(i) =~= ms);
    } else {
        assert(ms.take(i + 1).drop_last() =~= ms.take(i));
        assert(ms.take(i + 1).last() == ms[i]);
        lemma_sum_inputs_take_le(ms, i + 1);
    }
}

/// The milestones a job stores carry exactly the amounts handed in, so the
/// two sums agree.
pub proof fn lemma_sum_milestones_from(inputs: Seq<MilestoneInput>)
    ensures
        sum_milestones(milestones_from(inputs)) == sum_inputs(inputs),
    decreases inputs.len(),
{
    if inputs.len() > 0 {
        assert(milestones_from(inputs).drop_last() =~= milestones_from(inputs.drop_last()));
        lemma_sum_milestones_from(inputs.drop_last());
    }
}

/// Two milestone sequences that agree amount by amount sum to the same
/// total — the sum never depends on labels, deadlines or statuses.
pub proof fn lemma_sum_same_amounts(a: Seq<Milestone>, b: Seq<Milestone>)
    requires
        a.len() == b.len(),
        forall|i: int| 0 <= i < a.len() ==> #[trigger] a[i].amount == b[i].amount,
    ensures
        sum_milestones(a) == sum_milestones(b),
    decreases a.len(),
{
    if a.len() > 0 {
        assert(a.last().amount == b.last().amount);
        lemma_sum_same_amounts(a.drop_last(), b.drop_last());
    }
}

/// A non-empty milestone list of strictly positive amounts sums to a
/// strictly positive total.
pub proof fn lemma_sum_milestones_pos(ms: Seq<Milestone>)
    requires
        ms.len() > 0,
        forall|i: int| 0 <= i < ms.len() ==> #[trigger] ms[i].amount > 0,
    ensures
        sum_milestones(ms) > 0,
    decreases ms.len(),
{
    assert(ms.last() == ms[ms.len() - 1]);
    assert(ms.last().amount > 0);
    if ms.len() == 1 {
        assert(ms.drop_last().len() == 0);
        assert(sum_milestones(ms.drop_last()) == 0);
    }
    if ms.len() > 1 {
        assert forall|i: int| 0 <= i < ms.drop_last().len() implies #[trigger] ms.drop_last()[i].amount
            > 0 by {
            assert(ms.drop_last()[i] == ms[i]);
        }
        lemma_sum_milestones_pos(ms.drop_last());
    }
}

/// Why a creation request is refused, or `None` when it must succeed:
/// an empty milestone list, then a non-positive amount, then a deadline not
/// strictly in the future, then a total that does not fit the amount type —
/// in that order of priority.
pub open spec fn creation_error(inputs: Seq<MilestoneInput>, job_deadline: u64, now: u64) -> Option<
    Error,
> {
    if inputs.len() == 0 {
        Some(Error::EmptyMilestones)
    } else if !all_amounts_positive(inputs) {
        Some(Error::InvalidAmount)
    } else if !deadlines_in_future(inputs, job_deadline, now) {
        Some(Error::InvalidDeadline)
    } else if sum_inputs(inputs) > i128::MAX {
        Some(Error::AmountOverflow)
    } else {
        None
    }
}

} // verus!
