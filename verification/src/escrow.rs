use crate::errors::Error;
use crate::types::{
    all_amounts_positive, all_pending, all_submitted, creation_error, deadlines_in_future,
    job_matches, job_wf, lemma_sum_inputs_take_le, lemma_sum_milestones_from,
    lemma_sum_same_amounts, milestones_from, same_core, submitted, sum_inputs, with_deadline,
    FundTransfer, Job, JobStatus, Milestone, MilestoneInput, MilestoneStatus,
};
use vstd::prelude::*;

verus! {

/// The job store and the state machine that owns it: a sequence of jobs,
/// where the job with identifier `i` sits at position `i - 1`. Identifiers
/// are assigned sequentially starting at 1 and never reused, so the count
/// of jobs ever created equals the length of the sequence.
pub struct Escrow {
    jobs: Vec<Job>,
}

impl View for Escrow {
    type V = Seq<Job>;

    closed spec fn view(&self) -> Seq<Job> {
        self.jobs@
    }
}

/// A job with this identifier exists in the store.
pub open spec fn has_job(s: Seq<Job>, job_id: u64) -> bool {
    1 <= job_id && job_id <= s.len()
}

/// The job stored under an identifier that `has_job` admits.
pub open spec fn job_at(s: Seq<Job>, job_id: u64) -> Job {
    s[job_id - 1]
}

/// The stores agree everywhere except possibly at the given job.
pub open spec fn unchanged_except(pre: Seq<Job>, post: Seq<Job>, job_id: u64) -> bool {
    &&& post.len() == pre.len()
    &&& forall|k: int| 0 <= k < pre.len() && k != job_id - 1 ==> #[trigger] post[k] == pre[k]
}

/// Why a funding request is refused, or `None` when it must succeed:
/// an unknown job, then a caller other than the job's client, then a job
/// already past `Created` — in that order of priority.
pub open spec fn fund_error(s: Seq<Job>, job_id: u64, caller: u64) -> Option<Error> {
    if !has_job(s, job_id) {
        Some(Error::JobNotFound)
    } else if caller != job_at(s, job_id).client {
        Some(Error::Unauthorized)
    } else if job_at(s, job_id).status != JobStatus::Created {
        Some(Error::InvalidJobStatus)
    } else {
        None
    }
}

/// Why a milestone submission is refused, or `None` when it must succeed:
/// an unknown job, an index out of bounds, a caller other than the job's
/// freelancer, a job not yet funded, a milestone already submitted, and
/// last a submission strictly after the milestone's deadline.
pub open spec fn submit_error(s: Seq<Job>, job_id: u64, index: int, caller: u64, now: u64) -> Option<
    Error,
> {
    if !has_job(s, job_id) {
        Some(Error::JobNotFound)
    } else if index >= job_at(s, job_id).milestones@.len() {
        Some(Error::InvalidMilestoneIndex)
    } else if caller != job_at(s, job_id).freelancer {
        Some(Error::Unauthorized)
    } else if job_at(s, job_id).status != JobStatus::Funded {
        Some(Error::InvalidJobStatus)
    } else if job_at(s, job_id).milestones@[index].status != MilestoneStatus::Pending {
        Some(Error::MilestoneAlreadySubmitted)
    } else if now > job_at(s, job_id).milestones@[index].deadline {
        Some(Error::MilestoneDeadlineExceeded)
    } else {
        None
    }
}

/// Why an overdue query is refused, or `None` when it must answer:
/// the job and the milestone index must exist, nothing more.
pub open spec fn overdue_error(s: Seq<Job>, job_id: u64, index: int) -> Option<Error> {
    if !has_job(s, job_id) {
        Some(Error::JobNotFound)
    } else if index >= job_at(s, job_id).milestones@.len() {
        Some(Error::InvalidMilestoneIndex)
    } else {
        None
    }
}

/// Why a deadline extension is refused, or `None` when it must succeed:
/// an unknown job, an index out of bounds, a milestone no longer pending,
/// and last a new deadline that is not strictly in the future or does not
/// strictly extend the present one.
pub open spec fn extend_error(
    s: Seq<Job>,
    job_id: u64,
    index: int,
    new_deadline: u64,
    now: u64,
) -> Option<Error> {
    if !has_job(s, job_id) {
        Some(Error::JobNotFound)
    } else if index >= job_at(s, job_id).milestones@.len() {
        Some(Error::InvalidMilestoneIndex)
    } else if job_at(s, job_id).milestones@[index].status != MilestoneStatus::Pending {
        Some(Error::MilestoneAlreadySubmitted)
    } else if !(new_deadline > now && new_deadline > job_at(s, job_id).milestones@[index].deadline) {
        Some(Error::InvalidDeadline)
    } else {
        None
    }
}

/// Whether every milestone of the list has been submitted.
fn all_submitted_exec(ms: &Vec<Milestone>) -> (b: bool)
    ensures
        b == all_submitted(ms@),
{
    let mut k: usize = 0;
    while k < ms.len()
        invariant
            k <= ms@.len(),
            forall|q: int| 0 <= q < k ==> #[trigger] ms@[q].status == MilestoneStatus::Submitted,
        decreases ms@.len() - k,
    {
        if !matches!(ms[k].status, MilestoneStatus::Submitted) {
            return false;
        }
        k += 1;
    }
    true
}

impl Escrow {
    /// Every job the store holds is well formed and sits under the
    /// identifier equal to its position plus one.
    pub open spec fn wf(self) -> bool {
        forall|i: int|
            0 <= i < self@.len() ==> #[trigger] job_wf(self@[i]) && self@[i].id == i + 1
    }

    /// An empty store: no job was ever created.
    pub fn new() -> (e: Escrow)
        ensures
            e@ =~= Seq::<Job>::empty(),
            e.wf(),
    {
        Escrow { jobs: Vec::new() }
    }

    /// The number of jobs ever created, which is also the identifier the
    /// next creation will assign minus one.
    pub fn get_job_count(&self) -> (n: u64)
        ensures
            n == self@.len(),
    {
        self.jobs.len() as u64
    }

    /// Create a job: validate the request, assign the next sequential
    /// identifier, compute the total as the exact sum of the milestone
    /// amounts, and store the job with status `Created` and every milestone
    /// `Pending`. No value moves at creation time.
    ///
    /// Succeeds exactly when `creation_error` admits the request, returns
    /// the error it names otherwise, and on failure leaves the store
    /// untouched. Every deadline must lie strictly in the future; no
    /// ordering between the job deadline and the milestone deadlines is
    /// imposed — a milestone may deliberately run past the overall
    /// deadline, and only its own deadline gates its submission.
    pub fn create_job(
        &mut self,
        client: u64,
        freelancer: u64,
        token: u64,
        milestones: Vec<MilestoneInput>,
        job_deadline: u64,
        now: u64,
    ) -> (r: Result<u64, Error>)
        requires
            old(self).wf(),
            old(self)@.len() < u64::MAX,
        ensures
            final(self).wf(),
            match r {
                Ok(id) => {
                    &&& creation_error(milestones@, job_deadline, now) is None
                    &&& id as int == old(self)@.len() + 1
                    &&& final(self)@.len() == old(self)@.len() + 1
                    &&& forall|k: int|
                        0 <= k < old(self)@.len() ==> #[trigger] final(self)@[k] == old(self)@[k]
                    &&& job_matches(
                        final(self)@.last(),
                        id,
                        client,
                        freelancer,
                        token,
                        milestones@,
                        job_deadline,
                    )
                },
                Err(e) => {
                    &&& final(self)@ == old(self)@
                    &&& creation_error(milestones@, job_deadline, now) == Some(e)
                },
            },
    {
        let n: usize = milestones.len();
        if n == 0 {
            return Err(Error::EmptyMilestones);
        }
        let mut i: usize = 0;
        while i < n
            invariant
                *self == *old(self),
                old(self).wf(),
                n == milestones@.len(),
                i <= n,
                forall|k: int| 0 <= k < i ==> #[trigger] milestones@[k].amount > 0,
            decreases n - i,
        {
            if milestones[i].amount <= 0 {
                return Err(Error::InvalidAmount);
            }
            i += 1;
        }
        assert(all_amounts_positive(milestones@));
        if job_deadline <= now {
            return Err(Error::InvalidDeadline);
        }
        let mut i: usize = 0;
        while i < n
            invariant
                *self == *old(self),
                old(self).wf(),
                n == milestones@.len(),
                i <= n,
                all_amounts_positive(milestones@),
                job_deadline > now,
                forall|k: int| 0 <= k < i ==> #[trigger] milestones@[k].deadline > now,
            decreases n - i,
        {
            if milestones[i].deadline <= now {
                return Err(Error::InvalidDeadline);
            }
            i += 1;
        }
        assert(deadlines_in_future(milestones@, job_deadline, now));
        let mut total: i128 = 0;
        let mut i: usize = 0;
        while i < n
            invariant
                *self == *old(self),
                old(self).wf(),
                n == milestones@.len(),
                i <= n,
                all_amounts_positive(milestones@),
                deadlines_in_future(milestones@, job_deadline, now),
                total >= 0,
                total == sum_inputs(milestones@.take(i as int)),
            decreases n - i,
        {
            let a: i128 = milestones[i].amount;
            proof {
                assert(milestones@.take(i as int + 1).drop_last() =~= milestones@.take(i as int));
                assert(milestones@.take(i as int + 1).last() == milestones@[i as int]);
            }
            if total > i128::MAX - a {
                proof {
                    lemma_sum_inputs_take_le(milestones@, i as int + 1);
                }
                return Err(Error::AmountOverflow);
            }
            total = total + a;
            i += 1;
        }
        assert(milestones@.take(n as int) =~= milestones@);
        let mut input: Vec<MilestoneInput> = milestones;
        let mut stored: Vec<Milestone> = Vec::new();
        while input.len() > 0
            invariant
                *self == *old(self),
                stored@.len() + input@.len() == milestones@.len(),
                input@ =~= milestones@.skip(stored@.len() as int),
                stored@ =~= milestones_from(milestones@).take(stored@.len() as int),
            decreases input@.len(),
        {
            let ghost k: int = stored@.len() as int;
            let mi: MilestoneInput = input.remove(0);
            proof {
                assert(mi == milestones@[k]);
            }
            stored.push(
                Milestone {
                    description: mi.description,
                    amount: mi.amount,
                    deadline: mi.deadline,
                    status: MilestoneStatus::Pending,
                },
            );
            proof {
                assert(stored@ =~= milestones_from(milestones@).take(k + 1));
                assert(input@ =~= milestones@.skip(k + 1));
            }
        }
        proof {
            assert(stored@ =~= milestones_from(milestones@));
            lemma_sum_milestones_from(milestones@);
        }
        let id: u64 = self.jobs.len() as u64 + 1;
        let job = Job {
            id,
            client,
            freelancer,
            token,
            milestones: stored,
            total_amount: total,
            status: JobStatus::Created,
            job_deadline,
        };
        proof {
            assert(job_wf(job)) by {
                assert forall|q: int| 0 <= q < job.milestones@.len() implies #[trigger] job.milestones@[q].amount
                    > 0 by {
                    assert(job.milestones@[q] == milestones_from(milestones@)[q]);
                }
                assert(all_pending(job.milestones@)) by {
                    assert forall|q: int|
                        0 <= q < job.milestones@.len() implies #[trigger] job.milestones@[q].status
                        == MilestoneStatus::Pending by {
                        assert(job.milestones@[q] == milestones_from(milestones@)[q]);
                    }
                }
            }
        }
        self.jobs.push(job);
        proof {
            assert forall|i: int| 0 <= i < self@.len() implies #[trigger] job_wf(self@[i])
                && self@[i].id == i + 1 by {
                if i < old(self)@.len() {
                    assert(self@[i] == old(self)@[i]);
                    assert(job_wf(old(self)@[i]));
                assert(old(self)@[i].id == i + 1);
                } else {
                    assert(self@[i] == job);
                }
            }
        }
        Ok(id)
    }

    /// Fund a job: the client moves the whole `total_amount` into escrow
    /// custody, and the job becomes `Funded`. The returned `FundTransfer`
    /// names exactly that movement; the host performs it atomically in the
    /// same transaction and aborts the transaction if the token refuses it.
    ///
    /// Succeeds exactly when `fund_error` admits the request: the job must
    /// exist, the caller must be its client, and the job must still be
    /// `Created` — funding twice is refused. On failure nothing changes;
    /// on success nothing changes but the one job's status.
    pub fn fund_job(&mut self, job_id: u64, caller: u64) -> (r: Result<FundTransfer, Error>)
        requires
            old(self).wf(),
        ensures
            final(self).wf(),
            match r {
                Ok(t) => {
                    &&& fund_error(old(self)@, job_id, caller) is None
                    &&& unchanged_except(old(self)@, final(self)@, job_id)
                    &&& same_core(job_at(old(self)@, job_id), job_at(final(self)@, job_id))
                    &&& job_at(final(self)@, job_id).milestones@ == job_at(
                        old(self)@,
                        job_id,
                    ).milestones@
                    &&& job_at(final(self)@, job_id).status == JobStatus::Funded
                    &&& t == (FundTransfer {
                        token: job_at(old(self)@, job_id).token,
                        from: job_at(old(self)@, job_id).client,
                        amount: job_at(old(self)@, job_id).total_amount,
                    })
                },
                Err(e) => {
                    &&& final(self)@ == old(self)@
                    &&& fund_error(old(self)@, job_id, caller) == Some(e)
                },
            },
    {
        if job_id < 1 || job_id > self.jobs.len() as u64 {
            return Err(Error::JobNotFound);
        }
        let idx: usize = (job_id - 1) as usize;
        if self.jobs[idx].client != caller {
            return Err(Error::Unauthorized);
        }
        if !matches!(self.jobs[idx].status, JobStatus::Created) {
            return Err(Error::InvalidJobStatus);
        }
        self.jobs[idx].status = JobStatus::Funded;
        proof {
            assert forall|i: int| 0 <= i < self@.len() implies #[trigger] job_wf(self@[i])
                && self@[i].id == i + 1 by {
                assert(job_wf(old(self)@[i]));
                assert(old(self)@[i].id == i + 1);
                if i != idx {
                    assert(self@[i] == old(self)@[i]);
                }
            }
        }
        assert(self.wf());
        let j: &Job = &self.jobs[idx];
        Ok(FundTransfer { token: j.token, from: j.client, amount: j.total_amount })
    }

    /// Submit a milestone: the freelancer marks work delivered, no later
    /// than the milestone's deadline. The milestone becomes `Submitted`,
    /// and once every milestone of the job is submitted the job becomes
    /// `Completed`. No value moves at submission: payout is a separate
    /// concern of the custody holder, deliberately kept out of this step.
    ///
    /// Succeeds exactly when `submit_error` admits the request: the job
    /// must exist and be `Funded`, the index must be in bounds, the caller
    /// must be the freelancer, the milestone must still be pending, and
    /// the clock must not stand strictly past the deadline.
    pub fn submit_milestone(
        &mut self,
        job_id: u64,
        milestone_index: usize,
        caller: u64,
        now: u64,
    ) -> (r: Result<(), Error>)
        requires
            old(self).wf(),
        ensures
            final(self).wf(),
            match r {
                Ok(()) => {
                    &&& submit_error(old(self)@, job_id, milestone_index as int, caller, now)
                        is None
                    &&& unchanged_except(old(self)@, final(self)@, job_id)
                    &&& same_core(job_at(old(self)@, job_id), job_at(final(self)@, job_id))
                    &&& job_at(final(self)@, job_id).milestones@ =~= job_at(
                        old(self)@,
                        job_id,
                    ).milestones@.update(
                        milestone_index as int,
                        submitted(job_at(old(self)@, job_id).milestones@[milestone_index as int]),
                    )
                    &&& job_at(final(self)@, job_id).status == (if all_submitted(
                        job_at(final(self)@, job_id).milestones@,
                    ) {
                        JobStatus::Completed
                    } else {
                        JobStatus::Funded
                    })
                },
                Err(e) => {
                    &&& final(self)@ == old(self)@
                    &&& submit_error(old(self)@, job_id, milestone_index as int, caller, now)
                        == Some(e)
                },
            },
    {
        if job_id < 1 || job_id > self.jobs.len() as u64 {
            return Err(Error::JobNotFound);
        }
        let jdx: usize = (job_id - 1) as usize;
        if milestone_index >= self.jobs[jdx].milestones.len() {
            return Err(Error::InvalidMilestoneIndex);
        }
        if self.jobs[jdx].freelancer != caller {
            return Err(Error::Unauthorized);
        }
        if !matches!(self.jobs[jdx].status, JobStatus::Funded) {
            return Err(Error::InvalidJobStatus);
        }
        if !matches!(self.jobs[jdx].milestones[milestone_index].status, MilestoneStatus::Pending) {
            return Err(Error::MilestoneAlreadySubmitted);
        }
        if now > self.jobs[jdx].milestones[milestone_index].deadline {
            return Err(Error::MilestoneDeadlineExceeded);
        }
        self.jobs[jdx].milestones[milestone_index].status = MilestoneStatus::Submitted;
        proof {
            lemma_sum_same_amounts(
                self@[jdx as int].milestones@,
                old(self)@[jdx as int].milestones@,
            );
            assert forall|i: int| 0 <= i < self@.len() implies #[trigger] job_wf(self@[i])
                && self@[i].id == i + 1 by {
                assert(job_wf(old(self)@[i]));
                assert(old(self)@[i].id == i + 1);
                if i != jdx {
                    assert(self@[i] == old(self)@[i]);
                }
            }
        }
        let done: bool = all_submitted_exec(&self.jobs[jdx].milestones);
        if done {
            self.jobs[jdx].status = JobStatus::Completed;
            proof {
                assert forall|i: int| 0 <= i < self@.len() implies #[trigger] job_wf(self@[i])
                    && self@[i].id == i + 1 by {
                    assert(job_wf(old(self)@[i]));
                assert(old(self)@[i].id == i + 1);
                    if i != jdx {
                        assert(self@[i] == old(self)@[i]);
                    } else {
                        lemma_sum_same_amounts(
                            self@[jdx as int].milestones@,
                            old(self)@[jdx as int].milestones@,
                        );
                    }
                }
            }
        }
        Ok(())
    }

    /// Whether a milestone's deadline has passed: true strictly after the
    /// deadline, false before it and exactly at it. A pure read — no
    /// authorization, no state change.
    ///
    /// Answers exactly when `overdue_error` admits the query, that is when
    /// the job and the milestone index exist.
    pub fn is_milestone_overdue(&self, job_id: u64, milestone_index: usize, now: u64) -> (r: Result<
        bool,
        Error,
    >)
        ensures
            match r {
                Ok(b) => {
                    &&& overdue_error(self@, job_id, milestone_index as int) is None
                    &&& b == (now > job_at(self@, job_id).milestones@[milestone_index as int].deadline)
                },
                Err(e) => overdue_error(self@, job_id, milestone_index as int) == Some(e),
            },
    {
        if job_id < 1 || job_id > self.jobs.len() as u64 {
            return Err(Error::JobNotFound);
        }
        let jdx: usize = (job_id - 1) as usize;
        if milestone_index >= self.jobs[jdx].milestones.len() {
            return Err(Error::InvalidMilestoneIndex);
        }
        Ok(now > self.jobs[jdx].milestones[milestone_index].deadline)
    }

    /// Extend a pending milestone's deadline to a strictly later one that
    /// also lies strictly in the future. Only that one deadline changes:
    /// every other field of the job and of its milestones, and every other
    /// job, keeps its value exactly. Pure metadata — no value moves, so no
    /// caller is named here; a host that wants extensions client-only
    /// checks the caller against the job's `client` before calling.
    ///
    /// Succeeds exactly when `extend_error` admits the request.
    pub fn extend_deadline(
        &mut self,
        job_id: u64,
        milestone_index: usize,
        new_deadline: u64,
        now: u64,
    ) -> (r: Result<(), Error>)
        requires
            old(self).wf(),
        ensures
            final(self).wf(),
            match r {
                Ok(()) => {
                    &&& extend_error(old(self)@, job_id, milestone_index as int, new_deadline, now)
                        is None
                    &&& unchanged_except(old(self)@, final(self)@, job_id)
                    &&& same_core(job_at(old(self)@, job_id), job_at(final(self)@, job_id))
                    &&& job_at(final(self)@, job_id).status == job_at(old(self)@, job_id).status
                    &&& job_at(final(self)@, job_id).milestones@ =~= job_at(
                        old(self)@,
                        job_id,
                    ).milestones@.update(
                        milestone_index as int,
                        with_deadline(
                            job_at(old(self)@, job_id).milestones@[milestone_index as int],
                            new_deadline,
                        ),
                    )
                },
                Err(e) => {
                    &&& final(self)@ == old(self)@
                    &&& extend_error(old(self)@, job_id, milestone_index as int, new_deadline, now)
                        == Some(e)
                },
            },
    {
        if job_id < 1 || job_id > self.jobs.len() as u64 {
            return Err(Error::JobNotFound);
        }
        let jdx: usize = (job_id - 1) as usize;
        if milestone_index >= self.jobs[jdx].milestones.len() {
            return Err(Error::InvalidMilestoneIndex);
        }
        if !matches!(self.jobs[jdx].milestones[milestone_index].status, MilestoneStatus::Pending) {
            return Err(Error::MilestoneAlreadySubmitted);
        }
        if !(new_deadline > now && new_deadline > self.jobs[jdx].milestones[milestone_index].deadline) {
            return Err(Error::InvalidDeadline);
        }
        self.jobs[jdx].milestones[milestone_index].deadline = new_deadline;
        proof {
            lemma_sum_same_amounts(
                self@[jdx as int].milestones@,
                old(self)@[jdx as int].milestones@,
            );
            assert forall|i: int| 0 <= i < self@.len() implies #[trigger] job_wf(self@[i])
                && self@[i].id == i + 1 by {
                assert(job_wf(old(self)@[i]));
                assert(old(self)@[i].id == i + 1);
                if i != jdx {
                    assert(self@[i] == old(self)@[i]);
                }
            }
        }
        Ok(())
    }

    /// Look a job up by identifier. Returns the stored job exactly as it
    /// is, and `JobNotFound` precisely when no job has that identifier.
    pub fn get_job(&self, job_id: u64) -> (r: Result<&Job, Error>)
        ensures
            match r {
                Ok(j) => has_job(self@, job_id) && *j == job_at(self@, job_id),
                Err(e) => e == Error::JobNotFound && !has_job(self@, job_id),
            },
    {
        if job_id >= 1 && job_id <= self.jobs.len() as u64 {
            Ok(&self.jobs[(job_id - 1) as usize])
        } else {
            Err(Error::JobNotFound)
        }
    }
}

} // verus!
