use vstd::prelude::*;

verus! {

/// Why an escrow operation was refused.
///
/// Every operation either commits in full or fails with one of these kinds
/// and leaves the job store untouched. The kind is enough for a caller to
/// tell a permanent refusal (a malformed deadline) from a transient one.
#[derive(Clone, Copy, Debug, PartialEq, Eq, Structural)]
pub enum Error {
    /// A job was created with no milestones.
    EmptyMilestones,
    /// A milestone amount was zero or negative.
    InvalidAmount,
    /// A deadline (milestone or job) does not lie strictly in the future,
    /// or a new deadline does not extend the one it replaces.
    InvalidDeadline,
    /// The sum of the milestone amounts does not fit the amount type.
    AmountOverflow,
    /// No job is stored under the given identifier.
    JobNotFound,
    /// The milestone index is out of bounds for the job.
    InvalidMilestoneIndex,
    /// The caller is not the principal this operation belongs to.
    Unauthorized,
    /// The job is not in the status the operation needs.
    InvalidJobStatus,
    /// The milestone was already submitted.
    MilestoneAlreadySubmitted,
    /// The milestone's deadline lies strictly in the past.
    MilestoneDeadlineExceeded,
}

} // verus!
