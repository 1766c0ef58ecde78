//! A milestone-based escrow library: a client deposits funds for a
//! freelancer's work, releasable milestone by milestone, each milestone with
//! its own amount and deadline.
//!
//! The crate verifies the job/milestone state machine and the fund-custody
//! rules: job creation with validated deadlines, funding, per-milestone
//! submission gated by deadlines, overdue detection, and deadline extension.
//!
//! The host environment (the ledger clock, the authenticated caller, and the
//! token that moves value) is external: every operation takes the current
//! ledger time and the caller as plain arguments, and funding returns the
//! transfer that the host must perform atomically in the same transaction.

pub mod errors;
pub mod escrow;
pub mod laws;
pub mod token;
pub mod types;

pub use errors::Error;
pub use escrow::Escrow;
pub use token::MockToken;
pub use types::{FundTransfer, Job, JobStatus, Milestone, MilestoneInput, MilestoneStatus};
