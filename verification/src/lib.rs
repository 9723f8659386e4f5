//! A minimal record-keeping core for an educational platform.
//!
//! Per learner it tracks a cumulative profile (courses completed, total
//! experience points) and one immutable completion receipt per
//! (learner, course) pair.  Records live in a key-addressed store whose
//! addresses are derived deterministically from a namespace tag, the
//! learner identity and (for receipts) the course identifier, so that
//! uniqueness is enforced by the store's create-if-absent primitive
//! rather than by lookup tables.

pub mod addr;
pub mod error;
pub mod layout;
pub mod ops;
pub mod state;
pub mod store;

pub use error::SolDojoError;
pub use ops::{init_profile, record_completion, InitProfile, RecordCompletion};
pub use state::{CourseCompletion, LearnerProfile};
pub use store::Ledger;
