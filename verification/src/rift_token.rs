//! The token program: shares issued at a rate set by the core's global field.
//! It reads the core state and never changes it.
pub mod effects;
pub mod error;
pub mod events;
pub mod instructions;
pub mod laws;
pub mod pricing;
pub mod state;

pub use error::TokenError;
pub use events::{IssueRiftEvent, RiftRebaseEvent};
pub use instructions::{initialize, issue_rift, rebase, Initialize, IssueRift, Rebase};
pub use pricing::{FOUNDER_SHARE_BPS, MAX_FEE_BPS, MIN_FIELD_PRESSURE};
pub use state::RiftTokenState;
