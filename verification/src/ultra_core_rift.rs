//! The core program: the ledger, its invariant and the instructions on it.
pub mod effects;
pub mod events;
pub mod field;
pub mod gate;
pub mod laws;
pub mod ledger;
pub mod membership;
pub mod state;
pub mod transfer;

pub use events::{
    BurnEvent, CoreEvent, FieldUpdateEvent, MintEvent, PausedEvent, RedistributeEvent,
    RegisteredEvent, TransferEvent, UnregisteredEvent,
};
pub use field::{apply_neg_entropy, redistribute, ApplyNegEntropy, Redistribute};
pub use gate::{initialize, set_edge, set_paused, Initialize, SetEdge, SetPaused};
pub use membership::{register, unregister, Register, Unregister};
pub use state::{CoreState, EdgeAccount, UserAccount};
pub use transfer::{transfer, transfer_with_edge, Transfer, TransferCtx, TransferWithEdge};
