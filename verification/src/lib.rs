//! SafeHands: a custodial escrow ledger.
//!
//! The ledger holds a deposited sum for a client and a freelancer under an
//! arbiter, and releases, refunds or awards it by mutual approval, by the
//! arbiter's decision, or once the deadline has passed. Every operation is a
//! total function from the ledger's state and a request to the next state and
//! the value transfer and event that the host must carry out.

pub mod allocator;
pub mod error;
pub mod escrow;
pub mod identity;
pub mod index;
pub mod laws;
pub mod ledger;

pub use allocator::IdAllocator;
pub use error::{ErrorKind, EscrowError};
pub use escrow::{Action, Escrow, EscrowEvent, EscrowState, Receipt, Transfer};
pub use identity::Identity;
pub use index::UserIndex;
pub use ledger::SafeHandsContract;
