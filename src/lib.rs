//! A shared value that can be borrowed by name: every outstanding access is
//! recorded in a ledger, so a refused borrow reports who currently holds it.
pub mod laws;
pub mod ledger;
pub mod lender;

pub use ledger::{AccessKind, AccessState, Ledger};
pub use lender::{Dropper, Lender, Ref, RefMut};
