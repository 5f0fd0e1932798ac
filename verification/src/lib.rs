//! Account validation and safe state transitions for programs that act on
//! externally supplied, untyped account data.
//!
//! Before a program interprets an account it has to establish who authorized
//! the action, which trust domain owns the bytes, which logical type they
//! hold, that a derived address is the canonical one for its seeds, and that
//! one-time setup is not replayed. The modules below provide these checks as
//! small verified functions and compose them into instruction handlers.

pub mod account;
pub mod address;
pub mod arith;
pub mod buffer;
pub mod context;
pub mod discriminator;
pub mod error;
pub mod funds;
pub mod hash;
pub mod integer_overflow;
pub mod layout;
pub mod loader;
pub mod missing_owner;
pub mod missing_signer;
pub mod pda;
pub mod pda_bump;
pub mod pipeline;
pub mod registry;
pub mod reinitialization;
pub mod type_cosplay;
pub mod verify;

pub use crate::account::{Account, AccountView, DISCRIMINATOR_LEN};
pub use crate::address::Address;
pub use crate::arith::{checked_add, checked_sub, Unsigned};
pub use crate::context::Context;
pub use crate::discriminator::discriminator_of;
pub use crate::error::ErrorCode;
pub use crate::funds::transfer;
pub use crate::layout::AccountData;
pub use crate::loader::{load, store, TypedView};
pub use crate::pda::{
    derive_canonical, derive_with_bump, verify_canonical, verify_canonical_address, DerivedAddress,
};
pub use crate::pipeline::{check_blank, load_authorized, load_signed, Governed};
pub use crate::registry::Registry;
pub use crate::verify::{
    guard_first_use, verify_authority, verify_discriminator, verify_owner, verify_signer, InitFlag,
};
