//! An escrow-style fund-splitting ledger.
//!
//! A pooled split record collects contributions from a fixed set of parties
//! according to pre-agreed percentage shares, and releases the pooled funds to
//! a designated receiver once the target amount is reached.
//!
//! The library is the split state machine itself: validation and construction
//! of a record (`create_split`), settlement of one contributor's obligation
//! (`contribute`), and release of the pooled funds (`release`). The
//! surrounding environment owns account storage, signature verification and
//! the native transfer primitive; it hands the state machine verified
//! identities and plain balances, executes each operation as an atomic,
//! serialized transaction, and performs the fund movement that a successful
//! operation prescribes.
//!
//! Release policy: this implementation uses the capped, reset-cycle policy.
//! A successful release moves exactly `target_amount` to the receiver, then
//! resets `received_amount` and every contributor's `has_cleared` flag so the
//! record can serve a new contribution cycle without being recreated.

pub mod errors;
pub mod instructions;
pub mod laws;
pub mod states;

pub use instructions::contribute::contribute;
pub use instructions::contribute::contribute as contribute_split;
pub use instructions::create_split::create_split;
pub use instructions::release::release;
pub use instructions::release::release as release_payment;
pub use instructions::release::release as release_split;
