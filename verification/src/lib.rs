//! Composable instrumentation layer for a coverage-guided fuzzer driving an
//! emulated target.
//!
//! The crate provides three pieces:
//! - a filter abstraction ([`filter::IsFilter`], [`filter::QemuFilterList`])
//!   that scopes a helper's instrumentation to an allow-list or deny-list of
//!   guest addresses or paging identifiers;
//! - a helper composition mechanism ([`helper::QemuHelper`],
//!   [`helper::QemuHelperTuple`]) that turns an ordered collection of
//!   heterogeneous helpers into one callable pipeline of lifecycle hooks;
//! - a registry of coverage-counter memory spans ([`registry::CountersRegistry`])
//!   populated by instrumented guest modules at load time.
//!
//! The emulator itself is an external collaborator; [`emu::Qemu`] models the
//! part of its state that this layer observes and mutates (the translation
//! cache flush counter and the ordered log of guest-visible actions).

pub mod emu;
pub mod filter;
pub mod hash;
pub mod helper;
pub mod registry;

pub use emu::{ExitKind, GuestAddr, GuestPhysAddr, Qemu, QemuHooks, QemuView};
pub use hash::hash_me;
