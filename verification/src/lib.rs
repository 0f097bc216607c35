//! In-process memory isolation built on hardware protection keys.
//!
//! A sandbox gives a piece of native code a region of memory and a stack of its own, both
//! tagged with a protection domain, and runs the code with the rights register switched so
//! that a stray write cannot leave them. This crate holds everything about that which is
//! arithmetic and decision: which addresses may become boundary pointers, how the rights
//! register is changed, the steps that set a sandbox up, and the plan of each crossing.

pub mod crossing;
pub mod os;
pub mod pkru;
pub mod ptr;
pub mod region;
pub mod sandbox;

pub use crossing::{
    Call, Crossing, CrossingFault, Entry, ReentrancySlot, Restored, SlotLayout,
};
pub use pkru::{pkru_deny, pkru_get, pkru_set};
pub use ptr::{validate_sandbox_ptr, PointerFault, SandboxPtr, SandboxPtrMut, SandboxSafe};
pub use region::Region;
pub use sandbox::{InitAction, InitEvent, InitFailure, Sandbox, SandboxState};
