//! Kernel-native scalar types and the error taxonomy.
use vstd::prelude::*;

verus! {

/// The kernel's wrapping tick counter.
pub type FreeRtosTickType = u32;

/// The kernel's unsigned base type, used for priorities and status words.
pub type FreeRtosUBaseType = u32;

/// Number of values of a 32-bit word: the modulus of tick arithmetic and of
/// the notification value.
pub open spec fn word_modulus() -> int {
    0x1_0000_0000
}

/// Failures that the kernel boundary can report.
#[derive(Debug, Clone, Copy, PartialEq, Eq, Structural)]
pub enum FreeRtosError {
    /// The kernel could not allocate the execution unit.
    OutOfMemory,
    /// The caller runs outside of any task.
    TaskNotFound,
    /// The kernel refused a notification sent from an interrupt.
    QueueFull,
    /// A blocking wait ran past its deadline.
    Timeout,
}

} // verus!
