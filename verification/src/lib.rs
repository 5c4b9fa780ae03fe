//! Task lifecycle and inter-task signalling for a FreeRTOS binding.
//!
//! The kernel itself is reached only by the caller: every operation here
//! either prepares the exact arguments of one kernel primitive or decides
//! what a value handed back by the kernel means.
pub mod base;
pub mod delays;
pub mod mailbox;
pub mod task;
pub mod units;
