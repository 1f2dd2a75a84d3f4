//! A sans-I/O core for two Windows identity queries: the canonical final
//! path of an open file, and the executable image path of a process found by
//! name.
//!
//! The library performs no operating-system call. Each operation is a small
//! state machine: it tells its driver which call to make next, takes what the
//! system answered, and decides what follows. Every decision carries a
//! contract that Verus proves.

pub mod error;
pub mod handle;
pub mod locator;
pub mod name;
pub mod protocol;
pub mod resolver;
pub mod search;
pub mod wide;
