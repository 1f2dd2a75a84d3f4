//! The system resources that the operations name. Their values are opaque
//! here: the library hands back what the driver reported and never
//! interprets it.

use vstd::prelude::*;

verus! {

/// An open file, as the system identifies it.
#[derive(Clone, Copy, Debug, PartialEq, Eq, Structural)]
pub struct FileHandle(pub isize);

/// An open, permission-scoped view into a process.
#[derive(Clone, Copy, Debug, PartialEq, Eq, Structural)]
pub struct ProcessHandle(pub isize);

/// A module loaded in a process; valid while that process stays open.
#[derive(Clone, Copy, Debug, PartialEq, Eq, Structural)]
pub struct ModuleHandle(pub isize);

} // verus!
