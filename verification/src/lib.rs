//! Resolution of virtual addresses inside a compiled binary to
//! source-level information: file, line and column, the enclosing
//! function, and the ordered chain of inlined functions covering an
//! address — a building block for profilers and crash reporters.

pub mod elf;
pub mod error;
pub mod inspect;
pub mod lang;
pub mod location;
pub mod resolver;
pub mod symbolize;
pub mod units;

use vstd::prelude::*;

verus! {

/// A normalized address within the binary's own address space,
/// independent of any runtime load offset.
pub type Addr = u64;

} // verus!
