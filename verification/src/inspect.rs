use vstd::prelude::*;

verus! {

/// The kind of symbol a name-based lookup asks for. Only function
/// lookup is implemented; variable lookup is a permanent
/// `Unsupported` condition.
#[derive(Debug, Clone, Copy, PartialEq, Eq, Structural)]
pub enum SymType {
    Function,
    Variable,
}

/// Options of a name-based lookup.
#[derive(Debug, Clone, Copy, PartialEq, Eq, Structural)]
pub struct FindAddrOpts {
    /// Reserved: report the symbol's file offset. Kept for interface
    /// symmetry with sibling lookup paths; always reported as 0 here.
    pub offset_in_file: bool,
    /// Reserved: report the originating object file. Kept for
    /// interface symmetry; always reported as absent here.
    pub obj_file_name: bool,
    /// The kind of symbol to look up.
    pub sym_type: SymType,
}

/// One result of a name-based lookup.
#[derive(Debug)]
pub struct SymInfo {
    /// The symbol's name.
    pub name: String,
    /// The symbol's start address, or 0 when its range is unknown.
    pub addr: crate::Addr,
    /// The length of the symbol's range, or 0 when it is unknown.
    pub size: usize,
    /// The kind of the symbol; always `Function` here.
    pub sym_type: SymType,
    /// Reserved; always 0 here.
    pub file_offset: u64,
    /// Reserved; always absent here.
    pub obj_file_name: Option<String>,
}

} // verus!
