use std::rc::Rc;
use vstd::prelude::*;

use crate::elf::ElfParser;
use crate::error::{Error, ErrorKind};
use crate::inspect::{FindAddrOpts, SymInfo, SymType};
use crate::lang::{src_lang_of, SrcLang};
use crate::symbolize::{
    assemble_code_info, assembled_direct, assembled_frames, chain_has_corrupt, frame_from_location,
    frame_of, AddrCodeInfo, FrameCodeInfo, InlineFrame,
};
use crate::units::{
    index_wf, lookup_chain, lookup_function, lookup_location, matches_of, name_matches,
    lemma_matches_of_sound, AddrRange, FuncEntry, InlineChain, LineRow, UnitIndex,
};

verus! {

use crate::Addr;

/// A function resolved at an address: its name (empty when the debug
/// entry is nameless), start address, size and source language.
#[derive(Debug)]
pub struct IntSym {
    pub name: String,
    pub addr: Addr,
    pub size: Option<usize>,
    pub lang: SrcLang,
}

/// The length of a recorded address range, clamped to the platform's
/// largest representable size; 0 when the range ends before it
/// begins.
pub open spec fn range_size(rg: AddrRange) -> usize {
    if rg.end < rg.begin {
        0
    } else if rg.end - rg.begin > usize::MAX as int {
        usize::MAX
    } else {
        (rg.end - rg.begin) as usize
    }
}

/// The name characters reported for a function entry: its recorded
/// name, or empty when the entry is nameless.
pub open spec fn sym_name_chars(f: FuncEntry) -> Seq<char> {
    match f.name {
        Some(n) => n@,
        None => Seq::empty(),
    }
}

/// The name-lookup result a matching function entry yields.
pub open spec fn sym_info_of(f: FuncEntry) -> SymInfo
    recommends
        f.name is Some,
{
    SymInfo {
        name: f.name.unwrap(),
        addr: match f.range {
            Some(rg) => rg.begin,
            None => 0,
        },
        size: match f.range {
            Some(rg) => range_size(rg),
            None => 0,
        },
        sym_type: SymType::Function,
        file_offset: 0,
        obj_file_name: None,
    }
}

/// What a code-information query yields: nothing, an error on a
/// corrupt inline chain, or the assembled direct location and inline
/// frames.
pub enum CodeOutcome {
    Absent,
    Corrupt,
    Found(FrameCodeInfo, Seq<InlineFrame>),
}

/// The outcome of resolving code information at `addr` over the given
/// index data: absent when line-number resolution is disabled or the
/// line table does not cover `addr`; otherwise the direct position,
/// shifted through the inline chain covering `addr` when inlined
/// frames are requested.
pub open spec fn code_info_outcome(
    rows: Seq<LineRow>,
    chains: Seq<InlineChain>,
    line_number_info: bool,
    addr: Addr,
    inlined_fns: bool,
) -> CodeOutcome {
    if !line_number_info {
        CodeOutcome::Absent
    } else {
        match lookup_location(rows, addr) {
            None => CodeOutcome::Absent,
            Some(loc) => if !inlined_fns {
                CodeOutcome::Found(frame_of(loc), Seq::empty())
            } else {
                match lookup_chain(chains, addr) {
                    None => CodeOutcome::Found(frame_of(loc), Seq::empty()),
                    Some(entries) => if chain_has_corrupt(entries) {
                        CodeOutcome::Corrupt
                    } else {
                        CodeOutcome::Found(
                            assembled_direct(frame_of(loc), entries),
                            assembled_frames(frame_of(loc), entries),
                        )
                    },
                }
            },
        }
    }
}

/// If an address yields code information without inlined frames, it
/// yields code information with them as well — provided the chain
/// covering it, if any, is not corrupt — and when no inline chain
/// covers the address, or an empty one does, the outcome is
/// unchanged: the direct slot keeps the very same position.
pub proof fn lemma_code_info_monotone(
    rows: Seq<LineRow>,
    chains: Seq<InlineChain>,
    line_number_info: bool,
    addr: Addr,
)
    requires
        code_info_outcome(rows, chains, line_number_info, addr, false) is Found,
        (lookup_chain(chains, addr) matches Some(es) ==> !chain_has_corrupt(es)),
    ensures
        code_info_outcome(rows, chains, line_number_info, addr, true) is Found,
        lookup_chain(chains, addr) is None ==> code_info_outcome(
            rows,
            chains,
            line_number_info,
            addr,
            true,
        ) == code_info_outcome(rows, chains, line_number_info, addr, false),
        (lookup_chain(chains, addr) matches Some(es) && es.len() == 0) ==> code_info_outcome(
            rows,
            chains,
            line_number_info,
            addr,
            true,
        ) == code_info_outcome(rows, chains, line_number_info, addr, false),
{
    match lookup_chain(chains, addr) {
        Some(es) => {
            if es.len() == 0 {
                assert(assembled_frames(frame_of(lookup_location(rows, addr).unwrap()), es) =~= Seq::<
                    InlineFrame,
                >::empty());
            }
        },
        None => {},
    }
}

/// Queries DWARF debug information of one binary: code location at an
/// address, function symbol at an address, and functions by name.
///
/// The resolver owns a unit index whose data logically derives from
/// the byte source's debug sections, and keeps that byte source alive
/// through shared ownership for as long as the resolver itself lives.
/// Both are immutable after construction; queries never mutate
/// resolver state.
#[derive(Debug)]
pub struct DwarfResolver {
    units: UnitIndex,
    parser: Rc<ElfParser>,
    line_number_info: bool,
    enable_debug_info_syms: bool,
}

impl DwarfResolver {
    #[verifier::type_invariant]
    spec fn wf(&self) -> bool {
        index_wf(self.units)
    }

    /// The line-table rows of the resolver's index.
    pub closed spec fn rows(&self) -> Seq<LineRow> {
        self.units.rows@
    }

    /// The inline chains of the resolver's index.
    pub closed spec fn chains(&self) -> Seq<InlineChain> {
        self.units.chains@
    }

    /// The function entries of the resolver's index.
    pub closed spec fn funcs(&self) -> Seq<FuncEntry> {
        self.units.funcs@
    }

    /// Whether line-number resolution was enabled at construction.
    pub closed spec fn has_line_info(&self) -> bool {
        self.line_number_info
    }

    /// Whether debug-info-derived symbol lookup was enabled at
    /// construction.
    pub closed spec fn has_debug_syms(&self) -> bool {
        self.enable_debug_info_syms
    }

    /// The byte source this resolver keeps alive.
    pub closed spec fn spec_parser(&self) -> Rc<ElfParser> {
        self.parser
    }

    /// The byte source this resolver was built over.
    pub fn parser(&self) -> (r: &ElfParser)
        ensures
            *r == self.spec_parser(),
    {
        &*self.parser
    }

    /// Build a resolver from an already-open byte source, the unit
    /// index read from that source's debug sections, and the two
    /// feature toggles, which stay fixed for the resolver's lifetime.
    ///
    /// Construction is the only point at which the index is taken in;
    /// index data whose recorded address ranges are malformed is
    /// rejected with an `InvalidData` error.
    pub fn from_parser(
        parser: Rc<ElfParser>,
        units: UnitIndex,
        line_number_info: bool,
        debug_info_symbols: bool,
    ) -> (r: Result<DwarfResolver, Error>)
        ensures
            index_wf(units) ==> (r matches Ok(d) && d.rows() == units.rows@ && d.chains()
                == units.chains@ && d.funcs() == units.funcs@ && d.has_line_info()
                == line_number_info && d.has_debug_syms() == debug_info_symbols && d.spec_parser()
                == parser),
            !index_wf(units) ==> (r matches Err(e) && e.kind == ErrorKind::InvalidData && e.msg@
                == "malformed address range in debug data"@),
    {
        if !units.is_well_formed() {
            return Err(Error::with_invalid_data("malformed address range in debug data"));
        }
        Ok(
            DwarfResolver {
                units,
                parser,
                line_number_info,
                enable_debug_info_syms: debug_info_symbols,
            },
        )
    }

    /// Find source code information of an address.
    ///
    /// `addr` is a normalized address. When the resolver was built
    /// with line-number resolution disabled, every lookup yields
    /// `Ok(None)`: a disabled feature is not a failure here. A corrupt
    /// entry in the inline chain covering `addr` yields an
    /// `InvalidData` error; it is never swallowed.
    pub fn find_code_info(&self, addr: Addr, inlined_fns: bool) -> (r: Result<
        Option<AddrCodeInfo>,
        Error,
    >)
        ensures
            !self.has_line_info() ==> r matches Ok(None),
            (match code_info_outcome(
                self.rows(),
                self.chains(),
                self.has_line_info(),
                addr,
                inlined_fns,
            ) {
                CodeOutcome::Absent => r matches Ok(None),
                CodeOutcome::Corrupt => r matches Err(e) && e.kind == ErrorKind::InvalidData,
                CodeOutcome::Found(direct, frames) => r matches Ok(Some(c)) && c.direct == direct
                    && c.inlined@ == frames,
            }),
    {
        if !self.line_number_info {
            return Ok(None);
        }
        let direct = match self.units.find_location(addr) {
            Some(l) => l,
            None => {
                return Ok(None);
            },
        };
        if inlined_fns {
            match self.units.find_inlined_functions(addr) {
                Some(entries) => match assemble_code_info(direct, entries) {
                    Ok(c) => Ok(Some(c)),
                    Err(e) => Err(e),
                },
                None => Ok(
                    Some(AddrCodeInfo { direct: frame_from_location(direct), inlined: Vec::new() }),
                ),
            }
        } else {
            proof {
                assert(assembled_frames(frame_of(*direct), Seq::empty()) =~= Seq::<
                    InlineFrame,
                >::empty());
            }
            Ok(Some(AddrCodeInfo { direct: frame_from_location(direct), inlined: Vec::new() }))
        }
    }

    /// Lookup the symbol at an address.
    ///
    /// Fails with `Unsupported` when debug-info-derived symbol lookup
    /// was disabled at construction — a configuration error for this
    /// call, distinct from the `Ok(None)` absence result. A found
    /// function whose deferred decoding fails yields `InvalidData`.
    pub fn find_sym(&self, addr: Addr) -> (r: Result<Option<IntSym>, Error>)
        ensures
            !self.has_debug_syms() ==> (r matches Err(e) && e.kind == ErrorKind::Unsupported
                && e.msg@ == "debug info symbol information has been disabled"@),
            self.has_debug_syms() ==> (match lookup_function(self.funcs(), addr) {
                None => r matches Ok(None),
                Some(f) => if f.corrupt {
                    r matches Err(e) && e.kind == ErrorKind::InvalidData
                } else {
                    r matches Ok(Some(s)) && s.name@ == sym_name_chars(f) && s.addr
                        == f.range.unwrap().begin && s.size == Some(range_size(f.range.unwrap()))
                        && s.lang == src_lang_of(f.lang)
                },
            }),
    {
        if !self.enable_debug_info_syms {
            return Err(Error::with_unsupported("debug info symbol information has been disabled"));
        }
        match self.units.find_function(addr) {
            None => Ok(None),
            Some(f) => {
                if f.corrupt {
                    return Err(Error::with_invalid_data("malformed function entry"));
                }
                proof {
                    use_type_invariant(self);
                }
                let name = match &f.name {
                    Some(n) => n.clone(),
                    None => String::new(),
                };
                match &f.range {
                    Some(rg) => {
                        let len64 = rg.end - rg.begin;
                        let size: usize = if len64 > usize::MAX as u64 {
                            usize::MAX
                        } else {
                            len64 as usize
                        };
                        Ok(
                            Some(
                                IntSym {
                                    name,
                                    addr: rg.begin,
                                    size: Some(size),
                                    lang: SrcLang::from(f.lang),
                                },
                            ),
                        )
                    },
                    None => {
                        // A function found by address containment
                        // always carries a range.
                        proof {
                            assert(false);
                        }
                        Ok(None)
                    },
                }
            },
        }
    }

    /// Find the addresses of every function matching `name` exactly,
    /// across all compilation units: one result per defining unit, in
    /// the index's enumeration order, with no deduplication.
    ///
    /// Fails with `Unsupported` when debug-info-derived symbol lookup
    /// was disabled at construction, or when `opts` requests a
    /// variable lookup — variable lookup is a permanent unimplemented
    /// condition, not a transient failure. A matching entry whose
    /// deferred decoding fails aborts the whole call with
    /// `InvalidData`: no partial result list is returned.
    pub fn find_addr(&self, name: &str, opts: &FindAddrOpts) -> (r: Result<Vec<SymInfo>, Error>)
        ensures
            !self.has_debug_syms() ==> (r matches Err(e) && e.kind == ErrorKind::Unsupported
                && e.msg@ == "debug info symbol information has been disabled"@),
            (self.has_debug_syms() && opts.sym_type == SymType::Variable) ==> (r matches Err(e)
                && e.kind == ErrorKind::Unsupported && e.msg@ == "not implemented"@),
            (self.has_debug_syms() && opts.sym_type != SymType::Variable) ==> {
                if exists|j: int|
                    0 <= j < matches_of(self.funcs(), name@).len() && (#[trigger] matches_of(
                        self.funcs(),
                        name@,
                    )[j]).corrupt {
                    r matches Err(e) && e.kind == ErrorKind::InvalidData
                } else {
                    r matches Ok(v) && v@.len() == matches_of(self.funcs(), name@).len()
                        && forall|j: int|
                        0 <= j < v@.len() ==> (#[trigger] v@[j]) == sym_info_of(
                            matches_of(self.funcs(), name@)[j],
                        )
                }
            },
    {
        if !self.enable_debug_info_syms {
            return Err(Error::with_unsupported("debug info symbol information has been disabled"));
        }
        if let SymType::Variable = opts.sym_type {
            return Err(Error::with_unsupported("not implemented"));
        }
        let ms = self.units.find_name(name);
        proof {
            lemma_matches_of_sound(self.units.funcs@, name@);
        }
        let mut syms: Vec<SymInfo> = Vec::new();
        let mut i: usize = 0;
        while i < ms.len()
            invariant
                self.has_debug_syms(),
                opts.sym_type != SymType::Variable,
                0 <= i <= ms@.len(),
                ms@.len() == matches_of(self.units.funcs@, name@).len(),
                forall|j: int|
                    0 <= j < ms@.len() ==> *(#[trigger] ms@[j]) == matches_of(
                        self.units.funcs@,
                        name@,
                    )[j],
                forall|j: int|
                    0 <= j < matches_of(self.units.funcs@, name@).len() ==> name_matches(
                        #[trigger] matches_of(self.units.funcs@, name@)[j],
                        name@,
                    ),
                forall|j: int|
                    0 <= j < i ==> !(#[trigger] matches_of(self.units.funcs@, name@)[j]).corrupt,
                syms@.len() == i,
                forall|j: int|
                    0 <= j < i ==> (#[trigger] syms@[j]) == sym_info_of(
                        matches_of(self.units.funcs@, name@)[j],
                    ),
            decreases ms@.len() - i,
        {
            let f: &FuncEntry = ms[i];
            if f.corrupt {
                return Err(Error::with_invalid_data("malformed function entry"));
            }
            let sym_name = match &f.name {
                Some(n) => n.clone(),
                None => {
                    // Entries are found by name, so the name
                    // attribute is present.
                    proof {
                        assert(false);
                    }
                    String::new()
                },
            };
            let (sym_addr, sym_size): (u64, usize) = match &f.range {
                Some(rg) => {
                    let len64 = if rg.end >= rg.begin {
                        rg.end - rg.begin
                    } else {
                        0
                    };
                    let size: usize = if len64 > usize::MAX as u64 {
                        usize::MAX
                    } else {
                        len64 as usize
                    };
                    (rg.begin, size)
                },
                None => (0u64, 0usize),
            };
            syms.push(
                SymInfo {
                    name: sym_name,
                    addr: sym_addr,
                    size: sym_size,
                    sym_type: SymType::Function,
                    file_offset: 0,
                    obj_file_name: None,
                },
            );
            i += 1;
        }
        Ok(syms)
    }
}

} // verus!
