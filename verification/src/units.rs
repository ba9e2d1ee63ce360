use vstd::prelude::*;
use vstd::string::StringExecFns;

use crate::location::Location;

verus! {

use crate::Addr;

/// A half-open address range `[begin, end)`.
#[derive(Debug, Clone, Copy, PartialEq, Eq, Structural)]
pub struct AddrRange {
    pub begin: u64,
    pub end: u64,
}

/// A range is well formed when it does not end before it begins.
pub open spec fn range_wf(rg: AddrRange) -> bool {
    rg.begin <= rg.end
}

pub open spec fn range_contains(rg: AddrRange, addr: Addr) -> bool {
    rg.begin <= addr && addr < rg.end
}

/// One row of the line table: the addresses of `range` map to the
/// source position `loc`.
#[derive(Debug)]
pub struct LineRow {
    pub range: AddrRange,
    pub loc: Location,
}

/// One entry of an inline chain, as the debug format records it: the
/// inlined function's name, if any, and its call-site position — the
/// position *in its caller* at which it was inlined. An entry whose
/// deferred decoding fails is marked `corrupt` and surfaces as an
/// error when a query reaches it.
#[derive(Debug)]
pub struct InlineEntry {
    pub name: Option<String>,
    pub loc: Option<Location>,
    pub corrupt: bool,
}

/// The ordered chain of inline entries covering an address range,
/// outermost entry first.
#[derive(Debug)]
pub struct InlineChain {
    pub range: AddrRange,
    pub entries: Vec<InlineEntry>,
}

/// One function as recorded in a compilation unit: its name and
/// address range, if recorded, and the unit's language attribute.
/// An entry whose deferred decoding fails is marked `corrupt`.
#[derive(Debug)]
pub struct FuncEntry {
    pub name: Option<String>,
    pub range: Option<AddrRange>,
    pub lang: Option<gimli::DwLang>,
    pub corrupt: bool,
}

/// The per-compilation-unit index over a binary's debug sections,
/// reduced to the four queries the resolver consumes: position at an
/// address, inline chain at an address, function at an address, and
/// functions by name.
#[derive(Debug)]
pub struct UnitIndex {
    pub rows: Vec<LineRow>,
    pub chains: Vec<InlineChain>,
    pub funcs: Vec<FuncEntry>,
}

/// Every recorded address range of the index is well formed.
pub open spec fn index_wf(u: UnitIndex) -> bool {
    &&& forall|i: int| 0 <= i < u.rows@.len() ==> range_wf(#[trigger] u.rows@[i].range)
    &&& forall|i: int| 0 <= i < u.chains@.len() ==> range_wf(#[trigger] u.chains@[i].range)
    &&& forall|i: int|
        0 <= i < u.funcs@.len() ==> (match #[trigger] u.funcs@[i].range {
            Some(rg) => range_wf(rg),
            None => true,
        })
}

/// The position the line table assigns to `addr`: the position of the
/// first row whose range contains `addr`.
pub open spec fn lookup_location(rows: Seq<LineRow>, addr: Addr) -> Option<Location>
    decreases rows.len(),
{
    if rows.len() == 0 {
        None
    } else if range_contains(rows[0].range, addr) {
        Some(rows[0].loc)
    } else {
        lookup_location(rows.drop_first(), addr)
    }
}

/// The inline chain covering `addr`: the entries of the first chain
/// whose range contains `addr`.
pub open spec fn lookup_chain(chains: Seq<InlineChain>, addr: Addr) -> Option<Seq<InlineEntry>>
    decreases chains.len(),
{
    if chains.len() == 0 {
        None
    } else if range_contains(chains[0].range, addr) {
        Some(chains[0].entries@)
    } else {
        lookup_chain(chains.drop_first(), addr)
    }
}

/// Whether `f` has a recorded range that contains `addr`.
pub open spec fn func_contains(f: FuncEntry, addr: Addr) -> bool {
    match f.range {
        Some(rg) => range_contains(rg, addr),
        None => false,
    }
}

/// The first function whose recorded range contains `addr`.
pub open spec fn lookup_function(funcs: Seq<FuncEntry>, addr: Addr) -> Option<FuncEntry>
    decreases funcs.len(),
{
    if funcs.len() == 0 {
        None
    } else if func_contains(funcs[0], addr) {
        Some(funcs[0])
    } else {
        lookup_function(funcs.drop_first(), addr)
    }
}

/// Whether `f` bears exactly the name `name`.
pub open spec fn name_matches(f: FuncEntry, name: Seq<char>) -> bool {
    match f.name {
        Some(n) => n@ == name,
        None => false,
    }
}

/// Every function bearing `name`, in the index's enumeration order,
/// one entry per defining compilation unit: no deduplication.
pub open spec fn matches_of(funcs: Seq<FuncEntry>, name: Seq<char>) -> Seq<FuncEntry>
    decreases funcs.len(),
{
    if funcs.len() == 0 {
        Seq::empty()
    } else {
        let prefix = matches_of(funcs.drop_last(), name);
        if name_matches(funcs.last(), name) {
            prefix.push(funcs.last())
        } else {
            prefix
        }
    }
}

/// `matches_of` is exactly the subsequence of entries bearing `name`:
/// a name defined in k compilation units yields exactly the k entries
/// recording it, in order.
pub proof fn lemma_matches_of_is_filter(funcs: Seq<FuncEntry>, name: Seq<char>)
    ensures
        matches_of(funcs, name) == funcs.filter(|f: FuncEntry| name_matches(f, name)),
    decreases funcs.len(),
{
    reveal(Seq::filter);
    if funcs.len() > 0 {
        lemma_matches_of_is_filter(funcs.drop_last(), name);
    }
}

/// Every entry of `matches_of` bears the requested name.
pub proof fn lemma_matches_of_sound(funcs: Seq<FuncEntry>, name: Seq<char>)
    ensures
        forall|j: int|
            0 <= j < matches_of(funcs, name).len() ==> name_matches(
                #[trigger] matches_of(funcs, name)[j],
                name,
            ),
    decreases funcs.len(),
{
    if funcs.len() > 0 {
        lemma_matches_of_sound(funcs.drop_last(), name);
        let prefix = matches_of(funcs.drop_last(), name);
        assert forall|j: int|
            0 <= j < matches_of(funcs, name).len() implies name_matches(
            matches_of(funcs, name)[j],
            name,
        ) by {
            if name_matches(funcs.last(), name) {
                if j < prefix.len() {
                    assert(matches_of(funcs, name)[j] == prefix[j]);
                } else {
                    assert(matches_of(funcs, name)[j] == funcs.last());
                }
            } else {
                assert(matches_of(funcs, name)[j] == prefix[j]);
            }
        };
    }
}

impl UnitIndex {
    /// Whether every recorded address range of this index is well
    /// formed.
    pub fn is_well_formed(&self) -> (r: bool)
        ensures
            r == index_wf(*self),
    {
        let mut i: usize = 0;
        while i < self.rows.len()
            invariant
                0 <= i <= self.rows@.len(),
                forall|j: int| 0 <= j < i ==> range_wf(#[trigger] self.rows@[j].range),
            decreases self.rows@.len() - i,
        {
            if self.rows[i].range.end < self.rows[i].range.begin {
                return false;
            }
            i += 1;
        }
        let mut i: usize = 0;
        while i < self.chains.len()
            invariant
                0 <= i <= self.chains@.len(),
                forall|j: int| 0 <= j < i ==> range_wf(#[trigger] self.chains@[j].range),
                forall|j: int| 0 <= j < self.rows@.len() ==> range_wf(#[trigger] self.rows@[j].range),
            decreases self.chains@.len() - i,
        {
            if self.chains[i].range.end < self.chains[i].range.begin {
                return false;
            }
            i += 1;
        }
        let mut i: usize = 0;
        while i < self.funcs.len()
            invariant
                0 <= i <= self.funcs@.len(),
                forall|j: int|
                    0 <= j < i ==> (match #[trigger] self.funcs@[j].range {
                        Some(rg) => range_wf(rg),
                        None => true,
                    }),
                forall|j: int| 0 <= j < self.rows@.len() ==> range_wf(#[trigger] self.rows@[j].range),
                forall|j: int|
                    0 <= j < self.chains@.len() ==> range_wf(#[trigger] self.chains@[j].range),
            decreases self.funcs@.len() - i,
        {
            match &self.funcs[i].range {
                Some(rg) => {
                    if rg.end < rg.begin {
                        return false;
                    }
                },
                None => {},
            }
            i += 1;
        }
        true
    }

    /// Locate the source position recorded for `addr`, if any.
    pub fn find_location(&self, addr: Addr) -> (r: Option<&Location>)
        ensures
            (match r {
                Some(l) => lookup_location(self.rows@, addr) == Some(*l),
                None => lookup_location(self.rows@, addr) is None,
            }),
    {
        let mut i: usize = 0;
        proof {
            assert(self.rows@.skip(0) =~= self.rows@);
        }
        while i < self.rows.len()
            invariant
                0 <= i <= self.rows@.len(),
                lookup_location(self.rows@, addr) == lookup_location(
                    self.rows@.skip(i as int),
                    addr,
                ),
            decreases self.rows@.len() - i,
        {
            let rg = self.rows[i].range;
            if rg.begin <= addr && addr < rg.end {
                return Some(&self.rows[i].loc);
            }
            proof {
                assert(self.rows@.skip(i as int).drop_first() =~= self.rows@.skip(i as int + 1));
            }
            i += 1;
        }
        None
    }

    /// Locate the ordered inline chain covering `addr`, if any.
    pub fn find_inlined_functions(&self, addr: Addr) -> (r: Option<&Vec<InlineEntry>>)
        ensures
            (match r {
                Some(es) => lookup_chain(self.chains@, addr) == Some(es@),
                None => lookup_chain(self.chains@, addr) is None,
            }),
    {
        let mut i: usize = 0;
        proof {
            assert(self.chains@.skip(0) =~= self.chains@);
        }
        while i < self.chains.len()
            invariant
                0 <= i <= self.chains@.len(),
                lookup_chain(self.chains@, addr) == lookup_chain(
                    self.chains@.skip(i as int),
                    addr,
                ),
            decreases self.chains@.len() - i,
        {
            let rg = self.chains[i].range;
            if rg.begin <= addr && addr < rg.end {
                return Some(&self.chains[i].entries);
            }
            proof {
                assert(self.chains@.skip(i as int).drop_first() =~= self.chains@.skip(
                    i as int + 1,
                ));
            }
            i += 1;
        }
        None
    }

    /// Locate the function whose recorded range contains `addr`, if
    /// any.
    pub fn find_function(&self, addr: Addr) -> (r: Option<&FuncEntry>)
        ensures
            (match r {
                Some(f) => lookup_function(self.funcs@, addr) == Some(*f) && func_contains(
                    *f,
                    addr,
                ) && exists|k: int| 0 <= k < self.funcs@.len() && self.funcs@[k] == *f,
                None => lookup_function(self.funcs@, addr) is None,
            }),
    {
        let mut i: usize = 0;
        proof {
            assert(self.funcs@.skip(0) =~= self.funcs@);
        }
        while i < self.funcs.len()
            invariant
                0 <= i <= self.funcs@.len(),
                lookup_function(self.funcs@, addr) == lookup_function(
                    self.funcs@.skip(i as int),
                    addr,
                ),
            decreases self.funcs@.len() - i,
        {
            let found = match &self.funcs[i].range {
                Some(rg) => rg.begin <= addr && addr < rg.end,
                None => false,
            };
            if found {
                proof {
                    assert(self.funcs@[i as int] == self.funcs@.skip(i as int)[0]);
                }
                return Some(&self.funcs[i]);
            }
            proof {
                assert(self.funcs@.skip(i as int).drop_first() =~= self.funcs@.skip(i as int + 1));
            }
            i += 1;
        }
        None
    }

    /// Locate every function bearing exactly `name`, across all
    /// compilation units, in enumeration order.
    pub fn find_name(&self, name: &str) -> (r: Vec<&FuncEntry>)
        ensures
            r@.len() == matches_of(self.funcs@, name@).len(),
            forall|j: int|
                0 <= j < r@.len() ==> *(#[trigger] r@[j]) == matches_of(self.funcs@, name@)[j],
    {
        let sought = String::from_str(name);
        let mut r: Vec<&FuncEntry> = Vec::new();
        let mut i: usize = 0;
        proof {
            assert(self.funcs@.take(0) =~= Seq::<FuncEntry>::empty());
        }
        while i < self.funcs.len()
            invariant
                0 <= i <= self.funcs@.len(),
                sought@ == name@,
                r@.len() == matches_of(self.funcs@.take(i as int), name@).len(),
                forall|j: int|
                    0 <= j < r@.len() ==> *(#[trigger] r@[j]) == matches_of(
                        self.funcs@.take(i as int),
                        name@,
                    )[j],
            decreases self.funcs@.len() - i,
        {
            proof {
                assert(self.funcs@.take(i as int + 1).drop_last() =~= self.funcs@.take(i as int));
                assert(self.funcs@.take(i as int + 1).last() == self.funcs@[i as int]);
            }
            let matched = match &self.funcs[i].name {
                Some(n) => n.eq(&sought),
                None => false,
            };
            if matched {
                r.push(&self.funcs[i]);
            }
            i += 1;
        }
        proof {
            assert(self.funcs@.take(self.funcs@.len() as int) =~= self.funcs@);
        }
        r
    }
}

} // verus!
