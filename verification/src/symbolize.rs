use vstd::prelude::*;

use crate::error::{Error, ErrorKind};
use crate::location::Location;
use crate::units::InlineEntry;

verus! {

/// Source code location of one frame, as presented to callers. The
/// column is clamped to the largest 16-bit value when the debug
/// format recorded a larger one.
#[derive(Debug)]
pub struct FrameCodeInfo {
    pub dir: String,
    pub file: String,
    pub line: Option<u32>,
    pub column: Option<u16>,
}

impl Clone for FrameCodeInfo {
    fn clone(&self) -> (r: FrameCodeInfo)
        ensures
            r == *self,
    {
        FrameCodeInfo {
            dir: self.dir.clone(),
            file: self.file.clone(),
            line: self.line,
            column: self.column,
        }
    }
}

/// One inlined function covering an address: its name, if recorded,
/// and the position at which control rests *within* it — not the
/// position at which it was inlined.
#[derive(Debug)]
pub struct InlineFrame {
    pub name: Option<String>,
    pub code_info: Option<FrameCodeInfo>,
}

/// Code information resolved for one address: the position attributed
/// to the outermost real frame, plus the ordered inline chain,
/// outermost first. The chain's length always equals the number of
/// inline entries the index reported for the address.
#[derive(Debug)]
pub struct AddrCodeInfo {
    pub direct: FrameCodeInfo,
    pub inlined: Vec<InlineFrame>,
}

/// A recorded column, clamped to the largest 16-bit value.
pub open spec fn clamped_column(column: Option<u64>) -> Option<u16> {
    match column {
        Some(c) => if c > u16::MAX as u64 {
            Some(u16::MAX)
        } else {
            Some(c as u16)
        },
        None => None,
    }
}

/// The caller-facing frame location a raw source position yields.
pub open spec fn frame_of(l: Location) -> FrameCodeInfo {
    FrameCodeInfo { dir: l.dir, file: l.file, line: l.line, column: clamped_column(l.column) }
}

/// Columns above the largest 16-bit value are reported as exactly
/// that maximum — never wrapped or truncated modulo; smaller columns
/// and absent columns are passed through unchanged.
pub proof fn lemma_column_clamped(l: Location)
    ensures
        l.column matches Some(c) ==> frame_of(l).column == Some(
            if c > u16::MAX as u64 {
                u16::MAX
            } else {
                c as u16
            },
        ),
        l.column is None ==> frame_of(l).column is None,
{
}

/// Convert a raw source position into a caller-facing frame location.
pub fn frame_from_location(l: &Location) -> (r: FrameCodeInfo)
    ensures
        r == frame_of(*l),
{
    let column: Option<u16> = match l.column {
        Some(c) => if c > 0xffff {
            Some(u16::MAX)
        } else {
            Some(c as u16)
        },
        None => None,
    };
    FrameCodeInfo { dir: l.dir.clone(), file: l.file.clone(), line: l.line, column }
}

/// Whether some entry of a raw inline chain failed its deferred
/// decoding.
pub open spec fn chain_has_corrupt(entries: Seq<InlineEntry>) -> bool {
    exists|i: int| 0 <= i < entries.len() && (#[trigger] entries[i]).corrupt
}

/// The location attributed to the outermost real frame once the chain
/// is assembled: the first entry's call-site position — that is where
/// the outermost real function invoked the first level of inlining —
/// or the instruction-level position `direct0` when the chain is
/// empty or the first entry recorded no call-site position.
pub open spec fn assembled_direct(direct0: FrameCodeInfo, entries: Seq<InlineEntry>) -> FrameCodeInfo {
    if entries.len() == 0 {
        direct0
    } else {
        match entries[0].loc {
            Some(l1) => frame_of(l1),
            None => direct0,
        }
    }
}

/// The location attributed to assembled frame `i` (0-based): the next
/// entry's call-site position, shifted down by one level; the last
/// frame takes the instruction-level position `direct0`, which it is
/// the frame that actually contains — provided the first entry
/// recorded a call-site position to swap it against.
pub open spec fn assembled_frame_loc(
    direct0: FrameCodeInfo,
    entries: Seq<InlineEntry>,
    i: int,
) -> Option<FrameCodeInfo>
    recommends
        0 <= i < entries.len(),
{
    if i + 1 < entries.len() {
        match entries[i + 1].loc {
            Some(l) => Some(frame_of(l)),
            None => None,
        }
    } else {
        match entries[0].loc {
            Some(_) => Some(direct0),
            None => None,
        }
    }
}

/// The assembled inline chain: entry `i`'s name, paired with the
/// location control rests at within that frame.
pub open spec fn assembled_frames(direct0: FrameCodeInfo, entries: Seq<InlineEntry>) -> Seq<
    InlineFrame,
> {
    Seq::new(
        entries.len(),
        |i: int|
            InlineFrame {
                name: entries[i].name,
                code_info: assembled_frame_loc(direct0, entries, i),
            },
    )
}

/// The inline-chain shift invariant: for a chain of n entries all
/// bearing own call-site locations L1..Ln over an instruction-level
/// location L0, the assembled direct slot holds L1 (or L0 when n = 0),
/// frame i holds L(i+1) for i < n, the last frame holds L0, and every
/// frame keeps its entry's name.
pub proof fn lemma_inline_chain_shift(direct0: FrameCodeInfo, entries: Seq<InlineEntry>)
    requires
        forall|i: int| 0 <= i < entries.len() ==> (#[trigger] entries[i]).loc is Some,
    ensures
        assembled_frames(direct0, entries).len() == entries.len(),
        entries.len() == 0 ==> assembled_direct(direct0, entries) == direct0,
        entries.len() > 0 ==> assembled_direct(direct0, entries) == frame_of(
            entries[0].loc.unwrap(),
        ),
        forall|i: int|
            0 <= i < entries.len() - 1 ==> (#[trigger] assembled_frames(direct0, entries)[i]).code_info
                == Some(frame_of(entries[i + 1].loc.unwrap())),
        entries.len() > 0 ==> assembled_frames(direct0, entries)[entries.len() - 1].code_info
            == Some(direct0),
        forall|i: int|
            0 <= i < entries.len() ==> (#[trigger] assembled_frames(direct0, entries)[i]).name
                == entries[i].name,
{
}

fn clone_opt_name(n: &Option<String>) -> (r: Option<String>)
    ensures
        r == *n,
{
    match n {
        Some(s) => Some(s.clone()),
        None => None,
    }
}

/// Assemble the caller-facing code information for one address from
/// the index's instruction-level position and its raw inline chain.
///
/// The debug format records each entry's own location as a call-site
/// position — where the entry was inlined *in its caller* — while
/// callers expect each frame's location to mean "where control rests
/// within this frame". The assembly therefore shifts every recorded
/// location down by one level of inlining and attributes the
/// instruction-level position to the innermost frame.
pub fn assemble_code_info(direct: &Location, entries: &Vec<InlineEntry>) -> (r: Result<
    AddrCodeInfo,
    Error,
>)
    ensures
        chain_has_corrupt(entries@) ==> (r matches Err(e) && e.kind == ErrorKind::InvalidData),
        !chain_has_corrupt(entries@) ==> (r matches Ok(c) && c.direct == assembled_direct(
            frame_of(*direct),
            entries@,
        ) && c.inlined@ == assembled_frames(frame_of(*direct), entries@)),
{
    let f0 = frame_from_location(direct);
    let n = entries.len();
    let mut inlined: Vec<InlineFrame> = Vec::new();
    let mut i: usize = 0;
    while i < n
        invariant
            0 <= i <= n,
            n == entries@.len(),
            f0 == frame_of(*direct),
            forall|j: int| 0 <= j < i ==> !(#[trigger] entries@[j]).corrupt,
            inlined@.len() == i,
            forall|j: int|
                0 <= j < i ==> (#[trigger] inlined@[j]) == assembled_frames(
                    frame_of(*direct),
                    entries@,
                )[j],
        decreases n - i,
    {
        if entries[i].corrupt {
            proof {
                assert(chain_has_corrupt(entries@));
            }
            return Err(Error::with_invalid_data("malformed inline chain entry"));
        }
        let name = clone_opt_name(&entries[i].name);
        let code_info: Option<FrameCodeInfo> = if i + 1 < n {
            match &entries[i + 1].loc {
                Some(l) => Some(frame_from_location(l)),
                None => None,
            }
        } else {
            match &entries[0].loc {
                Some(_) => Some(f0.clone()),
                None => None,
            }
        };
        inlined.push(InlineFrame { name, code_info });
        i += 1;
    }
    let direct_out = if n > 0 {
        match &entries[0].loc {
            Some(l) => frame_from_location(l),
            None => frame_from_location(direct),
        }
    } else {
        frame_from_location(direct)
    };
    proof {
        assert(!chain_has_corrupt(entries@));
        assert(inlined@ =~= assembled_frames(frame_of(*direct), entries@));
    }
    Ok(AddrCodeInfo { direct: direct_out, inlined })
}

} // verus!
