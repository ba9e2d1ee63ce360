use std::rc::Rc;

use dwarf_resolver::elf::ElfParser;
use dwarf_resolver::error::ErrorKind;
use dwarf_resolver::location::Location;
use dwarf_resolver::resolver::DwarfResolver;
use dwarf_resolver::units::{AddrRange, InlineChain, InlineEntry, LineRow, UnitIndex};

fn loc(dir: &str, file: &str, line: Option<u32>, column: Option<u64>) -> Location {
    Location { dir: dir.to_string(), file: file.to_string(), line, column }
}

fn entry(name: Option<&str>, l: Option<Location>) -> InlineEntry {
    InlineEntry { name: name.map(|s| s.to_string()), loc: l, corrupt: false }
}

fn resolver_with(
    rows: Vec<LineRow>,
    chains: Vec<InlineChain>,
    line_info: bool,
) -> DwarfResolver {
    let units = UnitIndex { rows, chains, funcs: Vec::new() };
    DwarfResolver::from_parser(Rc::new(ElfParser::new(Vec::new())), units, line_info, true)
        .unwrap()
}

fn one_row(begin: u64, end: u64, l: Location) -> Vec<LineRow> {
    vec![LineRow { range: AddrRange { begin, end }, loc: l }]
}

/// A binary whose line table maps 0x2000100 to line 8 of
/// test-stable-addresses.c yields exactly that direct position, with
/// a present column.
#[test]
fn source_location_finding() {
    let rows = one_row(
        0x2000100,
        0x2000110,
        loc("/src", "test-stable-addresses.c", Some(8), Some(3)),
    );
    let resolver = resolver_with(rows, Vec::new(), true);

    let info = resolver.find_code_info(0x2000100, false).unwrap().unwrap();
    assert_ne!(info.direct.dir, String::new());
    assert_eq!(info.direct.file, "test-stable-addresses.c");
    assert_eq!(info.direct.line, Some(8));
    assert!(info.direct.column.is_some());
    assert!(info.inlined.is_empty());
}

#[test]
fn unknown_address_resolves_to_none() {
    let rows = one_row(0x1000, 0x1010, loc("d", "f.c", Some(1), None));
    let resolver = resolver_with(rows, Vec::new(), true);
    assert!(resolver.find_code_info(0x2000, false).unwrap().is_none());
    assert!(resolver.find_code_info(0x2000, true).unwrap().is_none());
}

#[test]
fn first_matching_row_wins() {
    let mut rows = one_row(0x1000, 0x1010, loc("d", "first.c", Some(1), None));
    rows.extend(one_row(0x1000, 0x1020, loc("d", "second.c", Some(2), None)));
    let resolver = resolver_with(rows, Vec::new(), true);
    let info = resolver.find_code_info(0x1008, false).unwrap().unwrap();
    assert_eq!(info.direct.file, "first.c");
}

/// Disabling line/source resolution at construction makes every
/// lookup return `None`, including addresses that would otherwise
/// resolve.
#[test]
fn line_info_disabled_resolves_to_none() {
    let rows = one_row(0x1000, 0x1010, loc("d", "f.c", Some(1), Some(2)));
    let resolver = resolver_with(rows, Vec::new(), false);
    assert!(resolver.find_code_info(0x1000, false).unwrap().is_none());
    assert!(resolver.find_code_info(0x1000, true).unwrap().is_none());
    assert!(resolver.find_code_info(0xdead, true).unwrap().is_none());
}

/// If an address resolves without inlined frames, it resolves with
/// them too, and with no inline chain the direct slot is unchanged.
#[test]
fn include_inlined_is_consistent() {
    let rows = one_row(0x1000, 0x1010, loc("d", "f.c", Some(10), Some(4)));
    let resolver = resolver_with(rows, Vec::new(), true);

    let plain = resolver.find_code_info(0x1004, false).unwrap().unwrap();
    let inlined = resolver.find_code_info(0x1004, true).unwrap().unwrap();
    assert_eq!(plain.direct.file, inlined.direct.file);
    assert_eq!(plain.direct.line, inlined.direct.line);
    assert!(inlined.inlined.is_empty());
}

fn chain_resolver(entries: Vec<InlineEntry>) -> DwarfResolver {
    let rows = one_row(0x1000, 0x1010, loc("d", "leaf.c", Some(100), Some(1)));
    let chains = vec![InlineChain { range: AddrRange { begin: 0x1000, end: 0x1010 }, entries }];
    resolver_with(rows, chains, true)
}

/// Shift transform with zero inline entries: the direct slot keeps
/// the instruction-level position.
#[test]
fn shift_transform_zero_entries() {
    let resolver = chain_resolver(Vec::new());
    let info = resolver.find_code_info(0x1000, true).unwrap().unwrap();
    assert_eq!(info.direct.file, "leaf.c");
    assert_eq!(info.direct.line, Some(100));
    assert!(info.inlined.is_empty());
}

/// Shift transform with one entry: the direct slot takes the entry's
/// call-site position L1; the single frame takes the instruction
/// position L0.
#[test]
fn shift_transform_one_entry() {
    let resolver = chain_resolver(vec![entry(
        Some("inner"),
        Some(loc("d", "l1.c", Some(1), None)),
    )]);
    let info = resolver.find_code_info(0x1000, true).unwrap().unwrap();
    assert_eq!(info.direct.file, "l1.c");
    assert_eq!(info.direct.line, Some(1));
    assert_eq!(info.inlined.len(), 1);
    assert_eq!(info.inlined[0].name.as_deref(), Some("inner"));
    let f0 = info.inlined[0].code_info.as_ref().unwrap();
    assert_eq!(f0.file, "leaf.c");
    assert_eq!(f0.line, Some(100));
}

/// Shift transform with two entries: direct = L1, frame 1 = L2,
/// frame 2 = L0.
#[test]
fn shift_transform_two_entries() {
    let resolver = chain_resolver(vec![
        entry(Some("a"), Some(loc("d", "l1.c", Some(1), None))),
        entry(Some("b"), Some(loc("d", "l2.c", Some(2), None))),
    ]);
    let info = resolver.find_code_info(0x1000, true).unwrap().unwrap();
    assert_eq!(info.direct.file, "l1.c");
    assert_eq!(info.inlined.len(), 2);
    assert_eq!(info.inlined[0].name.as_deref(), Some("a"));
    assert_eq!(info.inlined[0].code_info.as_ref().unwrap().file, "l2.c");
    assert_eq!(info.inlined[1].name.as_deref(), Some("b"));
    assert_eq!(info.inlined[1].code_info.as_ref().unwrap().file, "leaf.c");
}

/// Shift transform with three entries: direct = L1, frame 1 = L2,
/// frame 2 = L3, frame 3 = L0.
#[test]
fn shift_transform_three_entries() {
    let resolver = chain_resolver(vec![
        entry(Some("a"), Some(loc("d", "l1.c", Some(1), None))),
        entry(Some("b"), Some(loc("d", "l2.c", Some(2), None))),
        entry(Some("c"), Some(loc("d", "l3.c", Some(3), None))),
    ]);
    let info = resolver.find_code_info(0x1000, true).unwrap().unwrap();
    assert_eq!(info.direct.file, "l1.c");
    assert_eq!(info.direct.line, Some(1));
    assert_eq!(info.inlined.len(), 3);
    assert_eq!(info.inlined[0].code_info.as_ref().unwrap().file, "l2.c");
    assert_eq!(info.inlined[1].code_info.as_ref().unwrap().file, "l3.c");
    let last = info.inlined[2].code_info.as_ref().unwrap();
    assert_eq!(last.file, "leaf.c");
    assert_eq!(last.line, Some(100));
    assert_eq!(info.inlined[2].name.as_deref(), Some("c"));
}

/// An entry without a recorded call-site position: the frames after
/// it still shift, and the direct slot keeps the instruction-level
/// position when the first entry recorded none.
#[test]
fn shift_transform_absent_call_site() {
    let resolver = chain_resolver(vec![entry(Some("a"), None)]);
    let info = resolver.find_code_info(0x1000, true).unwrap().unwrap();
    assert_eq!(info.direct.file, "leaf.c");
    assert_eq!(info.inlined.len(), 1);
    assert!(info.inlined[0].code_info.is_none());
}

/// A nameless inline entry keeps its absent name.
#[test]
fn nameless_inline_entry() {
    let resolver = chain_resolver(vec![entry(None, Some(loc("d", "l1.c", Some(1), None)))]);
    let info = resolver.find_code_info(0x1000, true).unwrap().unwrap();
    assert_eq!(info.inlined.len(), 1);
    assert!(info.inlined[0].name.is_none());
}

/// Columns above the largest 16-bit value are reported as exactly
/// that maximum, never wrapped or truncated modulo.
#[test]
fn column_clamped_to_16_bit_max() {
    let rows = vec![
        LineRow {
            range: AddrRange { begin: 0x1000, end: 0x1001 },
            loc: loc("d", "f.c", Some(1), Some(70000)),
        },
        LineRow {
            range: AddrRange { begin: 0x1001, end: 0x1002 },
            loc: loc("d", "f.c", Some(1), Some(65536)),
        },
        LineRow {
            range: AddrRange { begin: 0x1002, end: 0x1003 },
            loc: loc("d", "f.c", Some(1), Some(65535)),
        },
        LineRow {
            range: AddrRange { begin: 0x1003, end: 0x1004 },
            loc: loc("d", "f.c", Some(1), Some(7)),
        },
        LineRow {
            range: AddrRange { begin: 0x1004, end: 0x1005 },
            loc: loc("d", "f.c", Some(1), Some(u64::MAX)),
        },
    ];
    let resolver = resolver_with(rows, Vec::new(), true);
    let col = |addr: u64| {
        resolver
            .find_code_info(addr, false)
            .unwrap()
            .unwrap()
            .direct
            .column
    };
    assert_eq!(col(0x1000), Some(u16::MAX));
    assert_eq!(col(0x1001), Some(u16::MAX));
    assert_eq!(col(0x1002), Some(65535));
    assert_eq!(col(0x1003), Some(7));
    assert_eq!(col(0x1004), Some(u16::MAX));
}

/// The clamp also applies to call-site positions of inline entries.
#[test]
fn column_clamped_in_inline_frames() {
    let resolver = chain_resolver(vec![
        entry(Some("a"), Some(loc("d", "l1.c", Some(1), Some(1_000_000)))),
        entry(Some("b"), Some(loc("d", "l2.c", Some(2), Some(99_999)))),
    ]);
    let info = resolver.find_code_info(0x1000, true).unwrap().unwrap();
    assert_eq!(info.direct.column, Some(u16::MAX));
    assert_eq!(info.inlined[0].code_info.as_ref().unwrap().column, Some(u16::MAX));
}

/// A corrupt entry in the covering inline chain aborts the call with
/// `InvalidData`; without inlined frames the same address resolves.
#[test]
fn corrupt_inline_entry_propagates() {
    let rows = one_row(0x1000, 0x1010, loc("d", "leaf.c", Some(100), Some(1)));
    let chains = vec![InlineChain {
        range: AddrRange { begin: 0x1000, end: 0x1010 },
        entries: vec![
            entry(Some("a"), Some(loc("d", "l1.c", Some(1), None))),
            InlineEntry { name: None, loc: None, corrupt: true },
        ],
    }];
    let resolver = resolver_with(rows, chains, true);

    let err = resolver.find_code_info(0x1000, true).unwrap_err();
    assert_eq!(err.kind(), ErrorKind::InvalidData);
    assert!(resolver.find_code_info(0x1000, false).unwrap().is_some());
}

/// Malformed address ranges are rejected at construction.
#[test]
fn construction_rejects_reversed_ranges() {
    let rows = one_row(0x1010, 0x1000, loc("d", "f.c", Some(1), None));
    let units = UnitIndex { rows, chains: Vec::new(), funcs: Vec::new() };
    let err = DwarfResolver::from_parser(Rc::new(ElfParser::new(Vec::new())), units, true, true)
        .unwrap_err();
    assert_eq!(err.kind(), ErrorKind::InvalidData);
}
