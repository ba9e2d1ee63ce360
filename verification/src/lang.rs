use vstd::prelude::*;

verus! {

/// Source language of a resolved function, mapped from the debug
/// format's language attribute. Any unrecognized or absent attribute
/// maps to `Unknown`; the mapping has no failure mode.
#[derive(Debug, Clone, Copy, PartialEq, Eq, Structural)]
pub enum SrcLang {
    Rust,
    Cpp,
    Unknown,
}

/// Declares gimli's `DwLang` (a DWARF language code). Relied on only
/// for its shape: a wrapper around one public `u16` field holding the
/// raw code, which the declaration leaves visible to specifications.
#[verifier::external_type_specification]
pub struct ExDwLang(gimli::DwLang);

/// The DWARF language codes this mapping recognizes, as assigned by
/// the DWARF standard.
pub const LANG_CODE_RUST: u16 = 0x001c;

pub const LANG_CODE_C_PLUS_PLUS: u16 = 0x0004;

pub const LANG_CODE_C_PLUS_PLUS_03: u16 = 0x0019;

pub const LANG_CODE_C_PLUS_PLUS_11: u16 = 0x001a;

pub const LANG_CODE_C_PLUS_PLUS_14: u16 = 0x0021;

/// The source language that a recorded language attribute denotes.
pub open spec fn src_lang_of(lang: Option<gimli::DwLang>) -> SrcLang {
    match lang {
        Some(l) => {
            if l.0 == LANG_CODE_RUST {
                SrcLang::Rust
            } else if l.0 == LANG_CODE_C_PLUS_PLUS || l.0 == LANG_CODE_C_PLUS_PLUS_03
                || l.0 == LANG_CODE_C_PLUS_PLUS_11 || l.0 == LANG_CODE_C_PLUS_PLUS_14 {
                SrcLang::Cpp
            } else {
                SrcLang::Unknown
            }
        },
        None => SrcLang::Unknown,
    }
}

impl From<Option<gimli::DwLang>> for SrcLang {
    fn from(other: Option<gimli::DwLang>) -> (r: SrcLang)
        ensures
            r == src_lang_of(other),
    {
        match other {
            Some(l) => {
                if l.0 == LANG_CODE_RUST {
                    SrcLang::Rust
                } else if l.0 == LANG_CODE_C_PLUS_PLUS || l.0 == LANG_CODE_C_PLUS_PLUS_03
                    || l.0 == LANG_CODE_C_PLUS_PLUS_11 || l.0 == LANG_CODE_C_PLUS_PLUS_14 {
                    SrcLang::Cpp
                } else {
                    SrcLang::Unknown
                }
            },
            None => SrcLang::Unknown,
        }
    }
}

impl vstd::std_specs::convert::FromSpecImpl<Option<gimli::DwLang>> for SrcLang {
    open spec fn obeys_from_spec() -> bool {
        true
    }

    open spec fn from_spec(t: Option<gimli::DwLang>) -> SrcLang {
        src_lang_of(t)
    }
}

} // verus!
