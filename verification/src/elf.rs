use vstd::prelude::*;
use vstd::string::StringExecFns;

verus! {

/// One named section of the binary and the bytes it holds.
#[derive(Debug)]
pub struct Section {
    pub name: String,
    pub data: Vec<u8>,
}

/// The bytes of the first section named `name`, if any.
pub open spec fn lookup_section(sections: Seq<Section>, name: Seq<char>) -> Option<Seq<u8>>
    decreases sections.len(),
{
    if sections.len() == 0 {
        None
    } else if sections[0].name@ == name {
        Some(sections[0].data@)
    } else {
        lookup_section(sections.drop_first(), name)
    }
}

/// An already-opened byte source over a binary: it owns the bytes of
/// the binary's named sections and hands them out by name. It is held
/// behind shared ownership so the bytes outlive every index built
/// over them.
#[derive(Debug)]
pub struct ElfParser {
    pub sections: Vec<Section>,
}

impl ElfParser {
    /// A byte source over the given sections.
    pub fn new(sections: Vec<Section>) -> (r: ElfParser)
        ensures
            r.sections == sections,
    {
        ElfParser { sections }
    }

    /// Look up the bytes of the section named `name`. Absence of a
    /// section is not an error at this layer.
    pub fn section_data(&self, name: &str) -> (r: Option<&Vec<u8>>)
        ensures
            (match r {
                Some(d) => lookup_section(self.sections@, name@) == Some(d@),
                None => lookup_section(self.sections@, name@) is None,
            }),
    {
        let sought = String::from_str(name);
        let mut i: usize = 0;
        proof {
            assert(self.sections@.skip(0) =~= self.sections@);
        }
        while i < self.sections.len()
            invariant
                0 <= i <= self.sections@.len(),
                sought@ == name@,
                lookup_section(self.sections@, name@) == lookup_section(
                    self.sections@.skip(i as int),
                    name@,
                ),
            decreases self.sections@.len() - i,
        {
            if self.sections[i].name.eq(&sought) {
                return Some(&self.sections[i].data);
            }
            proof {
                assert(self.sections@.skip(i as int).drop_first() =~= self.sections@.skip(
                    i as int + 1,
                ));
            }
            i += 1;
        }
        None
    }
}

} // verus!
