use vstd::prelude::*;

verus! {

/// A source position as recorded by the debug information: directory,
/// file name, 1-based line number, and an optional column. Produced
/// fresh per query; never cached beyond the call.
#[derive(Debug)]
pub struct Location {
    pub dir: String,
    pub file: String,
    pub line: Option<u32>,
    pub column: Option<u64>,
}

impl Clone for Location {
    fn clone(&self) -> (r: Location)
        ensures
            r == *self,
    {
        Location {
            dir: self.dir.clone(),
            file: self.file.clone(),
            line: self.line,
            column: self.column,
        }
    }
}

} // verus!
