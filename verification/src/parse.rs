//! The entry point for reading EPANET `.inp` files. The parser itself is
//! an external collaborator of the solver core: reading the file and
//! decoding its sections happens outside the library, which only records
//! where the file lives.

use vstd::prelude::*;

verus! {

/// A handle on an EPANET `.inp` network description file.
pub struct InpFileParser {
    pub file_path: String,
}

impl InpFileParser {
    pub fn new(file_path: String) -> (r: Self)
        ensures
            r.file_path@ == file_path@,
    {
        InpFileParser { file_path }
    }

    pub fn get_path(&self) -> (r: &str)
        ensures
            r@ == self.file_path@,
    {
        self.file_path.as_str()
    }
}

} // verus!
