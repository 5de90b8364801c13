//! The kinds of source-archive arguments the batch runner accepts: a zip
//! archive downloaded from the course system, or an already extracted folder.

use vstd::prelude::*;

verus! {

pub enum FilePath {
    Zip(String),
    Folder(String),
}

impl FilePath {
    /// The wrapped path, whichever kind the argument was.
    pub open spec fn path_spec(&self) -> Seq<char> {
        match self {
            FilePath::Zip(s) => s@,
            FilePath::Folder(s) => s@,
        }
    }

    pub fn get_path(&self) -> (r: String)
        ensures
            r@ == self.path_spec(),
    {
        match self {
            FilePath::Zip(s) => s.clone(),
            FilePath::Folder(s) => s.clone(),
        }
    }
}

} // verus!
