//! Finding the workspace root among the directories above the current one.
use vstd::prelude::*;
use crate::error::Error;

verus! {

/// What was found out about one directory.
#[derive(Debug, PartialEq, Eq)]
pub struct Candidate {
    /// The directory.
    pub path: String,
    /// Whether it holds a directory `.aocf`.
    pub has_marker: bool,
    /// Whether that directory holds a file `config`.
    pub has_config: bool,
}

impl Clone for Candidate {
    fn clone(&self) -> (copy: Candidate)
        ensures
            copy.path@ == self.path@,
            copy.has_marker == self.has_marker,
            copy.has_config == self.has_config,
    {
        Candidate {
            path: self.path.clone(),
            has_marker: self.has_marker,
            has_config: self.has_config,
        }
    }
}

impl Candidate {
    /// Whether the directory is a workspace root: it holds the marker
    /// directory, and the configuration in it.
    pub open spec fn is_root(self) -> bool {
        self.has_marker && self.has_config
    }
}

/// Whether `root` is what the search among `dirs` gives: the path of the
/// first directory that is a workspace root, or `NoConfigFound` if none is.
pub open spec fn nearest_root(dirs: Seq<Candidate>, root: Result<String, Error>) -> bool {
    match root {
        Ok(path) => exists|i: int|
            {
                &&& 0 <= i < dirs.len()
                &&& (#[trigger] dirs[i]).is_root()
                &&& path@ == dirs[i].path@
                &&& forall|j: int| 0 <= j < i ==> !(#[trigger] dirs[j]).is_root()
            },
        Err(e) => e == Error::NoConfigFound && forall|j: int|
            0 <= j < dirs.len() ==> !(#[trigger] dirs[j]).is_root(),
    }
}

/// Finds the workspace root. `ancestors` holds the current directory and the
/// directories above it, nearest first, each with what was found in it.
pub fn find_root(ancestors: &Vec<Candidate>) -> (root: Result<String, Error>)
    ensures
        nearest_root(ancestors@, root),
{
    let mut i: usize = 0;
    while i < ancestors.len()
        invariant
            i <= ancestors.len(),
            forall|j: int| 0 <= j < i ==> !(#[trigger] ancestors@[j]).is_root(),
        decreases ancestors.len() - i,
    {
        if ancestors[i].has_marker && ancestors[i].has_config {
            let path = ancestors[i].path.clone();
            return Ok(path);
        }
        i += 1;
    }
    Err(Error::NoConfigFound)
}

} // verus!
