//! Finding an executable on the `PATH`.
//!
//! A [`FoundBinary`] can only come out of a lookup: it records the name that was looked
//! up together with the path that was found for it.
use vstd::prelude::*;
use std::path::PathBuf;

verus! {

/// `std::path::PathBuf`, carried through unopened.
#[verifier::external_type_specification]
#[verifier::external_body]
pub struct ExPathBuf(std::path::PathBuf);

/// `PathBuf::clone`: the copy is the same path.
pub assume_specification[ <std::path::PathBuf as Clone>::clone ](p: &PathBuf) -> (r: PathBuf)
    ensures
        r == *p,
;

/// `which::Error`, the failure of a lookup; only whether there was one is read.
#[verifier::external_type_specification]
#[verifier::external_body]
pub struct ExWhichError(which::Error);

/// An executable that a lookup found: the name that was looked up, and its path.
pub struct FoundBinary {
    program: String,
    path: PathBuf,
}

impl FoundBinary {
    /// The name that was looked up.
    pub closed spec fn program_of(self) -> String {
        self.program
    }

    /// The path that the lookup found.
    pub closed spec fn path_of(self) -> PathBuf {
        self.path
    }

    /// The name that was looked up.
    pub fn program(&self) -> (p: &String)
        ensures
            *p == self.program_of(),
    {
        &self.program
    }

    /// The path that the lookup found.
    pub fn path(&self) -> (p: &PathBuf)
        ensures
            *p == self.path_of(),
    {
        &self.path
    }
}

/// `which::which`: the path of the first executable named `name` on the `PATH`, recorded
/// with the name that was looked up. Whether anything is found, and where, depends on the
/// environment and the file system, so nothing more is stated.
#[verifier::external_body]
pub(crate) fn which_binary(name: &str) -> (r: Result<FoundBinary, which::Error>)
    ensures
        r matches Ok(f) ==> f.program_of()@ == name@,
{
    match which::which(name) {
        Ok(path) => Ok(FoundBinary { program: name.to_string(), path }),
        Err(e) => Err(e),
    }
}

} // verus!
