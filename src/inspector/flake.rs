//! A flake to inspect, by the path of its directory.
use vstd::prelude::*;
use std::path::PathBuf;

verus! {

#[verifier::external_type_specification]
#[verifier::external_body]
pub struct ExPathBuf(PathBuf);

/// Inspects the flake at one path.
pub struct FlakeInspector {
    flake_path: PathBuf,
}

impl FlakeInspector {
    pub closed spec fn path(&self) -> PathBuf {
        self.flake_path
    }

    /// An inspector for the flake at `flake_path`.
    pub fn new(flake_path: PathBuf) -> (r: FlakeInspector)
        ensures
            r.path() == flake_path,
    {
        FlakeInspector { flake_path }
    }

    /// The path of the flake's directory.
    pub fn flake_path(&self) -> (r: &PathBuf)
        ensures
            *r == self.path(),
    {
        &self.flake_path
    }
}

} // verus!
