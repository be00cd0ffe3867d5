//! A handle to an external glTF validator executable.
//!
//! The library itself runs no process: staging the executable, invoking it
//! and capturing its standard output belong to the caller.  The handle only
//! records where the executable was installed; the caller hands the captured
//! bytes to `decode::decode_report`.

use vstd::prelude::*;

verus! {

/// An instance of a glTF validator: the path of its staged executable.
pub struct GltfValidator {
    /// Path of the staged executable, as a plain string.
    pub installed_path: String,
}

impl GltfValidator {
    /// A new handle for the executable staged at `installed_path`.
    pub fn new(installed_path: String) -> (v: GltfValidator)
        ensures
            v.installed_path@ == installed_path@,
    {
        GltfValidator { installed_path }
    }

    /// The path of the staged executable.
    pub fn path(&self) -> (p: &String)
        ensures
            p@ == self.installed_path@,
    {
        &self.installed_path
    }
}

} // verus!
