//! Package building support: the fixed directory layout one package
//! build session works in.

use vstd::prelude::*;

verus! {

/// The directory layout of one package build root: the top directory
/// and the subdirectories a build reads sources and specs from and
/// leaves source and binary packages in.
pub struct PackageBuildRoot {
    pub path: String,
    pub sources: String,
    pub specs: String,
    pub srpms: String,
    pub rpms: String,
}

/// Builds packages inside one fixed build root, owned for the whole
/// build session.
pub struct RpmBuilder {
    pub build_root: PackageBuildRoot,
}

impl RpmBuilder {
    pub fn new(build_root: PackageBuildRoot) -> (r: RpmBuilder)
        ensures
            r.build_root == build_root,
    {
        RpmBuilder { build_root }
    }
}

} // verus!
