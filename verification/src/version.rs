//! The human-readable version banner of the exporter.

use vstd::prelude::*;
use vstd::string::StringExecFns;

verus! {

/// Builds the version banner: the package name, a space, a "v" before
/// the version, then a line break and the build hash after "Build: ".
pub fn get_version_string(name: &str, pkg_version: &str, build_hash: &str) -> (r: String)
    ensures
        r@ == name@ + " v"@ + pkg_version@ + "\nBuild: "@ + build_hash@,
{
    let mut r = String::from_str(name);
    r.append(" v");
    r.append(pkg_version);
    r.append("\nBuild: ");
    r.append(build_hash);
    proof {
        assert(r@ =~= name@ + " v"@ + pkg_version@ + "\nBuild: "@ + build_hash@);
    }
    r
}

} // verus!
