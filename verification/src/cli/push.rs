//! The pair of ref-specs that one push sends to the remote.

use vstd::prelude::*;
use vstd::string::StringExecFns;

verus! {

/// Arguments of the push subcommand.
pub struct Args {
    /// Name of the tag to push alongside the main branch.
    pub tag: String,
}

/// The tag reference pushed for a named tag.
pub open spec fn tag_ref_of(tag: Seq<char>) -> Seq<char> {
    "refs/tags/"@ + tag
}

/// The two references a push must send together: the fixed main-branch
/// reference and the reference of the named tag. The caller hands both
/// to one push operation, so that either both are accepted or the whole
/// push reports failure.
pub fn push_refspecs(tag: &str) -> (r: (String, String))
    ensures
        r.0@ == "refs/heads/main"@,
        r.1@ == tag_ref_of(tag@),
{
    let branch = String::from_str("refs/heads/main");
    let mut tag_ref = String::from_str("refs/tags/");
    tag_ref.append(tag);
    (branch, tag_ref)
}

} // verus!
