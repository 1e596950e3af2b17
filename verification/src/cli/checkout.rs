//! Resolving the git reference that a checkout of a named tag targets.

use vstd::prelude::*;
use vstd::string::{StrSliceExecFns, StringExecFns};

use crate::text::str_eq;

verus! {

/// Arguments of the checkout subcommand.
pub struct Args {
    /// Name of the tag to check out.
    pub tag: String,
}

/// The full reference name a tag resolves to: the literal token
/// `latest` names the main branch, every other tag names itself under
/// `refs/tags/`.
pub open spec fn ref_name_of(tag: Seq<char>) -> Seq<char> {
    if tag == "latest"@ {
        "refs/heads/main"@
    } else {
        "refs/tags/"@ + tag
    }
}

/// Resolve a tag name to the git reference the checkout must target.
/// The reference may still be absent from the repository; looking it up,
/// and failing without touching the working tree when it is not found,
/// is the caller's part.
pub fn resolve_ref_name(tag: &str) -> (r: String)
    ensures
        r@ == ref_name_of(tag@),
{
    if str_eq(tag, "latest") {
        String::from_str("refs/heads/main")
    } else {
        let mut out = String::from_str("refs/tags/");
        out.append(tag);
        out
    }
}

} // verus!
