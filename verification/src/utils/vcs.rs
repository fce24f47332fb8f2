//! The full names of git references.
use vstd::prelude::*;
use vstd::string::StringExecFns;

verus! {

/// The reference of the branch `name`: `refs/heads/` and the name.
pub fn git_ref_branch(name: &str) -> (reference: String)
    ensures
        reference@ == "refs/heads/"@ + name@,
{
    let mut reference = String::from_str("refs/heads/");
    reference.append(name);
    reference
}

/// The reference of the tag `name`: `refs/tags/` and the name.
pub fn git_ref_tag(name: &str) -> (reference: String)
    ensures
        reference@ == "refs/tags/"@ + name@,
{
    let mut reference = String::from_str("refs/tags/");
    reference.append(name);
    reference
}

/// The references of a branch and of a tag, in this order.
pub fn git_refs(branch: &str, tag: &str) -> (references: Vec<String>)
    ensures
        references@.len() == 2,
        references@[0]@ == "refs/heads/"@ + branch@,
        references@[1]@ == "refs/tags/"@ + tag@,
{
    let mut references: Vec<String> = Vec::new();
    references.push(git_ref_branch(branch));
    references.push(git_ref_tag(tag));
    references
}

} // verus!
