//! Paths as they are written in a configuration file.
use vstd::prelude::*;
use crate::utils::path::{expand_tilde, tilde_leads};

verus! {

/// The path that a setting names: none for an empty setting, else the
/// setting with a leading tilde expanded to the user's home directory.
pub fn pathbuf_option(value: &str) -> (path: Option<String>)
    ensures
        value@.len() == 0 <==> path is None,
        path matches Some(p) ==> {
            &&& !tilde_leads(value@) ==> p@ == value@
            &&& p@ == value@ || value@.skip(1).is_suffix_of(p@)
        },
{
    if value.is_empty() {
        None
    } else {
        Some(expand_tilde(value))
    }
}

/// The path that a setting names, with a leading tilde expanded to the
/// user's home directory.
pub fn pathbuf(value: &str) -> (path: String)
    ensures
        !tilde_leads(value@) ==> path@ == value@,
        path@ == value@ || value@.skip(1).is_suffix_of(path@),
{
    expand_tilde(value)
}

} // verus!
