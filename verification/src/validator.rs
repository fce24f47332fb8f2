//! Checks on what the user types.
use vstd::prelude::*;
use vstd::string::StringExecFns;

verus! {

/// Whether `semver::Version::parse` accepts `text` as a semantic version:
/// three numbers with dots between, then an optional pre-release and
/// optional build metadata.
pub uninterp spec fn is_semver(text: Seq<char>) -> bool;

/// `semver::Version::parse`: whether the text reads as a version. The
/// empty text does not.
#[verifier::external_body]
fn parses_as_version(val: &str) -> (accepted: bool)
    ensures
        accepted == is_semver(val@),
        val@.len() == 0 ==> !accepted,
{
    semver::Version::parse(val).is_ok()
}

/// What was typed is no semantic version.
#[derive(Debug, PartialEq, Eq, Clone, Copy)]
pub struct InvalidVersion;

impl InvalidVersion {
    pub fn message(&self) -> (text: String)
        ensures
            text@ == "need semantic version number"@,
    {
        String::from_str("need semantic version number")
    }
}

/// Hands a semantic version back as it was typed; anything else is refused.
pub fn validate_semver(val: &str) -> (r: Result<String, InvalidVersion>)
    ensures
        match r {
            Ok(version) => is_semver(val@) && version@ == val@,
            Err(_) => !is_semver(val@),
        },
        val@.len() == 0 ==> r is Err,
{
    if parses_as_version(val) {
        Ok(String::from_str(val))
    } else {
        Err(InvalidVersion)
    }
}

} // verus!
