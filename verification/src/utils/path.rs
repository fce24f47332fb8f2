//! Paths, held as text. What std's `Path` computes from them is taken from
//! std and named here; the rules built on it are proved.
use std::path::{Path, PathBuf};
use vstd::prelude::*;
use vstd::string::StringExecFns;
use crate::utils::argc::parser::option_text;

verus! {

/// What `Path::join` of std gives for `base` and `part`, on the platform
/// that the library is compiled for.
pub uninterp spec fn path_join(base: Seq<char>, part: Seq<char>) -> Seq<char>;

/// Whether `Path::is_relative` of std holds of `path`.
pub uninterp spec fn path_is_relative(path: Seq<char>) -> bool;

/// What `Path::file_name` of std gives for `path`: its last component,
/// where it has one that is a name.
pub uninterp spec fn path_file_name(path: Seq<char>) -> Option<Seq<char>>;

/// What `PathBuf::set_file_name` of std makes of `path` with `name`.
pub uninterp spec fn path_with_file_name(path: Seq<char>, name: Seq<char>) -> Seq<char>;

/// What `Path::strip_prefix` of std leaves of `path` without `base`;
/// `None` where `path` does not begin with `base`.
pub uninterp spec fn path_strip_prefix(path: Seq<char>, base: Seq<char>) -> Option<Seq<char>>;

/// `Path::join` of std: the path made of `base` and then `part`. By its
/// documentation an absolute `part` takes the place of `base`.
#[verifier::external_body]
pub(crate) fn join_path(base: &str, part: &str) -> (joined: String)
    ensures
        joined@ == path_join(base@, part@),
        !path_is_relative(part@) ==> joined@ == part@,
{
    Path::new(base).join(part).to_string_lossy().into_owned()
}

/// `Path::is_relative` of std.
#[verifier::external_body]
pub(crate) fn is_relative_path(path: &str) -> (relative: bool)
    ensures
        relative == path_is_relative(path@),
{
    Path::new(path).is_relative()
}

/// `Path::file_name` of std, as text.
#[verifier::external_body]
pub(crate) fn file_name_of(path: &str) -> (name: Option<String>)
    ensures
        option_text(name) == path_file_name(path@),
{
    match Path::new(path).file_name() {
        Some(name) => Some(name.to_string_lossy().into_owned()),
        None => None,
    }
}

/// `PathBuf::set_file_name` of std, on a copy of `path`.
#[verifier::external_body]
pub(crate) fn with_file_name(path: &str, name: &str) -> (changed: String)
    ensures
        changed@ == path_with_file_name(path@, name@),
{
    let mut changed = PathBuf::from(path);
    changed.set_file_name(name);
    changed.to_string_lossy().into_owned()
}

/// `Path::strip_prefix` of std, as text.
#[verifier::external_body]
pub(crate) fn strip_path_prefix(path: &str, base: &str) -> (rest: Option<String>)
    ensures
        option_text(rest) == path_strip_prefix(path@, base@),
{
    match Path::new(path).strip_prefix(base) {
        Ok(rest) => Some(rest.to_string_lossy().into_owned()),
        Err(_) => None,
    }
}

/// A path that names no file, so that nothing can be added to its name.
#[derive(Debug, PartialEq, Eq, Clone)]
pub struct NoFileName {
    pub path: String,
}

/// The path with `.` and `extension` added to its file name, or the
/// path back where it has no file name.
pub open spec fn extended(path: Seq<char>, extension: Seq<char>) -> Result<Seq<char>, Seq<char>> {
    match path_file_name(path) {
        Some(name) => Ok(path_with_file_name(path, name.push('.') + extension)),
        None => Err(path),
    }
}

/// Adds an extension to the file name of a path, after the one it may
/// have already: `a/b.toml` with `bak` becomes `a/b.toml.bak`.
pub fn add_extension(p: &str, extension: &str) -> (r: Result<String, NoFileName>)
    ensures
        match r {
            Ok(path) => extended(p@, extension@) == Ok::<Seq<char>, Seq<char>>(path@),
            Err(e) => extended(p@, extension@) == Err::<Seq<char>, Seq<char>>(e.path@),
        },
{
    match file_name_of(p) {
        Some(name) => {
            let mut new_name = name;
            new_name.push('.');
            new_name.append(extension);
            Ok(with_file_name(p, new_name.as_str()))
        },
        None => Err(NoFileName { path: String::from_str(p) }),
    }
}

impl NoFileName {
    pub fn message(&self) -> (text: String)
        ensures
            text@ == "Failed to get file name from path: "@ + self.path@,
    {
        let mut text = String::from_str("Failed to get file name from path: ");
        text.append(self.path.as_str());
        text
    }
}

/// `path` begins with a tilde that stands alone: the text ends after it,
/// or a separator follows.
pub open spec fn tilde_leads(path: Seq<char>) -> bool {
    path.len() > 0 && path[0] == '~' && (path.len() == 1 || path[1] == '/' || path[1] == '\\')
}

/// `shellexpand::tilde`: a tilde that leads the text is replaced by the
/// home directory of the user, where one is known; any other text comes
/// back as it is. Which directory that is, the environment decides.
#[verifier::external_body]
fn shell_tilde(s: &str) -> (expanded: String)
    ensures
        expanded@ == s@ || (tilde_leads(s@) && s@.skip(1).is_suffix_of(expanded@)),
{
    shellexpand::tilde(s).into_owned()
}

/// Expands a leading tilde to the home directory of the user. A text
/// without one comes back unchanged; with one, what follows the tilde is
/// kept at the end.
pub fn expand_tilde(s: &str) -> (path: String)
    ensures
        !tilde_leads(s@) ==> path@ == s@,
        path@ == s@ || s@.skip(1).is_suffix_of(path@),
{
    shell_tilde(s)
}

} // verus!
