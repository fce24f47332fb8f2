//! The Homebrew formula of a project: its name, where its archive is
//! downloaded from, and the file it is written to.
use heck::ToPascalCase;
use vstd::prelude::*;
use vstd::string::StringExecFns;
use crate::commands::dist::archive_name_text;
use crate::config::Config;
use crate::utils::path::{join_path, path_join};

verus! {

/// Generate Homebrew formulae.
#[derive(Debug, Clone, PartialEq, Eq)]
pub struct HomebrewFormulaCmd {
    /// Formula name if not specified using inferred name
    pub name: Option<String>,
    /// Write formula file to directory instead of stdout
    pub output_dir: Option<String>,
}

/// `text` in Pascal case, as `heck` writes it: the words of the text, each
/// capitalized, with nothing between them.
pub uninterp spec fn pascal_case(text: Seq<char>) -> Seq<char>;

/// `heck::ToPascalCase::to_pascal_case` on a string slice.
#[verifier::external_body]
fn to_pascal_case(text: &str) -> (cased: String)
    ensures
        cased@ == pascal_case(text@),
{
    text.to_pascal_case()
}

/// Where the archive of `name` at `version` is downloaded from: the
/// release `v<version>` of the repository.
pub open spec fn download_url(repository: Seq<char>, name: Seq<char>, version: Seq<char>) -> Seq<
    char,
> {
    repository + "/releases/download/v"@ + version + "/"@ + archive_name_text(name, version)
}

impl HomebrewFormulaCmd {
    /// The name of the formula: the one given, else the name of the
    /// distribution. `main_file_exists` says whether the main file is there.
    pub fn name(&self, config: &Config, main_file_exists: bool) -> (name: String)
        ensures
            name@ == match self.name {
                Some(n) => n@,
                None => config.dist_name_model(main_file_exists),
            },
    {
        match &self.name {
            Some(name) => name.clone(),
            None => config.inferred_dist_name(main_file_exists),
        }
    }

    /// The name of the class of the formula.
    pub fn classname(&self, name: &str) -> (class: String)
        ensures
            class@ == pascal_case(name@),
    {
        to_pascal_case(name)
    }

    pub fn url(&self, repository: &str, name: &str, version: &str) -> (url: String)
        ensures
            url@ == download_url(repository@, name@, version@),
    {
        let url = String::from_str(repository).concat("/releases/download/v").concat(
            version,
        ).concat("/").concat(name).concat("-v").concat(version).concat(".tar.gz");
        assert(url@ =~= download_url(repository@, name@, version@));
        url
    }

    /// The address of the archive and its checksum. `checksum` is what
    /// hashing the download gave, if it gave anything; without a
    /// repository both are empty.
    pub fn url_checksum(
        &self,
        repository: Option<&String>,
        name: &str,
        version: &str,
        checksum: Option<String>,
    ) -> (pair: (String, String))
        ensures
            match repository {
                Some(r) => {
                    &&& pair.0@ == download_url(r@, name@, version@)
                    &&& pair.1@ == match checksum {
                        Some(c) => c@,
                        None => Seq::<char>::empty(),
                    }
                },
                None => pair.0@ == Seq::<char>::empty() && pair.1@ == Seq::<char>::empty(),
            },
    {
        match repository {
            Some(r) => {
                let url = self.url(r.as_str(), name, version);
                let checksum = match checksum {
                    Some(c) => c,
                    None => String::new(),
                };
                (url, checksum)
            },
            None => (String::new(), String::new()),
        }
    }

    /// The file of the formula `name`, where it goes to a directory.
    pub fn formula_file(&self, name: &str) -> (file: Option<String>)
        ensures
            match self.output_dir {
                Some(dir) => file matches Some(f) && f@ == path_join(dir@, name@ + ".rb"@),
                None => file is None,
            },
    {
        match &self.output_dir {
            Some(dir) => {
                let file_name = String::from_str(name).concat(".rb");
                Some(join_path(dir.as_str(), file_name.as_str()))
            },
            None => None,
        }
    }
}

} // verus!
