//! The install script of a project.
use vstd::prelude::*;
use vstd::string::StringExecFns;
use crate::config::Project;

verus! {

/// Generate the install shell script for the project.
#[derive(Debug, Clone, PartialEq, Eq)]
pub struct InstallShellCmd {
    /// Filename for the generated install script
    pub filename: String,
    /// Generate raw script without any processing
    pub raw: bool,
}

/// The project names no repository to install from.
#[derive(Debug, Clone, Copy, PartialEq, Eq)]
pub struct RepositoryNotSet;

impl RepositoryNotSet {
    pub fn message(&self) -> (text: String)
        ensures
            text@ == "Repository URL not set in configuration"@,
    {
        String::from_str("Repository URL not set in configuration")
    }
}

impl InstallShellCmd {
    /// The address that the install script downloads from: the
    /// repository of the project.
    pub fn url<'a>(&self, project: &'a Project) -> (r: Result<&'a str, RepositoryNotSet>)
        ensures
            match r {
                Ok(url) => project.repository matches Some(repository) && url@ == repository@,
                Err(_) => project.repository is None,
            },
    {
        match project.repository() {
            Some(repository) => Ok(repository.as_str()),
            None => Err(RepositoryNotSet),
        }
    }
}

} // verus!
