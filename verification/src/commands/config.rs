//! The commands on configuration files: which file, and what to do with it.
use vstd::prelude::*;
use vstd::string::StringExecFns;

verus! {

/// Generate the configuration files.
#[derive(Debug, Clone, PartialEq, Eq)]
pub struct ConfigGenerateCmd {
    /// Force overwrite even if the configuration file already exists.
    pub force: bool,
    /// Generate configuration file in the current directory.
    pub local: bool,
}

/// What generating does to the configuration file.
#[derive(Debug, Clone, Copy, PartialEq, Eq)]
pub enum GenerateAction {
    /// The file is written; where `backup` holds, the one that is there is
    /// copied aside first.
    Write { backup: bool },
    /// The file is there and stays as it is.
    Keep,
}

impl ConfigGenerateCmd {
    /// The file to generate: the local one or the user's.
    pub fn get_config_file_path(&self, local_file: &str, user_file: &str) -> (path: String)
        ensures
            path@ == if self.local {
                local_file@
            } else {
                user_file@
            },
    {
        if self.local {
            String::from_str(local_file)
        } else {
            String::from_str(user_file)
        }
    }

    /// What to do, given whether the file is there: a file that is there
    /// is only overwritten by force, and then kept as a backup.
    pub open spec fn action_for(&self, file_exists: bool) -> GenerateAction {
        if self.force || !file_exists {
            GenerateAction::Write { backup: file_exists }
        } else {
            GenerateAction::Keep
        }
    }

    pub fn action(&self, file_exists: bool) -> (action: GenerateAction)
        ensures
            action == self.action_for(file_exists),
    {
        if self.force || !file_exists {
            GenerateAction::Write { backup: file_exists }
        } else {
            GenerateAction::Keep
        }
    }
}

/// List the configuration files.
#[derive(Debug, Clone, PartialEq, Eq)]
pub struct ConfigListCmd {
    /// Only list the existing configuration files.
    pub exists: bool,
    /// Print configuration files content.
    pub with_content: bool,
}

impl ConfigListCmd {
    /// Whether a file is listed, given whether it is there.
    pub fn lists(&self, file_exists: bool) -> (listed: bool)
        ensures
            listed == (!self.exists || file_exists),
    {
        !self.exists || file_exists
    }

    /// Whether the content of a file is printed, given whether it is there.
    pub fn prints_content(&self, file_exists: bool) -> (printed: bool)
        ensures
            printed == (self.with_content && file_exists),
    {
        self.with_content && file_exists
    }
}

/// The notation that the configuration is shown in.
#[derive(Debug, Clone, Copy, PartialEq, Eq)]
pub enum OutputFormat {
    Json,
    Yaml,
    Toml,
}

/// Show the active configuration.
#[derive(Debug, Clone, PartialEq, Eq)]
pub struct ConfigShowCmd {
    /// JSON output.
    pub json: bool,
    /// YAML output.
    pub yaml: bool,
}

impl ConfigShowCmd {
    /// JSON where it is asked for, else YAML where that is asked for, else TOML.
    pub fn format(&self) -> (format: OutputFormat)
        ensures
            format == if self.json {
                OutputFormat::Json
            } else if self.yaml {
                OutputFormat::Yaml
            } else {
                OutputFormat::Toml
            },
    {
        if self.json {
            OutputFormat::Json
        } else if self.yaml {
            OutputFormat::Yaml
        } else {
            OutputFormat::Toml
        }
    }
}

} // verus!
