//! A release: its tag, its commit, and the steps it goes through.
use vstd::prelude::*;
use vstd::string::StringExecFns;
use crate::config::{bins_view, Bin, BinView};
use crate::utils::path::{path_strip_prefix, strip_path_prefix};
use crate::utils::text::{join, joined, texts};

verus! {

/// Create a new release
#[derive(Debug, Clone, PartialEq, Eq)]
pub struct ReleaseCmd {
    /// Semantic version number
    pub version: String,
    /// Skip release confirmation
    pub no_confirm: bool,
    /// Do not commit changes
    pub no_commit: bool,
    /// Do not create a tag
    pub no_tag: bool,
    /// Do not push to remote repository
    pub no_push: bool,
    /// Git remote to push
    pub remote_name: String,
}

/// What a release does, one step after the other.
#[derive(Debug, Clone, Copy, PartialEq, Eq)]
pub enum ReleaseStep {
    /// Make sure that the tag of the release does not exist yet.
    CheckTag,
    /// Ask whether to release this version.
    ConfirmRelease,
    /// Ask whether to release from this branch.
    ConfirmBranch,
    /// Write the version into the configuration file.
    UpdateVersion,
    /// Bring the changelog up to the tag.
    UpdateChangelog,
    /// Commit the changelog and the configuration file.
    Commit,
    /// Tag the commit.
    CreateTag,
    /// Push the branch and the tag.
    Push,
}

/// The names of the scripts.
pub open spec fn bin_names(bins: Seq<BinView>) -> Seq<Seq<char>> {
    bins.map_values(|b: BinView| b.name)
}

impl ReleaseCmd {
    /// The tag of the release: `v` and the version.
    pub open spec fn tag_text(&self) -> Seq<char> {
        "v"@ + self.version@
    }

    /// The message of the commit and of the tag.
    pub open spec fn message_text(&self, name: Seq<char>) -> Seq<char> {
        ("chore: Release "@ + name).push(' ') + self.version@
    }

    /// The step that follows `step`; `None` where the release is done.
    /// Each of committing, tagging and pushing can be switched off, and
    /// what would follow it is then left out too.
    pub open spec fn step_after(&self, step: ReleaseStep) -> Option<ReleaseStep> {
        match step {
            ReleaseStep::CheckTag => if self.no_confirm {
                Some(ReleaseStep::UpdateVersion)
            } else {
                Some(ReleaseStep::ConfirmRelease)
            },
            ReleaseStep::ConfirmRelease => Some(ReleaseStep::ConfirmBranch),
            ReleaseStep::ConfirmBranch => Some(ReleaseStep::UpdateVersion),
            ReleaseStep::UpdateVersion => Some(ReleaseStep::UpdateChangelog),
            ReleaseStep::UpdateChangelog => if self.no_commit {
                None
            } else {
                Some(ReleaseStep::Commit)
            },
            ReleaseStep::Commit => if self.no_tag {
                None
            } else {
                Some(ReleaseStep::CreateTag)
            },
            ReleaseStep::CreateTag => if self.no_push {
                None
            } else {
                Some(ReleaseStep::Push)
            },
            ReleaseStep::Push => None,
        }
    }

    pub fn tag(&self) -> (tag: String)
        ensures
            tag@ == self.tag_text(),
    {
        String::from_str("v").concat(self.version.as_str())
    }

    /// The names of the scripts, with a space between each two.
    pub fn name(bins: &Vec<Bin>) -> (name: String)
        ensures
            name@ == joined(bin_names(bins_view(bins@)), ' '),
    {
        let mut names: Vec<String> = Vec::new();
        let mut i: usize = 0;
        while i < bins.len()
            invariant
                i <= bins.len(),
                names.len() == i,
                forall|j: int| 0 <= j < i ==> (#[trigger] names@[j])@ == bins@[j].name@,
            decreases bins.len() - i,
        {
            names.push(bins[i].name.clone());
            i += 1;
        }
        assert(texts(names@) =~= bin_names(bins_view(bins@)));
        join(names.as_slice(), ' ')
    }

    pub fn message(&self, name: &str) -> (message: String)
        ensures
            message@ == self.message_text(name@),
    {
        let mut message = String::from_str("chore: Release ");
        message.append(name);
        message.push(' ');
        message.append(self.version.as_str());
        message
    }

    /// The first step of every release.
    pub fn first_step(&self) -> (step: ReleaseStep)
        ensures
            step == ReleaseStep::CheckTag,
    {
        ReleaseStep::CheckTag
    }

    pub fn next_step(&self, step: ReleaseStep) -> (next: Option<ReleaseStep>)
        ensures
            next == self.step_after(step),
    {
        match step {
            ReleaseStep::CheckTag => if self.no_confirm {
                Some(ReleaseStep::UpdateVersion)
            } else {
                Some(ReleaseStep::ConfirmRelease)
            },
            ReleaseStep::ConfirmRelease => Some(ReleaseStep::ConfirmBranch),
            ReleaseStep::ConfirmBranch => Some(ReleaseStep::UpdateVersion),
            ReleaseStep::UpdateVersion => Some(ReleaseStep::UpdateChangelog),
            ReleaseStep::UpdateChangelog => if self.no_commit {
                None
            } else {
                Some(ReleaseStep::Commit)
            },
            ReleaseStep::Commit => if self.no_tag {
                None
            } else {
                Some(ReleaseStep::CreateTag)
            },
            ReleaseStep::CreateTag => if self.no_push {
                None
            } else {
                Some(ReleaseStep::Push)
            },
            ReleaseStep::Push => None,
        }
    }
}

/// The arguments that `git` pushes the branch and the tag with, from the
/// working directory `workdir`.
pub fn push_args(workdir: &str, remote_name: &str, branch: &str, tag: &str) -> (args: Vec<String>)
    ensures
        args@.len() == 6,
        args@[0]@ == "-C"@,
        args@[1]@ == workdir@,
        args@[2]@ == "push"@,
        args@[3]@ == remote_name@,
        args@[4]@ == branch@,
        args@[5]@ == tag@,
{
    let mut args: Vec<String> = Vec::new();
    args.push(String::from_str("-C"));
    args.push(String::from_str(workdir));
    args.push(String::from_str("push"));
    args.push(String::from_str(remote_name));
    args.push(String::from_str(branch));
    args.push(String::from_str(tag));
    args
}

/// The arguments that the changelog is brought up to `tag_name` with.
pub fn changelog_args(output: &str, tag_name: &str) -> (args: Vec<String>)
    ensures
        args@.len() == 5,
        args@[0]@ == "git-cliff"@,
        args@[1]@ == "--tag"@,
        args@[2]@ == tag_name@,
        args@[3]@ == "--output"@,
        args@[4]@ == output@,
{
    let mut args: Vec<String> = Vec::new();
    args.push(String::from_str("git-cliff"));
    args.push(String::from_str("--tag"));
    args.push(String::from_str(tag_name));
    args.push(String::from_str("--output"));
    args.push(String::from_str(output));
    args
}

/// `path` is not under the working directory.
#[derive(Debug, Clone, PartialEq, Eq)]
pub struct NotUnderWorkdir {
    pub path: String,
}

/// The path of `path` as seen from `workdir`, which it must lie under.
pub fn relative_path(workdir: &str, path: &str) -> (r: Result<String, NotUnderWorkdir>)
    ensures
        match r {
            Ok(rest) => path_strip_prefix(path@, workdir@) == Some(rest@),
            Err(e) => path_strip_prefix(path@, workdir@) is None && e.path@ == path@,
        },
{
    match strip_path_prefix(path, workdir) {
        Some(rest) => Ok(rest),
        None => Err(NotUnderWorkdir { path: String::from_str(path) }),
    }
}

} // verus!
