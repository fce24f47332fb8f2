//! Completion scripts: for which shells, with what content, into which file.
use vstd::prelude::*;
use vstd::string::StringExecFns;
use crate::config::{Bin, Config};
use crate::utils::path::{join_path, path_join};
use crate::utils::text::{
    begins_with, chars_of, join, joined, lines_of, lines_view, split_lines, texts,
};

verus! {

/// The shells that completion scripts are written for.
#[derive(Debug, Clone, Copy, PartialEq, Eq)]
pub enum Shell {
    Bash,
    Elvish,
    Fish,
    PowerShell,
    Zsh,
}

impl Shell {
    /// The name of the shell on the command line.
    pub open spec fn name_text(self) -> Seq<char> {
        match self {
            Shell::Bash => "bash"@,
            Shell::Elvish => "elvish"@,
            Shell::Fish => "fish"@,
            Shell::PowerShell => "powershell"@,
            Shell::Zsh => "zsh"@,
        }
    }

    /// The name of the file that holds the completions of the program
    /// `name` for the shell.
    pub open spec fn file_name_text(self, name: Seq<char>) -> Seq<char> {
        match self {
            Shell::Bash => name + ".bash"@,
            Shell::Elvish => name + ".elv"@,
            Shell::Fish => name + ".fish"@,
            Shell::PowerShell => "_"@ + name + ".ps1"@,
            Shell::Zsh => "_"@ + name,
        }
    }

    pub fn name(self) -> (name: &'static str)
        ensures
            name@ == self.name_text(),
    {
        match self {
            Shell::Bash => "bash",
            Shell::Elvish => "elvish",
            Shell::Fish => "fish",
            Shell::PowerShell => "powershell",
            Shell::Zsh => "zsh",
        }
    }

    pub fn file_name(self, name: &str) -> (file: String)
        ensures
            file@ == self.file_name_text(name@),
    {
        match self {
            Shell::Bash => String::from_str(name).concat(".bash"),
            Shell::Elvish => String::from_str(name).concat(".elv"),
            Shell::Fish => String::from_str(name).concat(".fish"),
            Shell::PowerShell => String::from_str("_").concat(name).concat(".ps1"),
            Shell::Zsh => String::from_str("_").concat(name),
        }
    }

    /// Every shell, in the order in which completions are written.
    pub fn value_variants() -> (shells: Vec<Shell>)
        ensures
            shells@ == seq![Shell::Bash, Shell::Elvish, Shell::Fish, Shell::PowerShell, Shell::Zsh],
    {
        let mut shells: Vec<Shell> = Vec::new();
        shells.push(Shell::Bash);
        shells.push(Shell::Elvish);
        shells.push(Shell::Fish);
        shells.push(Shell::PowerShell);
        shells.push(Shell::Zsh);
        assert(shells@ =~= seq![
            Shell::Bash,
            Shell::Elvish,
            Shell::Fish,
            Shell::PowerShell,
            Shell::Zsh,
        ]);
        shells
    }
}

/// The first line of `s` begins with `#compdef `.
pub open spec fn has_compdef(s: Seq<char>) -> bool {
    split_lines(s).len() > 0 && "#compdef "@.is_prefix_of(split_lines(s)[0])
}

pub fn starts_with_compdef(s: &str) -> (b: bool)
    ensures
        b == has_compdef(s@),
{
    let chars = chars_of(s);
    let lines = lines_of(&chars);
    if lines.len() == 0 {
        return false;
    }
    let first = &lines[0];
    assert(lines_view(lines@)[0] == first@);
    assert(first@.subrange(0, first@.len() as int) =~= first@);
    begins_with(first, 0, first.len(), "#compdef ")
}

/// The shells that `argc` writes completions for.
pub open spec fn is_argc_shell(name: Seq<char>) -> bool {
    ||| name == "bash"@
    ||| name == "elvish"@
    ||| name == "fish"@
    ||| name == "generic"@
    ||| name == "nushell"@
    ||| name == "powershell"@
    ||| name == "xonsh"@
    ||| name == "zsh"@
    ||| name == "tcsh"@
}

/// The script that `argc::generate_completions` writes for the shell named
/// `shell` and the commands `commands`.
pub uninterp spec fn argc_completions(shell: Seq<char>, commands: Seq<Seq<char>>) -> Seq<char>;

/// `argc::generate_completions`, for the shell that `argc::Shell` reads
/// from `shell`: the completion script for the commands. A name
/// that is none of `argc`'s shells gives nothing.
#[verifier::external_body]
fn argc_generate_completions(shell: &str, commands: &Vec<String>) -> (script: Option<String>)
    ensures
        script is Some <==> is_argc_shell(shell@),
        script matches Some(s) ==> s@ == argc_completions(shell@, texts(commands@)),
{
    match shell.parse::<argc::Shell>() {
        Ok(shell) => Some(argc::generate_completions(shell, commands)),
        Err(_) => None,
    }
}

/// The script as it is written to the file: for zsh, a script that does
/// not say which commands it completes gets a `#compdef` line that does.
pub open spec fn completed(shell: Shell, content: Seq<char>, commands: Seq<Seq<char>>) -> Seq<
    char,
> {
    if shell == Shell::Zsh && !has_compdef(content) {
        "#compdef "@ + joined(commands, ' ') + seq!['\n', '\n'] + content
    } else {
        content
    }
}

/// Puts the `#compdef` line before a zsh script that lacks it.
pub fn with_compdef(shell: Shell, content: String, commands: &Vec<String>) -> (script: String)
    ensures
        script@ == completed(shell, content@, texts(commands@)),
{
    let zsh = match shell {
        Shell::Zsh => true,
        _ => false,
    };
    if zsh && !starts_with_compdef(content.as_str()) {
        let ghost all = texts(commands@);
        let mut script = String::from_str("#compdef ");
        script.append(join(commands.as_slice(), ' ').as_str());
        script.push('\n');
        script.push('\n');
        script.append(content.as_str());
        assert(script@ =~= completed(shell, content@, all));
        script
    } else {
        content
    }
}

/// A completion script and the file it belongs in.
#[derive(Debug, Clone, PartialEq, Eq)]
pub struct Completion {
    pub file: String,
    pub content: String,
}

/// The commands that the completions of the program `bin_name` are for:
/// `argc` itself and the program.
pub open spec fn completion_commands(bin_name: Seq<char>) -> Seq<Seq<char>> {
    seq!["argc"@, bin_name]
}

/// Where the completions of the program `bin_name` for `shell` are written:
/// in the directory of the shell under the directory of completions.
pub open spec fn completion_file(config: Config, shell: Shell, bin_name: Seq<char>) -> Seq<char> {
    path_join(
        config.share_path("completions"@),
        path_join(shell.name_text(), shell.file_name_text(bin_name)),
    )
}

/// The completion script of one program for one shell, and its file.
/// `argc` knows every shell that completions are written for, so there
/// always is one.
pub fn gen_completions(config: &Config, bin: &Bin, shell: Shell) -> (completion: Option<
    Completion,
>)
    ensures
        completion is Some,
        completion matches Some(c) ==> {
            &&& c.file@ == completion_file(*config, shell, bin.name@)
            &&& c.content@ == completed(
                shell,
                argc_completions(shell.name_text(), completion_commands(bin.name@)),
                completion_commands(bin.name@),
            )
        },
{
    let bin_name = bin.name();
    let mut commands: Vec<String> = Vec::new();
    commands.push(String::from_str("argc"));
    commands.push(String::from_str(bin_name));
    assert(texts(commands@) =~= completion_commands(bin.name@));
    assert(is_argc_shell(shell.name_text()));
    match argc_generate_completions(shell.name(), &commands) {
        Some(content) => {
            let content = with_compdef(shell, content, &commands);
            let in_shell_dir = join_path(shell.name(), shell.file_name(bin_name).as_str());
            let file = config.comp_file(in_shell_dir.as_str());
            Some(Completion { file, content })
        },
        None => None,
    }
}

} // verus!
