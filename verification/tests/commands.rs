use clap::ValueEnum;
use clap_complete::Generator;
use shinc::commands::release::ReleaseStep::{
    CheckTag, Commit, ConfirmBranch, ConfirmRelease, CreateTag, Push, UpdateChangelog,
    UpdateVersion,
};
use shinc::commands::completions::{
    gen_completions, starts_with_compdef, with_compdef, Completion, Shell,
};
use shinc::commands::config::{
    ConfigGenerateCmd, ConfigListCmd, ConfigShowCmd, GenerateAction, OutputFormat,
};
use shinc::commands::dist::{
    archive_name, archive_path, archive_sources, checksum_file_name, checksum_line,
};
use shinc::commands::homebrew::HomebrewFormulaCmd;
use shinc::commands::install_shell::{InstallShellCmd, RepositoryNotSet};
use shinc::commands::release::{
    changelog_args, push_args, relative_path, NotUnderWorkdir, ReleaseCmd, ReleaseStep,
};
use shinc::config::{Bin, Config, Dist, Project, Release, Shfmt, Tools};

fn config() -> Config {
    Config::new(
        "/work/tool".to_string(),
        Project {
            name: "tool".to_string(),
            version: "1.2.3".to_string(),
            description: None,
            homepage: None,
            repository: Some("https://example.org/acme/tool".to_string()),
            license: None,
        },
        Some(vec![Bin::new("tool", "src/main.sh")]),
        None,
        Dist { name: None, include_extra: vec!["README.md".to_string()] },
        Tools { shfmt: Shfmt { options: vec![] } },
        Release { changelog: "CHANGELOG.md".to_string() },
    )
}

#[test]
fn shells() {
    assert_eq!(
        Shell::value_variants(),
        vec![Shell::Bash, Shell::Elvish, Shell::Fish, Shell::PowerShell, Shell::Zsh]
    );
    let names: Vec<&str> = Shell::value_variants().iter().map(|s| s.name()).collect();
    assert_eq!(names, vec!["bash", "elvish", "fish", "powershell", "zsh"]);
    let files: Vec<String> = Shell::value_variants().iter().map(|s| s.file_name("tool")).collect();
    assert_eq!(files, vec!["tool.bash", "tool.elv", "tool.fish", "_tool.ps1", "_tool"]);
}

#[test]
fn shells_are_those_of_the_generator() {
    let theirs = clap_complete::Shell::value_variants();
    let ours = Shell::value_variants();
    assert_eq!(theirs.len(), ours.len());
    for (t, o) in theirs.iter().zip(ours.iter()) {
        assert_eq!(t.to_string(), o.name());
        assert_eq!(t.to_possible_value().unwrap().get_name(), o.name());
        assert_eq!(t.file_name("my-tool"), o.file_name("my-tool"));
    }
}

#[test]
fn compdef_line() {
    assert!(starts_with_compdef("#compdef argc tool\n\nrest"));
    assert!(starts_with_compdef("#compdef "));
    assert!(!starts_with_compdef("#compdef"));
    assert!(!starts_with_compdef(" #compdef x"));
    assert!(!starts_with_compdef("\n#compdef x"));
    assert!(!starts_with_compdef(""));
}

#[test]
fn zsh_script_gets_its_compdef_line() {
    let commands = vec!["argc".to_string(), "tool".to_string()];
    assert_eq!(
        with_compdef(Shell::Zsh, "_argc() {}\n".to_string(), &commands),
        "#compdef argc tool\n\n_argc() {}\n"
    );
    assert_eq!(
        with_compdef(Shell::Zsh, "#compdef x\nbody".to_string(), &commands),
        "#compdef x\nbody"
    );
    assert_eq!(with_compdef(Shell::Bash, "body".to_string(), &commands), "body");
    assert_eq!(with_compdef(Shell::Zsh, String::new(), &vec![]), "#compdef \n\n");
}

#[test]
fn completions_of_a_program() {
    let c = config();
    let bin = Bin::new("tool", "/work/tool/src/main.sh");
    for shell in Shell::value_variants() {
        let Completion { file, content } = gen_completions(&c, &bin, shell).unwrap();
        assert_eq!(
            file,
            format!(
                "/work/tool/target/share/completions/{}/{}",
                shell.name(),
                shell.file_name("tool")
            )
        );
        assert!(content.contains("argc tool") || content.contains("\"argc\""), "{}", shell.name());
        assert!(content.len() > 40);
        assert!(content != shell.name());
    }
    let zsh = gen_completions(&c, &bin, Shell::Zsh).unwrap();
    assert!(zsh.content.starts_with("#compdef "));
}

#[test]
fn generating_a_configuration_file() {
    let plain = ConfigGenerateCmd { force: false, local: false };
    let forced = ConfigGenerateCmd { force: true, local: true };
    assert_eq!(plain.action(false), GenerateAction::Write { backup: false });
    assert_eq!(plain.action(true), GenerateAction::Keep);
    assert_eq!(forced.action(false), GenerateAction::Write { backup: false });
    assert_eq!(forced.action(true), GenerateAction::Write { backup: true });
    assert_eq!(plain.get_config_file_path("./c.toml", "/home/u/c.toml"), "/home/u/c.toml");
    assert_eq!(forced.get_config_file_path("./c.toml", "/home/u/c.toml"), "./c.toml");
}

#[test]
fn listing_configuration_files() {
    let all = ConfigListCmd { exists: false, with_content: true };
    let existing = ConfigListCmd { exists: true, with_content: false };
    assert!(all.lists(false) && all.lists(true));
    assert!(!existing.lists(false) && existing.lists(true));
    assert!(all.prints_content(true) && !all.prints_content(false));
    assert!(!existing.prints_content(true) && !existing.prints_content(false));
}

#[test]
fn showing_the_configuration() {
    assert_eq!(ConfigShowCmd { json: true, yaml: true }.format(), OutputFormat::Json);
    assert_eq!(ConfigShowCmd { json: true, yaml: false }.format(), OutputFormat::Json);
    assert_eq!(ConfigShowCmd { json: false, yaml: true }.format(), OutputFormat::Yaml);
    assert_eq!(ConfigShowCmd { json: false, yaml: false }.format(), OutputFormat::Toml);
}

#[test]
fn archive_of_a_distribution() {
    let c = config();
    assert_eq!(archive_name("tool", "1.2.3"), "tool-v1.2.3.tar.gz");
    assert_eq!(checksum_file_name("tool-v1.2.3.tar.gz"), "tool-v1.2.3.tar.gz.sha256");
    assert_eq!(checksum_line("abc123", "tool-v1.2.3.tar.gz"), "abc123 tool-v1.2.3.tar.gz\n");
    assert_eq!(
        archive_sources(&c),
        vec!["/work/tool/target/bin", "/work/tool/target/share", "README.md"]
    );
    assert_eq!(archive_path(&c, "/work/tool/target/bin"), "bin");
    assert_eq!(archive_path(&c, "/work/tool/target/share/man/tool.1"), "share/man/tool.1");
    assert_eq!(archive_path(&c, "README.md"), "README.md");
    assert_eq!(archive_path(&c, "/work/tool/targets"), "/work/tool/targets");
}

#[test]
fn homebrew_formula() {
    let c = config();
    let cmd = HomebrewFormulaCmd { name: None, output_dir: Some("Formula".to_string()) };
    let named = HomebrewFormulaCmd { name: Some("my-tool".to_string()), output_dir: None };
    assert_eq!(cmd.name(&c, true), "tool");
    assert_eq!(named.name(&c, true), "my-tool");
    assert_eq!(named.classname("my-tool"), "MyTool");
    assert_eq!(named.classname("shell_script kit"), "ShellScriptKit");
    assert_eq!(
        cmd.url("https://example.org/acme/tool", "tool", "1.2.3"),
        "https://example.org/acme/tool/releases/download/v1.2.3/tool-v1.2.3.tar.gz"
    );
    let repository = "https://example.org/acme/tool".to_string();
    assert_eq!(
        cmd.url_checksum(Some(&repository), "tool", "1.2.3", Some("abc".to_string())),
        (
            "https://example.org/acme/tool/releases/download/v1.2.3/tool-v1.2.3.tar.gz".to_string(),
            "abc".to_string()
        )
    );
    assert_eq!(
        cmd.url_checksum(Some(&repository), "tool", "1.2.3", None).1,
        ""
    );
    assert_eq!(
        cmd.url_checksum(None, "tool", "1.2.3", Some("abc".to_string())),
        (String::new(), String::new())
    );
    assert_eq!(cmd.formula_file("tool"), Some("Formula/tool.rb".to_string()));
    assert_eq!(named.formula_file("tool"), None);
}

#[test]
fn install_script() {
    let c = config();
    let cmd = InstallShellCmd { filename: "install.sh".to_string(), raw: false };
    assert_eq!(cmd.url(c.project()), Ok("https://example.org/acme/tool"));
    let mut p = c.project().clone();
    p.repository = None;
    assert_eq!(cmd.url(&p), Err(RepositoryNotSet));
    assert_eq!(RepositoryNotSet.message(), "Repository URL not set in configuration");
}

fn release(no_confirm: bool, no_commit: bool, no_tag: bool, no_push: bool) -> ReleaseCmd {
    ReleaseCmd {
        version: "1.2.3".to_string(),
        no_confirm,
        no_commit,
        no_tag,
        no_push,
        remote_name: "origin".to_string(),
    }
}

fn steps(cmd: &ReleaseCmd) -> Vec<ReleaseStep> {
    let mut all = vec![cmd.first_step()];
    while let Some(next) = cmd.next_step(*all.last().unwrap()) {
        all.push(next);
    }
    all
}

#[test]
fn steps_of_a_release() {
    assert_eq!(
        steps(&release(false, false, false, false)),
        vec![CheckTag, ConfirmRelease, ConfirmBranch, UpdateVersion, UpdateChangelog, Commit, CreateTag, Push]
    );
    assert_eq!(
        steps(&release(true, false, false, false)),
        vec![CheckTag, UpdateVersion, UpdateChangelog, Commit, CreateTag, Push]
    );
    assert_eq!(
        steps(&release(true, false, false, true)),
        vec![CheckTag, UpdateVersion, UpdateChangelog, Commit, CreateTag]
    );
    assert_eq!(
        steps(&release(true, false, true, false)),
        vec![CheckTag, UpdateVersion, UpdateChangelog, Commit]
    );
    assert_eq!(
        steps(&release(true, true, false, false)),
        vec![CheckTag, UpdateVersion, UpdateChangelog]
    );
}

#[test]
fn texts_of_a_release() {
    let cmd = release(false, false, false, false);
    assert_eq!(cmd.tag(), "v1.2.3");
    assert_eq!(cmd.message("tool"), "chore: Release tool 1.2.3");
    let bins = vec![Bin::new("a", "a.sh"), Bin::new("b", "b.sh")];
    assert_eq!(ReleaseCmd::name(&bins), "a b");
    assert_eq!(ReleaseCmd::name(&bins[..1].to_vec()), "a");
    assert_eq!(ReleaseCmd::name(&vec![]), "");
    assert_eq!(
        push_args("/work/tool", "origin", "main", "v1.2.3"),
        vec!["-C", "/work/tool", "push", "origin", "main", "v1.2.3"]
    );
    assert_eq!(
        changelog_args("CHANGELOG.md", "v1.2.3"),
        vec!["git-cliff", "--tag", "v1.2.3", "--output", "CHANGELOG.md"]
    );
}

#[test]
fn path_from_the_working_directory() {
    assert_eq!(
        relative_path("/work/tool", "/work/tool/.config/shinc/config.toml"),
        Ok(".config/shinc/config.toml".to_string())
    );
    assert_eq!(relative_path("/work/tool", "/work/tool"), Ok(String::new()));
    assert_eq!(
        relative_path("/work/tool", "/elsewhere/c.toml"),
        Err(NotUnderWorkdir { path: "/elsewhere/c.toml".to_string() })
    );
}
