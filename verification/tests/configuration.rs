use shinc::config::{
    Bin, Build, Config, Dist, NoConfigFile, Project, Release, Shfmt, Tools, CONFIG_FILENAME,
    CONFIG_SUBDIR,
};

fn project() -> Project {
    Project {
        name: "tool".to_string(),
        version: "1.2.3".to_string(),
        description: None,
        homepage: None,
        repository: Some("https://example.org/acme/tool".to_string()),
        license: None,
    }
}

fn config() -> Config {
    Config::new(
        "/work/tool".to_string(),
        project(),
        None,
        None,
        Dist { name: None, include_extra: vec!["README.md".to_string(), "LICENSE".to_string()] },
        Tools { shfmt: Shfmt { options: vec!["-i".to_string(), "2".to_string()] } },
        Release { changelog: "CHANGELOG.md".to_string() },
    )
}

#[test]
fn constants() {
    assert_eq!(CONFIG_SUBDIR, ".config/shinc");
    assert_eq!(CONFIG_FILENAME, "config.toml");
}

#[test]
fn getters() {
    let c = config();
    assert_eq!(c.project().name(), "tool");
    assert_eq!(c.project().version(), "1.2.3");
    assert_eq!(c.project().repository(), Some(&"https://example.org/acme/tool".to_string()));
    assert_eq!(c.changelog(), "CHANGELOG.md");
    assert_eq!(c.shfmt_options(), vec!["-i", "2"]);
    assert_eq!(c.dist_include_extra_paths(), vec!["README.md", "LICENSE"]);
    assert_eq!(c.dist_name(), None);
    let b = Bin::new("x", "src/x.sh");
    assert_eq!(b.name(), "x");
    assert_eq!(b.path(), "src/x.sh");
}

#[test]
fn places_under_the_root() {
    let c = config();
    assert_eq!(Config::locate_config_path("/work/tool"), "/work/tool/.config/shinc/config.toml");
    assert_eq!(c.path(), "/work/tool/.config/shinc/config.toml");
    assert_eq!(c.resolve_root_path("a/b"), "/work/tool/a/b");
    assert_eq!(c.resolve_root_path("/abs"), "/abs");
    assert_eq!(c.src_dir(), "/work/tool/src");
    assert_eq!(c.resolve_src_path("lib.sh"), "/work/tool/src/lib.sh");
    assert_eq!(c.main_file(), "/work/tool/src/main.sh");
    assert_eq!(c.target_dir(), "/work/tool/target");
    assert_eq!(c.bin_dir(), "/work/tool/target/bin");
    assert_eq!(c.bin_file("tool"), "/work/tool/target/bin/tool");
    assert_eq!(c.build_dir(), "/work/tool/target/build");
    assert_eq!(c.build_file("tool.sh"), "/work/tool/target/build/tool.sh");
    assert_eq!(c.share_dir(), "/work/tool/target/share");
    assert_eq!(c.resolve_share_path("doc"), "/work/tool/target/share/doc");
    assert_eq!(c.man_dir(), "/work/tool/target/share/man");
    assert_eq!(c.man_file("tool.1"), "/work/tool/target/share/man/tool.1");
    assert_eq!(c.comp_dir(), "/work/tool/target/share/completions");
    assert_eq!(c.comp_file("zsh/_tool"), "/work/tool/target/share/completions/zsh/_tool");
    assert_eq!(c.dist_dir(), "/work/tool/target/dist");
    assert_eq!(c.dist_file("tool-v1.tar.gz"), "/work/tool/target/dist/tool-v1.tar.gz");
}

#[test]
fn target_directory_of_the_project() {
    let mut c = config();
    c.build = Some(Build { target_dir: None });
    assert_eq!(c.target_dir(), "/work/tool/target");
    c.build = Some(Build { target_dir: Some("out".to_string()) });
    assert_eq!(c.target_dir(), "/work/tool/out");
    assert_eq!(c.bin_file("t"), "/work/tool/out/bin/t");
    c.build = Some(Build { target_dir: Some("/var/out".to_string()) });
    assert_eq!(c.target_dir(), "/var/out");
}

#[test]
fn scripts_found() {
    let c = config();
    assert_eq!(c.inferred_bins(false), vec![]);
    assert_eq!(c.inferred_bins(true), vec![Bin::new("tool", "/work/tool/src/main.sh")]);
    assert_eq!(c.bins(false), vec![]);
    assert_eq!(c.bins(true), vec![Bin::new("tool", "/work/tool/src/main.sh")]);
}

#[test]
fn scripts_named() {
    let mut c = config();
    c.bin = Some(vec![Bin::new("a", "src/a.sh"), Bin::new("b", "/opt/b.sh")]);
    let expected = vec![Bin::new("a", "/work/tool/src/a.sh"), Bin::new("b", "/opt/b.sh")];
    assert_eq!(c.bins(true), expected);
    assert_eq!(c.bins(false), expected);
    c.bin = Some(vec![]);
    assert_eq!(c.bins(true), vec![]);
}

#[test]
fn name_of_the_distribution() {
    let mut c = config();
    assert_eq!(c.inferred_dist_name(true), "tool");
    assert_eq!(c.inferred_dist_name(false), "tool");
    c.bin = Some(vec![Bin::new("only", "src/only.sh")]);
    assert_eq!(c.inferred_dist_name(false), "only");
    c.bin = Some(vec![Bin::new("a", "a.sh"), Bin::new("b", "b.sh")]);
    assert_eq!(c.inferred_dist_name(true), "tool");
    c.dist.name = Some("bundle".to_string());
    assert_eq!(c.inferred_dist_name(true), "bundle");
    assert_eq!(c.dist_name(), Some("bundle"));
}

#[test]
fn configuration_file_has_to_be_there() {
    assert_eq!(
        Config::config_files("/work/tool", true),
        Ok(vec!["/work/tool/.config/shinc/config.toml".to_string()])
    );
    assert_eq!(Config::config_files("/work/tool", false), Err(NoConfigFile));
    assert_eq!(NoConfigFile.message(), "No config file found");
}
