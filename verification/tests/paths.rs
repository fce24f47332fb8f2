use std::path::PathBuf;

use shinc::de::{pathbuf, pathbuf_option};
use shinc::utils::path::{add_extension, expand_tilde, NoFileName};

#[test]
fn test_expand_tilde() {
    let home_dir = dirs::home_dir().expect("Home directory not found");
    let input = "~/.config";
    let expanded = PathBuf::from(expand_tilde(input));
    assert!(expanded.starts_with(home_dir));
    assert!(expanded.ends_with(".config"));
}

#[test]
fn test_expand_tilde_no_tilde() {
    let input = "/usr/local/bin";
    let expanded = PathBuf::from(expand_tilde(input));
    assert_eq!(expanded, PathBuf::from(input));
}

#[test]
fn tilde_of_another_user_stays() {
    assert_eq!(expand_tilde("~other/x"), "~other/x");
    assert_eq!(expand_tilde("a/~/b"), "a/~/b");
    assert_eq!(expand_tilde(""), "");
}

#[test]
fn lone_tilde_is_the_home_directory() {
    let home = dirs::home_dir().expect("Home directory not found");
    assert_eq!(PathBuf::from(expand_tilde("~")), home);
}

#[test]
fn extension_is_added_after_the_one_that_is_there() {
    assert_eq!(add_extension("a/b.toml", "bak"), Ok("a/b.toml.bak".to_string()));
    assert_eq!(add_extension("config", "bak"), Ok("config.bak".to_string()));
    assert_eq!(add_extension("/x/y/", "d"), Ok("/x/y.d".to_string()));
    assert_eq!(add_extension(".config/shinc/config.toml", "bak"), Ok(".config/shinc/config.toml.bak".to_string()));
}

#[test]
fn path_without_a_file_name() {
    for p in ["/", "..", "a/..", ""] {
        let e = add_extension(p, "bak").unwrap_err();
        assert_eq!(e, NoFileName { path: p.to_string() });
        assert_eq!(e.message(), format!("Failed to get file name from path: {}", p));
    }
}

#[test]
fn settings_that_name_paths() {
    assert_eq!(pathbuf_option(""), None);
    assert_eq!(pathbuf_option("out"), Some("out".to_string()));
    assert_eq!(pathbuf("/abs/dir"), "/abs/dir");
    let home = dirs::home_dir().expect("Home directory not found");
    assert_eq!(PathBuf::from(pathbuf_option("~/t").unwrap()), home.join("t"));
    assert_eq!(PathBuf::from(pathbuf("~/t")), home.join("t"));
}
