use shinc::commands::assembler::{
    assemble, expand, include_paths, BuildError, BuildFile, Includes, ARGC_HOOK,
};
use shinc::utils::argc::parser::{parse, ParseError, SyntaxReason};

fn hook() -> String {
    format!("\n\n{}\n", ARGC_HOOK)
}

#[test]
fn hook_text() {
    assert_eq!(ARGC_HOOK, r#"eval "$(argc --argc-eval "$0" "$@")""#);
    let mut file = BuildFile::new();
    file.write_argc_hook();
    assert_eq!(file.into_text(), "\n\neval \"$(argc --argc-eval \"$0\" \"$@\")\"\n");
}

#[test]
fn plain_text_round_trip() {
    let source = "#!/usr/bin/env bash\n\nset -e\n  echo hi\n\n";
    let out = expand(source, &Includes::new(), Some("1.0.0")).unwrap();
    assert_eq!(out, format!("{}{}", source, hook()));
}

#[test]
fn version_override() {
    let out = expand("# @meta version 0.1.0", &Includes::new(), Some("2.3.4")).unwrap();
    assert_eq!(out, format!("# @meta version 2.3.4\n{}", hook()));
    assert!(!out.contains("0.1.0"));
}

#[test]
fn version_is_kept_without_an_override() {
    let out = expand("# @meta version 0.1.0", &Includes::new(), None).unwrap();
    assert_eq!(out, format!("# @meta version 0.1.0\n{}", hook()));
}

#[test]
fn every_version_line_is_stamped() {
    let out = expand("# @meta version 1\n# @meta version 2\n", &Includes::new(), Some("9")).unwrap();
    assert_eq!(out, format!("# @meta version 9\n# @meta version 9\n{}", hook()));
}

#[test]
fn other_metadata_is_reproduced() {
    let out = expand("##@meta   author   Jane Doe  \n# @meta combine-shorts", &Includes::new(), Some("1")).unwrap();
    assert_eq!(out, format!("# @meta author Jane Doe\n# @meta combine-shorts\n{}", hook()));
}

#[test]
fn include_splicing() {
    let mut includes = Includes::new();
    includes.insert("lib.sh".to_string(), "echo middle".to_string());
    let out = expand("echo start\n# @include lib.sh\necho end", &includes, Some("1")).unwrap();
    assert_eq!(out, format!("echo start\n# lib.sh\necho middle\n\necho end\n{}", hook()));
}

#[test]
fn included_directives_are_not_read() {
    let mut includes = Includes::new();
    includes.insert("a.sh".to_string(), "# @include b.sh\r\n# @meta version 3\n".to_string());
    let out = expand("# @include a.sh", &includes, Some("1")).unwrap();
    assert_eq!(out, format!("# a.sh\n# @include b.sh\n# @meta version 3\n\n{}", hook()));
}

#[test]
fn missing_include_is_fatal() {
    let r = expand("# @include missing.sh", &Includes::new(), Some("1"));
    assert_eq!(r, Err(BuildError::MissingIncludeFile { path: "missing.sh".to_string() }));
    assert_eq!(r.unwrap_err().message(), "file not found: missing.sh");
}

#[test]
fn first_missing_include_is_reported() {
    let mut includes = Includes::new();
    includes.insert("a.sh".to_string(), String::new());
    let events = parse("# @include a.sh\n# @include b.sh\n# @include c.sh").unwrap();
    assert_eq!(
        assemble(&events, &includes, None),
        Err(BuildError::MissingIncludeFile { path: "b.sh".to_string() })
    );
    assert_eq!(include_paths(&events), vec!["a.sh", "b.sh", "c.sh"]);
}

#[test]
fn syntax_error_is_fatal() {
    let r = expand("echo\n# @include", &Includes::new(), None);
    let e = ParseError { line: 2, reason: SyntaxReason::MissingIncludePath };
    assert_eq!(r, Err(BuildError::SyntaxError(e)));
    assert_eq!(r.unwrap_err().message(), "syntax error at line 2");
}

#[test]
fn unknown_directive_is_emitted_verbatim() {
    let out = expand("# @future-thing abc", &Includes::new(), Some("1")).unwrap();
    assert_eq!(out, format!("# @future-thing abc\n{}", hook()));
}

#[test]
fn later_insert_wins() {
    let mut includes = Includes::new();
    includes.insert("a".to_string(), "one".to_string());
    includes.insert("b".to_string(), "two".to_string());
    includes.insert("a".to_string(), "three".to_string());
    assert_eq!(includes.resolve("a"), Some(&"three".to_string()));
    assert_eq!(includes.resolve("b"), Some(&"two".to_string()));
    assert_eq!(includes.resolve("c"), None);
}

#[test]
fn empty_source_is_only_the_hook() {
    assert_eq!(expand("", &Includes::new(), None).unwrap(), hook());
}
