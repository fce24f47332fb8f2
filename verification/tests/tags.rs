use shinc::utils::argc::tag::{
    ArgcTag, DESCRIBE, INCLUDE, META, META_AUTHOR, META_COMBINE_SHORTS, META_DEFAULT_SUBCOMMAND,
    META_DOTENV, META_INHERIT_FLAG_OPTIONS, META_MAN_SECTION, META_REQUIRE_TOOLS, META_SYMBOL,
    META_VERSION,
};

#[test]
fn vocabulary() {
    assert_eq!(DESCRIBE, "describe");
    assert_eq!(META, "meta");
    assert_eq!(META_VERSION, "version");
    assert_eq!(META_AUTHOR, "author");
    assert_eq!(META_DOTENV, "dotenv");
    assert_eq!(META_DEFAULT_SUBCOMMAND, "default-subcommand");
    assert_eq!(META_INHERIT_FLAG_OPTIONS, "inherit-flag-options");
    assert_eq!(META_SYMBOL, "symbol");
    assert_eq!(META_COMBINE_SHORTS, "combine-shorts");
    assert_eq!(META_MAN_SECTION, "man-section");
    assert_eq!(META_REQUIRE_TOOLS, "require-tools");
    assert_eq!(INCLUDE, "include");
}

#[test]
fn format_joins_what_is_not_empty() {
    assert_eq!(ArgcTag::format("meta", "version", "1.0"), "# @meta version 1.0");
    assert_eq!(ArgcTag::format("meta", "version", ""), "# @meta version");
    assert_eq!(ArgcTag::format("describe", "", "A tool"), "# @describe A tool");
    assert_eq!(ArgcTag::format("", "", "x"), "# @x");
    assert_eq!(ArgcTag::format("", "n", ""), "# @n");
    assert_eq!(ArgcTag::format("k", "", ""), "# @k");
    assert_eq!(ArgcTag::format("", "", ""), "# @");
    assert_eq!(ArgcTag::format("a", "b c", " d "), "# @a b c  d ");
}

#[test]
fn metadata_lines() {
    assert_eq!(ArgcTag::describe("Builds things"), "# @describe Builds things");
    assert_eq!(ArgcTag::meta("key", "value"), "# @meta key value");
    assert_eq!(ArgcTag::meta_version("2.3.4"), "# @meta version 2.3.4");
    assert_eq!(ArgcTag::meta_author("Jane <jane@example.org>"), "# @meta author Jane <jane@example.org>");
    assert_eq!(ArgcTag::meta_dotenv(".env.local"), "# @meta dotenv .env.local");
    assert_eq!(ArgcTag::meta_dotenv(""), "# @meta dotenv");
    assert_eq!(ArgcTag::meta_default_subcommand("run"), "# @meta default-subcommand run");
    assert_eq!(ArgcTag::meta_inherit_flag_options(), "# @meta inherit-flag-options");
    assert_eq!(ArgcTag::meta_combine_shorts(), "# @meta combine-shorts");
    assert_eq!(ArgcTag::meta_symbol("+toolchain"), "# @meta symbol +toolchain");
}

#[test]
fn required_tools_are_listed_with_commas() {
    let tools = vec!["git".to_string(), "curl".to_string(), "jq".to_string()];
    assert_eq!(ArgcTag::meta_require_tools(&tools), "# @meta require-tools git,curl,jq");
    assert_eq!(ArgcTag::meta_require_tools(&tools[..1]), "# @meta require-tools git");
    assert_eq!(ArgcTag::meta_require_tools(&[]), "# @meta require-tools");
}

#[test]
fn man_section_is_a_decimal_number() {
    assert_eq!(ArgcTag::meta_man_section(0), "# @meta man-section 0");
    assert_eq!(ArgcTag::meta_man_section(8), "# @meta man-section 8");
    assert_eq!(ArgcTag::meta_man_section(10), "# @meta man-section 10");
    assert_eq!(ArgcTag::meta_man_section(255), "# @meta man-section 255");
    for n in 0..=255u8 {
        assert_eq!(ArgcTag::meta_man_section(n), format!("# @meta man-section {}", n));
    }
}

#[test]
fn version_key() {
    assert!(ArgcTag::is_meta_version("version"));
    assert!(!ArgcTag::is_meta_version("Version"));
    assert!(!ArgcTag::is_meta_version("version "));
    assert!(!ArgcTag::is_meta_version(""));
}
