//! The vocabulary of directive comments and how one is written out.
use vstd::prelude::*;
use vstd::string::StringExecFns;
use crate::utils::text::{decimal, join, joined, push_decimal, same_text, texts};

verus! {

pub const DESCRIBE: &'static str = "describe";

pub const META: &'static str = "meta";

pub const META_VERSION: &'static str = "version";

pub const META_AUTHOR: &'static str = "author";

pub const META_DOTENV: &'static str = "dotenv";

pub const META_DEFAULT_SUBCOMMAND: &'static str = "default-subcommand";

pub const META_INHERIT_FLAG_OPTIONS: &'static str = "inherit-flag-options";

pub const META_SYMBOL: &'static str = "symbol";

pub const META_COMBINE_SHORTS: &'static str = "combine-shorts";

pub const META_MAN_SECTION: &'static str = "man-section";

pub const META_REQUIRE_TOOLS: &'static str = "require-tools";

/// The keyword of the directive that splices another file in.
pub const INCLUDE: &'static str = "include";

/// What every directive comment written out begins with: `# @`.
pub open spec fn tag_prefix() -> Seq<char> {
    seq!['#', ' ', '@']
}

/// `a` and `b` with one space between them, or the one that is not empty.
pub open spec fn spaced(a: Seq<char>, b: Seq<char>) -> Seq<char> {
    if a.len() == 0 {
        b
    } else if b.len() == 0 {
        a
    } else {
        a + seq![' '] + b
    }
}

/// The directive comment made of `key`, `name` and `value`: `# @`, then
/// those of the three that are not empty, one space between them.
pub open spec fn tag_line(key: Seq<char>, name: Seq<char>, value: Seq<char>) -> Seq<char> {
    tag_prefix() + spaced(key, spaced(name, value))
}

/// The metadata line that declares `name` with `value`.
pub open spec fn meta_line(name: Seq<char>, value: Seq<char>) -> Seq<char> {
    tag_line(META@, name, value)
}

pub struct ArgcTag;

impl ArgcTag {
    pub fn is_meta_version(version: &str) -> (b: bool)
        ensures
            b == (version@ == META_VERSION@),
    {
        same_text(version, META_VERSION)
    }

    pub fn describe(description: &str) -> (line: String)
        ensures
            line@ == tag_line(DESCRIBE@, Seq::empty(), description@),
    {
        proof {
            reveal_strlit("");
        }
        assert(""@ =~= Seq::<char>::empty());
        Self::format(DESCRIBE, "", description)
    }

    pub fn meta_version(version: &str) -> (line: String)
        ensures
            line@ == meta_line(META_VERSION@, version@),
    {
        Self::meta(META_VERSION, version)
    }

    pub fn meta_author(author: &str) -> (line: String)
        ensures
            line@ == meta_line(META_AUTHOR@, author@),
    {
        Self::meta(META_AUTHOR, author)
    }

    pub fn meta_dotenv(dotenv: &str) -> (line: String)
        ensures
            line@ == meta_line(META_DOTENV@, dotenv@),
    {
        Self::meta(META_DOTENV, dotenv)
    }

    pub fn meta_default_subcommand(cmd: &str) -> (line: String)
        ensures
            line@ == meta_line(META_DEFAULT_SUBCOMMAND@, cmd@),
    {
        Self::meta(META_DEFAULT_SUBCOMMAND, cmd)
    }

    /// The tools are listed with a comma between each two.
    pub fn meta_require_tools(require_tools: &[String]) -> (line: String)
        ensures
            line@ == meta_line(META_REQUIRE_TOOLS@, joined(texts(require_tools@), ',')),
    {
        let list = join(require_tools, ',');
        Self::meta(META_REQUIRE_TOOLS, list.as_str())
    }

    /// The section is written as a decimal number.
    pub fn meta_man_section(man_section: u8) -> (line: String)
        ensures
            line@ == meta_line(META_MAN_SECTION@, decimal(man_section as nat)),
    {
        let mut number = String::new();
        push_decimal(&mut number, man_section as usize);
        assert(number@ =~= decimal(man_section as nat));
        Self::meta(META_MAN_SECTION, number.as_str())
    }

    pub fn meta_inherit_flag_options() -> (line: String)
        ensures
            line@ == meta_line(META_INHERIT_FLAG_OPTIONS@, Seq::empty()),
    {
        proof {
            reveal_strlit("");
        }
        assert(""@ =~= Seq::<char>::empty());
        Self::meta(META_INHERIT_FLAG_OPTIONS, "")
    }

    pub fn meta_combine_shorts() -> (line: String)
        ensures
            line@ == meta_line(META_COMBINE_SHORTS@, Seq::empty()),
    {
        proof {
            reveal_strlit("");
        }
        assert(""@ =~= Seq::<char>::empty());
        Self::meta(META_COMBINE_SHORTS, "")
    }

    pub fn meta_symbol(symbol: &str) -> (line: String)
        ensures
            line@ == meta_line(META_SYMBOL@, symbol@),
    {
        Self::meta(META_SYMBOL, symbol)
    }

    pub fn meta(name: &str, value: &str) -> (line: String)
        ensures
            line@ == meta_line(name@, value@),
    {
        Self::format(META, name, value)
    }

    pub fn format(key: &str, name: &str, value: &str) -> (line: String)
        ensures
            line@ == tag_line(key@, name@, value@),
    {
        let mut line = String::new();
        line.push('#');
        line.push(' ');
        line.push('@');
        assert(line@ =~= tag_prefix());
        let mut written = false;
        if !key.is_empty() {
            line.append(key);
            written = true;
        }
        if !name.is_empty() {
            if written {
                line.push(' ');
            }
            line.append(name);
            written = true;
        }
        if !value.is_empty() {
            if written {
                line.push(' ');
            }
            line.append(value);
        }
        assert(line@ =~= tag_line(key@, name@, value@));
        line
    }
}

} // verus!
