//! The distribution archive: its name, what goes into it and under which
//! paths, and the line of its checksum.
use vstd::prelude::*;
use vstd::string::StringExecFns;
use crate::config::Config;
use crate::utils::path::{path_strip_prefix, strip_path_prefix};

verus! {

/// The file name of the archive of `name` at `version`.
pub open spec fn archive_name_text(name: Seq<char>, version: Seq<char>) -> Seq<char> {
    name + "-v"@ + version + ".tar.gz"@
}

pub fn archive_name(name: &str, version: &str) -> (file: String)
    ensures
        file@ == archive_name_text(name@, version@),
{
    String::from_str(name).concat("-v").concat(version).concat(".tar.gz")
}

/// The name of the file that holds the checksum of the archive `filename`.
pub fn checksum_file_name(filename: &str) -> (file: String)
    ensures
        file@ == filename@ + ".sha256"@,
{
    String::from_str(filename).concat(".sha256")
}

/// The line of the checksum file: the checksum, a space, the name of the archive.
pub fn checksum_line(checksum: &str, filename: &str) -> (line: String)
    ensures
        line@ == (checksum@.push(' ') + filename@).push('\n'),
{
    let mut line = String::from_str(checksum);
    line.push(' ');
    line.append(filename);
    line.push('\n');
    line
}

/// What goes into the archive: the built programs, the shared files, and
/// what the project adds.
pub fn archive_sources(config: &Config) -> (sources: Vec<String>)
    ensures
        sources@.len() == 2 + config.dist.include_extra@.len(),
        sources@[0]@ == config.target_path("bin"@),
        sources@[1]@ == config.target_path("share"@),
        forall|i: int|
            0 <= i < config.dist.include_extra@.len() ==> (#[trigger] sources@[i + 2])@
                == config.dist.include_extra@[i]@,
{
    let mut sources: Vec<String> = Vec::new();
    sources.push(config.bin_dir());
    sources.push(config.share_dir());
    let mut extra = config.dist_include_extra_paths();
    let ghost extras = extra@;
    sources.append(&mut extra);
    assert forall|i: int| 0 <= i < config.dist.include_extra@.len() implies (
    #[trigger] sources@[i + 2])@ == config.dist.include_extra@[i]@ by {
        assert(sources@[i + 2] == extras[i]);
    }
    sources
}

/// The path of `path` inside the archive: what is under the target
/// directory loses that directory, anything else keeps its path.
pub open spec fn archive_path_text(config: Config, path: Seq<char>) -> Seq<char> {
    match path_strip_prefix(path, config.target_dir_path()) {
        Some(rest) => rest,
        None => path,
    }
}

pub fn archive_path(config: &Config, path: &str) -> (inside: String)
    ensures
        inside@ == archive_path_text(*config, path@),
{
    match strip_path_prefix(path, config.target_dir().as_str()) {
        Some(rest) => rest,
        None => String::from_str(path),
    }
}

} // verus!
