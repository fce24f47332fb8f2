//! The assembler: from the events of a source script to the expanded script.
//!
//! Lines that are no directive pass through as they are, metadata is written
//! out again (the project's version in place of the declared one), and each
//! `include` is replaced by the file it names. A fixed hook closes the script.
use vstd::prelude::*;
use vstd::string::StringExecFns;
use crate::utils::argc::parser::{
    events_view, parse, tokenize, Event, EventData, Located, ParseError, SyntaxFault, Token,
};
use crate::utils::argc::tag::{meta_line, ArgcTag, META_VERSION};
use crate::utils::text::{
    chars_of, decimal, lines_of, lines_view, push_range, same_text, split_lines,
};

verus! {

/// The line that hands the finished script over to `argc`.
pub const ARGC_HOOK: &'static str = "eval \"$(argc --argc-eval \"$0\" \"$@\")\"";

/// The lines of `lines`, each closed by a line feed.
pub open spec fn with_newlines(lines: Seq<Seq<char>>) -> Seq<char>
    decreases lines.len(),
{
    if lines.len() == 0 {
        Seq::empty()
    } else {
        with_newlines(lines.drop_last()) + lines.last().push('\n')
    }
}

/// What stands in place of an `include` directive: a comment that names
/// the file, the lines of the file, and an empty line.
pub open spec fn include_block(filename: Seq<char>, content: Seq<char>) -> Seq<char> {
    (seq!['#', ' '] + filename).push('\n') + with_newlines(split_lines(content)).push('\n')
}

/// What closes every expanded script: two empty lines and the hook.
pub open spec fn argc_hook() -> Seq<char> {
    seq!['\n', '\n'] + ARGC_HOOK@.push('\n')
}

/// The files that `include` directives may name, each with its content.
pub struct Includes {
    files: Vec<(String, String)>,
}

/// The table that a list of files stands for; of two files with one path
/// the later counts.
pub open spec fn table(files: Seq<(String, String)>) -> Map<Seq<char>, Seq<char>>
    decreases files.len(),
{
    if files.len() == 0 {
        Map::empty()
    } else {
        table(files.drop_last()).insert(files.last().0@, files.last().1@)
    }
}

proof fn lemma_table_absent(files: Seq<(String, String)>, path: Seq<char>)
    requires
        forall|j: int| 0 <= j < files.len() ==> (#[trigger] files[j]).0@ != path,
    ensures
        !table(files).contains_key(path),
    decreases files.len(),
{
    if files.len() > 0 {
        let front = files.drop_last();
        assert forall|j: int| 0 <= j < front.len() implies (#[trigger] front[j]).0@ != path by {
            assert(front[j] == files[j]);
        }
        lemma_table_absent(front, path);
        assert(files.last() == files[files.len() - 1]);
    }
}

proof fn lemma_table_last_wins(files: Seq<(String, String)>, path: Seq<char>, i: int)
    requires
        0 <= i < files.len(),
        files[i].0@ == path,
        forall|j: int| i < j < files.len() ==> (#[trigger] files[j]).0@ != path,
    ensures
        table(files).contains_key(path),
        table(files)[path] == files[i].1@,
    decreases files.len(),
{
    if i < files.len() - 1 {
        let front = files.drop_last();
        assert forall|j: int| i < j < front.len() implies (#[trigger] front[j]).0@ != path by {
            assert(front[j] == files[j]);
        }
        lemma_table_last_wins(front, path, i);
        assert(files.last() == files[files.len() - 1]);
    }
}

impl View for Includes {
    type V = Map<Seq<char>, Seq<char>>;

    closed spec fn view(&self) -> Map<Seq<char>, Seq<char>> {
        table(self.files@)
    }
}

impl Includes {
    /// No file at all.
    pub fn new() -> (includes: Includes)
        ensures
            includes@ == Map::<Seq<char>, Seq<char>>::empty(),
    {
        Includes { files: Vec::new() }
    }

    /// Makes `content` the content of the file at `path`.
    pub fn insert(&mut self, path: String, content: String)
        ensures
            final(self)@ == old(self)@.insert(path@, content@),
    {
        self.files.push((path, content));
        assert(self.files@.drop_last() =~= old(self).files@);
    }

    /// The content of the file at `path`, if there is one.
    pub fn resolve(&self, path: &str) -> (content: Option<&String>)
        ensures
            match content {
                Some(text) => self@.contains_key(path@) && self@[path@] == text@,
                None => !self@.contains_key(path@),
            },
    {
        let mut i: usize = self.files.len();
        while i > 0
            invariant
                i <= self.files.len(),
                forall|j: int| i <= j < self.files.len() ==> (#[trigger] self.files@[j]).0@ != path@,
            decreases i,
        {
            i -= 1;
            if same_text(self.files[i].0.as_str(), path) {
                proof {
                    lemma_table_last_wins(self.files@, path@, i as int);
                }
                return Some(&self.files[i].1);
            }
        }
        proof {
            lemma_table_absent(self.files@, path@);
        }
        None
    }
}

/// The text that the assembler gathers.
pub struct BuildFile {
    inner: String,
}

impl View for BuildFile {
    type V = Seq<char>;

    closed spec fn view(&self) -> Seq<char> {
        self.inner@
    }
}

impl BuildFile {
    pub fn new() -> (file: BuildFile)
        ensures
            file@ == Seq::<char>::empty(),
    {
        BuildFile { inner: String::new() }
    }

    /// The text written so far.
    pub fn into_text(self) -> (text: String)
        ensures
            text@ == self@,
    {
        self.inner
    }

    pub fn writeln(&mut self, buf: &str)
        ensures
            final(self)@ == old(self)@ + buf@.push('\n'),
    {
        self.inner.append(buf);
        self.inner.push('\n');
        assert(self.inner@ =~= old(self).inner@ + buf@.push('\n'));
    }

    pub fn write_newline(&mut self)
        ensures
            final(self)@ == old(self)@.push('\n'),
    {
        self.inner.push('\n');
    }

    pub fn write_meta(&mut self, key: &str, value: &str)
        ensures
            final(self)@ == old(self)@ + meta_line(key@, value@).push('\n'),
    {
        let line = ArgcTag::meta(key, value);
        self.writeln(line.as_str());
    }

    pub fn write_meta_version(&mut self, version: &str)
        ensures
            final(self)@ == old(self)@ + meta_line(META_VERSION@, version@).push('\n'),
    {
        let line = ArgcTag::meta_version(version);
        self.writeln(line.as_str());
    }

    /// Writes the block that stands in place of an `include` directive:
    /// the file's content is copied line by line, and none of its lines is
    /// read as a directive.
    pub fn write_include_file(&mut self, filename: &str, content: &str)
        ensures
            final(self)@ == old(self)@ + include_block(filename@, content@),
    {
        self.inner.push('#');
        self.inner.push(' ');
        self.inner.append(filename);
        self.inner.push('\n');
        let ghost head = old(self).inner@ + (seq!['#', ' '] + filename@).push('\n');
        assert(self.inner@ =~= head);
        let chars = chars_of(content);
        let lines = lines_of(&chars);
        let ghost ls = split_lines(content@);
        let mut i: usize = 0;
        assert(ls.take(0) =~= Seq::<Seq<char>>::empty());
        while i < lines.len()
            invariant
                i <= lines.len(),
                lines_view(lines@) == ls,
                self.inner@ == head + with_newlines(ls.take(i as int)),
            decreases lines.len() - i,
        {
            let line = &lines[i];
            push_range(&mut self.inner, line, 0, line.len());
            self.inner.push('\n');
            i += 1;
            proof {
                let now = ls.take(i as int);
                assert(line@.subrange(0, line@.len() as int) =~= line@);
                assert(now.drop_last() =~= ls.take(i - 1));
                assert(now.last() == line@);
                assert(self.inner@ =~= head + with_newlines(now));
            }
        }
        assert(ls.take(i as int) =~= ls);
        self.inner.push('\n');
        assert(self.inner@ =~= old(self).inner@ + include_block(filename@, content@));
    }

    pub fn write_argc_hook(&mut self)
        ensures
            final(self)@ == old(self)@ + argc_hook(),
    {
        self.inner.push('\n');
        self.inner.push('\n');
        self.inner.append(ARGC_HOOK);
        self.inner.push('\n');
        assert(self.inner@ =~= old(self).inner@ + argc_hook());
    }
}


/// Why a script could not be built.
#[derive(Debug, PartialEq, Eq, Clone)]
pub enum BuildError {
    /// A directive of the source could not be read.
    SyntaxError(ParseError),
    /// An `include` directive names a file that is not there.
    MissingIncludeFile { path: String },
}

/// What a [`BuildError`] holds.
pub enum BuildFault {
    SyntaxError(SyntaxFault),
    MissingIncludeFile { path: Seq<char> },
}

impl View for BuildError {
    type V = BuildFault;

    open spec fn view(&self) -> BuildFault {
        match *self {
            BuildError::SyntaxError(e) => BuildFault::SyntaxError(e@),
            BuildError::MissingIncludeFile { path } => BuildFault::MissingIncludeFile { path: path@ },
        }
    }
}

/// What is reported of a fault: the line that could not be read, or the
/// path of the file that is missing.
pub open spec fn fault_message(fault: BuildFault) -> Seq<char> {
    match fault {
        BuildFault::SyntaxError(f) => "syntax error at line "@ + decimal(f.line),
        BuildFault::MissingIncludeFile { path } => "file not found: "@ + path,
    }
}

impl BuildError {
    pub fn message(&self) -> (text: String)
        ensures
            text@ == fault_message(self@),
    {
        match self {
            BuildError::SyntaxError(e) => e.message(),
            BuildError::MissingIncludeFile { path } => {
                let mut text = String::from_str("file not found: ");
                text.append(path.as_str());
                text
            },
        }
    }
}

pub open spec fn option_str(text: Option<&str>) -> Option<Seq<char>> {
    match text {
        Some(s) => Some(s@),
        None => None,
    }
}

pub open spec fn built_view(r: Result<String, BuildError>) -> Result<Seq<char>, BuildFault> {
    match r {
        Ok(text) => Ok(text@),
        Err(e) => Err(e@),
    }
}

/// What one event contributes to the expanded script. `version`, where
/// there is one, takes the place of the value of every `version` metadata.
pub open spec fn event_text(
    token: Token,
    includes: Map<Seq<char>, Seq<char>>,
    version: Option<Seq<char>>,
) -> Seq<char> {
    match token {
        Token::Unknown(text) => text.push('\n'),
        Token::Meta(key, value) => if key == META_VERSION@ && version is Some {
            meta_line(META_VERSION@, version->0).push('\n')
        } else {
            meta_line(key, value).push('\n')
        },
        Token::Include(path) => include_block(path, includes[path]),
    }
}

/// What the events contribute, one after the other.
pub open spec fn body_text(
    events: Seq<Located>,
    includes: Map<Seq<char>, Seq<char>>,
    version: Option<Seq<char>>,
) -> Seq<char>
    decreases events.len(),
{
    if events.len() == 0 {
        Seq::empty()
    } else {
        body_text(events.drop_last(), includes, version) + event_text(
            events.last().token,
            includes,
            version,
        )
    }
}

/// The token asks for a file that `includes` does not hold.
pub open spec fn is_missing(token: Token, includes: Map<Seq<char>, Seq<char>>) -> bool {
    token matches Token::Include(path) && !includes.contains_key(path)
}

/// Event `i` is the first that asks for a missing file.
pub open spec fn first_missing(
    events: Seq<Located>,
    includes: Map<Seq<char>, Seq<char>>,
    i: int,
) -> bool {
    &&& 0 <= i < events.len()
    &&& is_missing(events[i].token, includes)
    &&& forall|j: int| 0 <= j < i ==> !is_missing((#[trigger] events[j]).token, includes)
}

/// The expanded script of a sequence of events: what they contribute, in
/// order, and then the hook; or the first missing file.
pub open spec fn assembled(
    events: Seq<Located>,
    includes: Map<Seq<char>, Seq<char>>,
    version: Option<Seq<char>>,
) -> Result<Seq<char>, BuildFault> {
    if exists|i: int| first_missing(events, includes, i) {
        let i = choose|i: int| first_missing(events, includes, i);
        Err(BuildFault::MissingIncludeFile { path: events[i].token->Include_0 })
    } else {
        Ok(body_text(events, includes, version) + argc_hook())
    }
}

/// The expanded script of a source: its events, assembled; or the first
/// line that cannot be read.
pub open spec fn expanded(
    source: Seq<char>,
    includes: Map<Seq<char>, Seq<char>>,
    version: Option<Seq<char>>,
) -> Result<Seq<char>, BuildFault> {
    match tokenize(source) {
        Ok(events) => assembled(events, includes, version),
        Err(fault) => Err(BuildFault::SyntaxError(fault)),
    }
}

/// Assembles the expanded script from the events of a source.
///
/// Every event is written out in turn: an unknown line as it is, metadata
/// as a metadata line (with `version`, where it is given, as the value of
/// `version` metadata), an `include` as the block of the file it names.
/// Then comes the hook. The first `include` whose file `includes` does
/// not hold ends the assembly, and nothing is handed out.
pub fn assemble(events: &Vec<Event>, includes: &Includes, version: Option<&str>) -> (r: Result<
    String,
    BuildError,
>)
    ensures
        built_view(r) == assembled(events_view(events@), includes@, option_str(version)),
{
    let ghost evs = events_view(events@);
    let ghost ver = option_str(version);
    let mut file = BuildFile::new();
    let mut i: usize = 0;
    assert(evs.take(0) =~= Seq::<Located>::empty());
    while i < events.len()
        invariant
            i <= events.len(),
            evs == events_view(events@),
            ver == option_str(version),
            file@ == body_text(evs.take(i as int), includes@, ver),
            forall|j: int| 0 <= j < i ==> !is_missing((#[trigger] evs[j]).token, includes@),
        decreases events.len() - i,
    {
        let ghost before = file@;
        assert(evs[i as int] == events@[i as int]@);
        match &events[i].data {
            EventData::Include(filename) => {
                match includes.resolve(filename.as_str()) {
                    Some(content) => {
                        file.write_include_file(filename.as_str(), content.as_str());
                    },
                    None => {
                        proof {
                            assert(first_missing(evs, includes@, i as int));
                            let k = choose|k: int| first_missing(evs, includes@, k);
                            assert(k == i) by {
                                if k < i {
                                    assert(!is_missing(evs[k].token, includes@));
                                }
                            }
                        }
                        return Err(BuildError::MissingIncludeFile { path: filename.clone() });
                    },
                }
            },
            EventData::Meta(key, value) => {
                if ArgcTag::is_meta_version(key.as_str()) {
                    match version {
                        Some(v) => {
                            file.write_meta_version(v);
                        },
                        None => {
                            file.write_meta(key.as_str(), value.as_str());
                        },
                    }
                } else {
                    file.write_meta(key.as_str(), value.as_str());
                }
            },
            EventData::Unknown(value) => {
                file.writeln(value.as_str());
            },
        }
        i += 1;
        proof {
            let now = evs.take(i as int);
            assert(now.drop_last() =~= evs.take(i - 1));
            assert(now.last() == evs[i - 1]);
            assert(file@ == before + event_text(evs[i - 1].token, includes@, ver));
        }
    }
    proof {
        assert(evs.take(i as int) =~= evs);
        assert forall|k: int| !first_missing(evs, includes@, k) by {
            if 0 <= k < evs.len() {
                assert(!is_missing(evs[k].token, includes@));
            }
        }
    }
    file.write_argc_hook();
    Ok(file.into_text())
}

/// Expands a source script: tokenizes it and assembles its events.
pub fn expand(source: &str, includes: &Includes, version: Option<&str>) -> (r: Result<
    String,
    BuildError,
>)
    ensures
        built_view(r) == expanded(source@, includes@, option_str(version)),
{
    match parse(source) {
        Ok(events) => assemble(&events, includes, version),
        Err(e) => Err(BuildError::SyntaxError(e)),
    }
}

/// The paths that the `include` directives among `events` name, in order.
pub open spec fn include_paths_of(events: Seq<Located>) -> Seq<Seq<char>>
    decreases events.len(),
{
    if events.len() == 0 {
        Seq::empty()
    } else {
        match events.last().token {
            Token::Include(path) => include_paths_of(events.drop_last()).push(path),
            _ => include_paths_of(events.drop_last()),
        }
    }
}

/// The paths of the files that the assembly of `events` will ask for.
pub fn include_paths(events: &Vec<Event>) -> (paths: Vec<String>)
    ensures
        paths@.map_values(|p: String| p@) == include_paths_of(events_view(events@)),
{
    let ghost evs = events_view(events@);
    let mut paths: Vec<String> = Vec::new();
    let mut i: usize = 0;
    assert(evs.take(0) =~= Seq::<Located>::empty());
    assert(paths@.map_values(|p: String| p@) =~= Seq::<Seq<char>>::empty());
    while i < events.len()
        invariant
            i <= events.len(),
            evs == events_view(events@),
            paths@.map_values(|p: String| p@) == include_paths_of(evs.take(i as int)),
        decreases events.len() - i,
    {
        let ghost before = paths@.map_values(|p: String| p@);
        assert(evs[i as int] == events@[i as int]@);
        match &events[i].data {
            EventData::Include(filename) => {
                paths.push(filename.clone());
                assert(paths@.map_values(|p: String| p@) =~= before.push(filename@));
            },
            _ => {},
        }
        i += 1;
        proof {
            let now = evs.take(i as int);
            assert(now.drop_last() =~= evs.take(i - 1));
            assert(now.last() == evs[i - 1]);
        }
    }
    assert(evs.take(i as int) =~= evs);
    paths
}

} // verus!
