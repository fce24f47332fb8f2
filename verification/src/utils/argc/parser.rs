//! The tokenizer: one event for each line of a source script.
//!
//! A line is a directive when it begins with one or more `#`, then any
//! number of spaces and tabs, then `@`. What follows the `@` decides the
//! event:
//!
//! | after the `@`                  | event                                   |
//! |--------------------------------|-----------------------------------------|
//! | `include`, blanks, a path      | `Include` with the path, trimmed        |
//! | `include` and nothing more     | none: the line cannot be read           |
//! | `meta`, blanks, a key          | `Meta` with the key and an empty value  |
//! | `meta`, blanks, a key, a value | `Meta` with the key and the value       |
//! | anything else                  | `Unknown` with `# @` and what follows   |
//!
//! A key is made of ASCII letters and digits, `_`, `-`, `.` and `:`, and is
//! followed by a blank or by the end of the line. A `meta` directive that
//! is not of this shape is not refused: it passes through like any unknown
//! directive. Every line that is no directive passes through as it is.
//!
//! Each line is read on its own, so the events stand in the order of the
//! lines and carry their numbers.
use vstd::prelude::*;
use vstd::string::{StrSliceExecFns, StringExecFns};
use crate::utils::argc::tag::{tag_prefix, INCLUDE, META};
use crate::utils::text::{
    begins_with, chars_of, decimal, is_blank, lemma_run_len_bound, lines_of, lines_view,
    push_decimal, push_range, run_len, scan, split_lines, text_of, text_of_range, trim,
    trim_bounds, trim_end, trim_end_bound, CharClass,
};

verus! {

#[derive(Debug, PartialEq, Eq, Clone)]
pub struct Event {
    pub position: Position,
    pub data: EventData,
}

/// The number of a line in the source, counted from 1.
pub type Position = usize;

#[derive(Debug, PartialEq, Eq, Clone)]
pub enum EventData {
    /// Metadata: a key and a value, which may be empty.
    Meta(String, String),
    /// Another file to splice in, by its path.
    Include(String),
    /// A line that is no recognized directive.
    Unknown(String),
}

/// What an [`EventData`] holds, as mathematical text.
pub enum Token {
    Meta(Seq<char>, Seq<char>),
    Include(Seq<char>),
    Unknown(Seq<char>),
}

/// What an [`Event`] holds: the token and the line it came from.
pub struct Located {
    pub position: nat,
    pub token: Token,
}

impl Token {
    /// What holds of every token that the tokenizer gives: the path of an
    /// `Include` is not empty, and the key of a `Meta` is not empty and
    /// made of name characters.
    pub open spec fn well_formed(self) -> bool {
        match self {
            Token::Include(path) => path.len() > 0,
            Token::Meta(key, value) => key.len() > 0 && forall|i: int|
                0 <= i < key.len() ==> CharClass::Name.has(#[trigger] key[i]),
            Token::Unknown(text) => true,
        }
    }
}

/// What holds of the events of a source: they carry the numbers of their
/// lines, counted from 1, and their tokens are well formed.
pub open spec fn well_formed_events(events: Seq<Located>) -> bool {
    forall|i: int|
        0 <= i < events.len() ==> (#[trigger] events[i]).position == i + 1
            && events[i].token.well_formed()
}

impl View for EventData {
    type V = Token;

    open spec fn view(&self) -> Token {
        match *self {
            EventData::Meta(key, value) => Token::Meta(key@, value@),
            EventData::Include(path) => Token::Include(path@),
            EventData::Unknown(text) => Token::Unknown(text@),
        }
    }
}

impl View for Event {
    type V = Located;

    open spec fn view(&self) -> Located {
        Located { position: self.position as nat, token: self.data@ }
    }
}

/// Why a directive could not be read.
#[derive(Debug, PartialEq, Eq, Clone, Copy)]
pub enum SyntaxReason {
    /// `@include` names no file.
    MissingIncludePath,
}

/// A directive that could not be read, with the number of its line.
#[derive(Debug, PartialEq, Eq, Clone, Copy)]
pub struct ParseError {
    pub line: Position,
    pub reason: SyntaxReason,
}

/// What a [`ParseError`] holds.
pub struct SyntaxFault {
    pub line: nat,
    pub reason: SyntaxReason,
}

impl View for ParseError {
    type V = SyntaxFault;

    open spec fn view(&self) -> SyntaxFault {
        SyntaxFault { line: self.line as nat, reason: self.reason }
    }
}

impl ParseError {
    /// What is reported of the error: the number of the line.
    pub fn message(&self) -> (text: String)
        ensures
            text@ == "syntax error at line "@ + decimal(self.line as nat),
    {
        let mut text = String::from_str("syntax error at line ");
        push_decimal(&mut text, self.line);
        text
    }
}

/// The views of the events in `events`.
pub open spec fn events_view(events: Seq<Event>) -> Seq<Located> {
    events.map_values(|e: Event| e@)
}

/// What follows the `@` of a directive line; `None` for any other line.
pub open spec fn directive_body(line: Seq<char>) -> Option<Seq<char>> {
    let hashes = run_len(line, CharClass::Hash);
    let at = hashes + run_len(line.skip(hashes as int), CharClass::Blank);
    if hashes >= 1 && at < line.len() && line[at as int] == '@' {
        Some(line.skip(at as int + 1))
    } else {
        None
    }
}

/// The argument that follows a keyword: nothing at all, or spaces and tabs
/// and then the rest of the line, trimmed. `None` where the keyword runs on.
pub open spec fn tail_text(rest: Seq<char>) -> Option<Seq<char>> {
    if rest.len() == 0 {
        Some(Seq::empty())
    } else if is_blank(rest[0]) {
        Some(trim(rest))
    } else {
        None
    }
}

/// The path of an `include` directive, empty where none is given; `None`
/// where `body` is no `include` directive.
pub open spec fn include_path(body: Seq<char>) -> Option<Seq<char>> {
    if INCLUDE@.is_prefix_of(body) {
        tail_text(body.skip(INCLUDE@.len() as int))
    } else {
        None
    }
}

/// A key and its value: the key is the run of name characters at the
/// front, the value what follows it, trimmed.
pub open spec fn key_value(input: Seq<char>) -> Option<(Seq<char>, Seq<char>)> {
    let text = trim_end(input);
    let n = run_len(text, CharClass::Name) as int;
    if n == 0 {
        None
    } else {
        match tail_text(text.skip(n)) {
            Some(value) => Some((text.take(n), value)),
            None => None,
        }
    }
}

/// The key and value of a `meta` directive; `None` where `body` is no
/// well-formed `meta` directive.
pub open spec fn meta_pair(body: Seq<char>) -> Option<(Seq<char>, Seq<char>)> {
    let tail = body.skip(META@.len() as int);
    if META@.is_prefix_of(body) && tail.len() > 0 && is_blank(tail[0]) {
        key_value(tail.skip(run_len(tail, CharClass::Blank) as int))
    } else {
        None
    }
}

/// The token of a directive, from what follows its `@`.
pub open spec fn tag_token(body: Seq<char>) -> Result<Token, SyntaxReason> {
    match include_path(body) {
        Some(path) => if path.len() == 0 {
            Err(SyntaxReason::MissingIncludePath)
        } else {
            Ok(Token::Include(path))
        },
        None => match meta_pair(body) {
            Some((key, value)) => Ok(Token::Meta(key, value)),
            None => Ok(Token::Unknown(tag_prefix() + body)),
        },
    }
}

/// The token of one line.
pub open spec fn line_token(line: Seq<char>) -> Result<Token, SyntaxReason> {
    match directive_body(line) {
        Some(body) => tag_token(body),
        None => Ok(Token::Unknown(line)),
    }
}

/// Line `i` is the first that cannot be read.
pub open spec fn first_fault(lines: Seq<Seq<char>>, i: int) -> bool {
    &&& 0 <= i < lines.len()
    &&& line_token(lines[i]) is Err
    &&& forall|j: int| 0 <= j < i ==> (#[trigger] line_token(lines[j])) is Ok
}

/// The events of a source: one for each line, in order, each with the number
/// of its line; or the first line that cannot be read.
pub open spec fn tokenize(source: Seq<char>) -> Result<Seq<Located>, SyntaxFault> {
    let lines = split_lines(source);
    if exists|i: int| first_fault(lines, i) {
        let i = choose|i: int| first_fault(lines, i);
        Err(SyntaxFault { line: (i + 1) as nat, reason: line_token(lines[i])->Err_0 })
    } else {
        Ok(
            Seq::new(
                lines.len(),
                |i: int| Located { position: (i + 1) as nat, token: line_token(lines[i])->Ok_0 },
            ),
        )
    }
}

/// Every token that a line gives is well formed.
pub proof fn lemma_token_is_well_formed(line: Seq<char>)
    ensures
        line_token(line) matches Ok(token) ==> token.well_formed(),
{
    if let Some(body) = directive_body(line) {
        if include_path(body) is None {
            if let Some((key, value)) = meta_pair(body) {
                let tail = body.skip(META@.len() as int);
                let input = tail.skip(run_len(tail, CharClass::Blank) as int);
                let text = trim_end(input);
                lemma_run_len_bound(text, CharClass::Name);
            }
        }
    }
}

pub open spec fn option_text(text: Option<String>) -> Option<Seq<char>> {
    match text {
        Some(s) => Some(s@),
        None => None,
    }
}

pub open spec fn option_pair(pair: Option<(String, String)>) -> Option<(Seq<char>, Seq<char>)> {
    match pair {
        Some((a, b)) => Some((a@, b@)),
        None => None,
    }
}

pub open spec fn token_view(r: Result<EventData, SyntaxReason>) -> Result<Token, SyntaxReason> {
    match r {
        Ok(data) => Ok(data@),
        Err(reason) => Err(reason),
    }
}

pub open spec fn parsed_view(r: Result<Vec<Event>, ParseError>) -> Result<
    Seq<Located>,
    SyntaxFault,
> {
    match r {
        Ok(events) => Ok(events_view(events@)),
        Err(e) => Err(e@),
    }
}

/// The punctuation that a metadata key may hold besides `_`.
pub fn is_special_var_char(c: char) -> (b: bool)
    ensures
        b == (c == '-' || c == '.' || c == ':'),
{
    c == '-' || c == '.' || c == ':'
}

/// Whether a metadata key may hold `c`.
pub fn is_name_char(c: char) -> (b: bool)
    ensures
        b == CharClass::Name.has(c),
{
    let n: u32 = c as u32;
    (0x30 <= n && n <= 0x39) || (0x41 <= n && n <= 0x5A) || (0x61 <= n && n <= 0x7A) || c == '_'
        || is_special_var_char(c)
}

/// Where the run of name characters that begins at `from` ends.
fn parse_name(line: &Vec<char>, from: usize, to: usize) -> (stop: usize)
    requires
        from <= to <= line.len(),
    ensures
        from <= stop <= to,
        stop == from + run_len(line@.subrange(from as int, to as int), CharClass::Name),
{
    scan(line, from, to, CharClass::Name)
}

/// The argument in `line[from..to]`, which follows a keyword or a key.
fn parse_tail(line: &Vec<char>, from: usize, to: usize) -> (tail: Option<String>)
    requires
        from <= to <= line.len(),
    ensures
        option_text(tail) == tail_text(line@.subrange(from as int, to as int)),
{
    if from == to {
        Some(String::new())
    } else if CharClass::Blank.contains(line[from]) {
        let (a, b) = trim_bounds(line, from, to);
        Some(text_of_range(line, a, b))
    } else {
        None
    }
}

/// The key and the value that the rest of the line from `from` holds.
fn parse_key_value(line: &Vec<char>, from: usize) -> (pair: Option<(String, String)>)
    requires
        from <= line.len(),
    ensures
        option_pair(pair) == key_value(line@.skip(from as int)),
{
    let ghost input = line@.skip(from as int);
    assert(input =~= line@.subrange(from as int, line.len() as int));
    let to = trim_end_bound(line, from, line.len());
    let ghost text = line@.subrange(from as int, to as int);
    let stop = parse_name(line, from, to);
    if stop == from {
        return None;
    }
    assert(text.skip(stop - from) =~= line@.subrange(stop as int, to as int));
    assert(text.take(stop - from) =~= line@.subrange(from as int, stop as int));
    match parse_tail(line, stop, to) {
        Some(value) => Some((text_of_range(line, from, stop), value)),
        None => None,
    }
}

/// Reads what follows the `@` at `from` as a `meta` directive.
fn parse_tag_meta(line: &Vec<char>, from: usize) -> (pair: Option<(String, String)>)
    requires
        from <= line.len(),
    ensures
        option_pair(pair) == meta_pair(line@.skip(from as int)),
{
    let len = line.len();
    let ghost body = line@.skip(from as int);
    assert(body =~= line@.subrange(from as int, len as int));
    if !begins_with(line, from, len, META) {
        return None;
    }
    let after = from + META.unicode_len();
    let ghost tail = body.skip(META@.len() as int);
    assert(tail =~= line@.subrange(after as int, len as int));
    if after == len || !CharClass::Blank.contains(line[after]) {
        return None;
    }
    let start = scan(line, after, len, CharClass::Blank);
    assert(tail.skip(start - after) =~= line@.skip(start as int));
    parse_key_value(line, start)
}

/// Reads what follows the `@` at `from` as an `include` directive; the
/// path comes back empty where none is given.
fn parse_tag_text(line: &Vec<char>, from: usize) -> (path: Option<String>)
    requires
        from <= line.len(),
    ensures
        option_text(path) == include_path(line@.skip(from as int)),
{
    let len = line.len();
    let ghost body = line@.skip(from as int);
    assert(body =~= line@.subrange(from as int, len as int));
    if !begins_with(line, from, len, INCLUDE) {
        return None;
    }
    let after = from + INCLUDE.unicode_len();
    assert(body.skip(INCLUDE@.len() as int) =~= line@.subrange(after as int, len as int));
    parse_tail(line, after, len)
}

/// What follows the `@` at `from`, passed through after `# @`.
fn parse_tag_unknown(line: &Vec<char>, from: usize) -> (data: EventData)
    requires
        from <= line.len(),
    ensures
        data@ == Token::Unknown(tag_prefix() + line@.skip(from as int)),
{
    let mut text = String::new();
    text.push('#');
    text.push(' ');
    text.push('@');
    assert(text@ =~= tag_prefix());
    push_range(&mut text, line, from, line.len());
    assert(line@.skip(from as int) =~= line@.subrange(from as int, line.len() as int));
    EventData::Unknown(text)
}

/// Reads the directive whose `@` stands right before `from`.
fn parse_tag(line: &Vec<char>, from: usize) -> (r: Result<EventData, SyntaxReason>)
    requires
        from <= line.len(),
    ensures
        token_view(r) == tag_token(line@.skip(from as int)),
{
    match parse_tag_text(line, from) {
        Some(path) => {
            if path.as_str().is_empty() {
                Err(SyntaxReason::MissingIncludePath)
            } else {
                Ok(EventData::Include(path))
            }
        },
        None => match parse_tag_meta(line, from) {
            Some((key, value)) => Ok(EventData::Meta(key, value)),
            None => Ok(parse_tag_unknown(line, from)),
        },
    }
}

/// Reads one line, given as its characters.
pub fn classify(line: &Vec<char>) -> (r: Result<EventData, SyntaxReason>)
    ensures
        token_view(r) == line_token(line@),
{
    let len = line.len();
    assert(line@.subrange(0, len as int) =~= line@);
    let hashes = scan(line, 0, len, CharClass::Hash);
    if hashes == 0 {
        return Ok(EventData::Unknown(text_of(line)));
    }
    assert(line@.skip(hashes as int) =~= line@.subrange(hashes as int, len as int));
    let at = scan(line, hashes, len, CharClass::Blank);
    if at < len && line[at] == '@' {
        parse_tag(line, at + 1)
    } else {
        Ok(EventData::Unknown(text_of(line)))
    }
}

/// Reads one line.
pub fn parse_line(line: &str) -> (r: Result<EventData, SyntaxReason>)
    ensures
        token_view(r) == line_token(line@),
{
    let chars = chars_of(line);
    classify(&chars)
}

/// Tokenizes a source script: one event for each of its lines, in order,
/// each with the number of its line. The first directive that cannot be
/// read ends it with that line's number.
pub fn parse(source: &str) -> (r: Result<Vec<Event>, ParseError>)
    ensures
        parsed_view(r) == tokenize(source@),
        r matches Ok(events) ==> {
            &&& events.len() == split_lines(source@).len()
            &&& well_formed_events(events_view(events@))
        },
{
    let chars = chars_of(source);
    let lines = lines_of(&chars);
    let ghost ls = split_lines(source@);
    let mut result: Vec<Event> = Vec::new();
    let mut idx: usize = 0;
    while idx < lines.len()
        invariant
            idx <= lines.len(),
            ls == split_lines(source@),
            lines_view(lines@) == ls,
            result.len() == idx,
            forall|j: int| 0 <= j < idx ==> (#[trigger] line_token(ls[j])) is Ok,
            forall|j: int|
                0 <= j < idx ==> (#[trigger] result@[j])@ == (Located {
                    position: (j + 1) as nat,
                    token: line_token(ls[j])->Ok_0,
                }),
        decreases lines.len() - idx,
    {
        assert(ls[idx as int] == lines@[idx as int]@);
        match classify(&lines[idx]) {
            Ok(data) => {
                result.push(Event { position: idx + 1, data });
            },
            Err(reason) => {
                proof {
                    assert(first_fault(ls, idx as int));
                    let i = choose|i: int| first_fault(ls, i);
                    assert(i == idx) by {
                        if i < idx {
                            assert(line_token(ls[i]) is Ok);
                        }
                    }
                }
                return Err(ParseError { line: idx + 1, reason });
            },
        }
        idx += 1;
    }
    proof {
        assert forall|i: int| !first_fault(ls, i) by {
            if 0 <= i < ls.len() {
                assert(line_token(ls[i]) is Ok);
            }
        }
        assert(events_view(result@) =~= tokenize(source@)->Ok_0);
        assert forall|i: int| 0 <= i < result.len() implies (#[trigger] events_view(
            result@,
        )[i]).token.well_formed() by {
            assert(result@[i]@.token == line_token(ls[i])->Ok_0);
            lemma_token_is_well_formed(ls[i]);
        }
    }
    Ok(result)
}

} // verus!
