//! What holds of the tokenizer and the assembler together, proved from
//! their definitions.
use vstd::prelude::*;
use crate::commands::assembler::{
    argc_hook, assembled, body_text, event_text, expanded, first_missing, is_missing,
    with_newlines, BuildFault,
};
use crate::utils::argc::parser::{
    directive_body, first_fault, include_path, key_value, lemma_token_is_well_formed,
    line_token, meta_pair, tag_token, tail_text, tokenize, well_formed_events, Located,
    SyntaxFault, SyntaxReason, Token,
};
use crate::utils::argc::tag::{meta_line, spaced, tag_prefix, INCLUDE, META, META_VERSION};
use crate::utils::text::{
    back_run_len, lemma_back_run_len_bound, lemma_back_run_len_is, lemma_run_len_bound,
    lemma_run_len_is, run_len, split_lines, strip_cr, trim, trim_end, trim_start, CharClass,
};

verus! {

/// No line of the source is a directive.
pub open spec fn is_plain(source: Seq<char>) -> bool {
    forall|i: int|
        0 <= i < split_lines(source).len() ==> directive_body(
            #[trigger] split_lines(source)[i],
        ) is None
}

/// A carriage return and then a line feed stand at `i - 1` and `i`.
pub open spec fn ends_with_cr_lf_at(source: Seq<char>, i: int) -> bool {
    0 < i < source.len() && source[i - 1] == '\r' && source[i] == '\n'
}

/// Every line of the source is closed by a line feed, and by nothing more:
/// no carriage return stands before a line feed.
pub open spec fn has_plain_line_ends(source: Seq<char>) -> bool {
    &&& source.len() == 0 || source.last() == '\n'
    &&& forall|i: int| !#[trigger] ends_with_cr_lf_at(source, i)
}

/// Tokenizing yields one event for each line of the source, in order, each
/// with the number of its line, counted from 1.
pub proof fn law_one_event_per_line(source: Seq<char>)
    ensures
        tokenize(source) matches Ok(events) ==> {
            &&& events.len() == split_lines(source).len()
            &&& forall|i: int| 0 <= i < events.len() ==> (#[trigger] events[i]).position == i + 1
        },
{
}

/// The events of a source are well formed: each carries the number of
/// its line, the path of an `include` event is never empty, and the key of
/// a `meta` event is never empty and made of name characters.
pub proof fn law_events_are_well_formed(source: Seq<char>)
    ensures
        tokenize(source) matches Ok(events) ==> well_formed_events(events),
{
    if let Ok(events) = tokenize(source) {
        let lines = split_lines(source);
        assert forall|i: int| 0 <= i < events.len() implies (#[trigger] events[i]).position == i
            + 1 && events[i].token.well_formed() by {
            law_lines_are_read_alone(source, i);
            lemma_token_is_well_formed(lines[i]);
        }
    }
}

/// A line that passes through as unknown text passes through unchanged
/// when that text is read as a line again.
pub proof fn law_unknown_is_fixed_point(line: Seq<char>)
    ensures
        line_token(line) matches Ok(Token::Unknown(text)) ==> line_token(text) == Ok::<Token, SyntaxReason>(
            Token::Unknown(text),
        ),
{
    if let Some(body) = directive_body(line) {
        if let Ok(Token::Unknown(text)) = tag_token(body) {
            assert(text == tag_prefix() + body);
            lemma_rewritten_directive(body);
        }
    }
}

/// `# @` and then `body` is a directive line whose body is `body`.
proof fn lemma_rewritten_directive(body: Seq<char>)
    ensures
        directive_body(tag_prefix() + body) == Some(body),
{
    let text = tag_prefix() + body;
    assert(text[0] == '#' && text[1] == ' ' && text[2] == '@');
    lemma_run_len_is(text, CharClass::Hash, 1);
    let rest = text.skip(1);
    assert(rest[0] == ' ' && rest[1] == '@');
    lemma_run_len_is(rest, CharClass::Blank, 1);
    assert(text.skip(3) =~= body);
}

/// A text without a line feed, and not empty, is one line.
proof fn lemma_single_line(text: Seq<char>)
    requires
        text.len() > 0,
        forall|i: int| 0 <= i < text.len() ==> text[i] != '\n',
    ensures
        split_lines(text) == seq![text],
{
    lemma_run_len_is(text, CharClass::LineBody, text.len() as int);
}

/// No line of a source holds a line feed.
proof fn lemma_lines_hold_no_line_feed(source: Seq<char>, i: int)
    requires
        0 <= i < split_lines(source).len(),
    ensures
        forall|k: int|
            0 <= k < split_lines(source)[i].len() ==> (#[trigger] split_lines(source)[i][k])
                != '\n',
    decreases source.len(),
{
    let n = run_len(source, CharClass::LineBody) as int;
    lemma_run_len_bound(source, CharClass::LineBody);
    if source.len() > 0 && n < source.len() {
        if i == 0 {
            let line = strip_cr(source.take(n));
            assert forall|k: int| 0 <= k < line.len() implies (#[trigger] line[k]) != '\n' by {
                assert(line[k] == source[k]);
            }
        } else {
            let rest = source.skip(n + 1);
            assert(split_lines(source)[i] == split_lines(rest)[i - 1]);
            lemma_lines_hold_no_line_feed(rest, i - 1);
        }
    }
}

/// The unknown text that a line of a source gives, tokenized as a source
/// of its own, gives that same unknown text again, as its first and only
/// event. This holds of every directive that passes through, and of every
/// other line but the empty one, which as a source has no line at all.
pub proof fn law_unknown_text_tokenizes_to_itself(source: Seq<char>, i: int)
    requires
        0 <= i < split_lines(source).len(),
    ensures
        line_token(split_lines(source)[i]) matches Ok(Token::Unknown(text)) ==> {
            &&& directive_body(split_lines(source)[i]) is Some ==> text.len() > 0
            &&& text.len() > 0 ==> tokenize(text) == Ok::<Seq<Located>, SyntaxFault>(
                seq![Located { position: 1, token: Token::Unknown(text) }],
            )
        },
{
    let line = split_lines(source)[i];
    lemma_lines_hold_no_line_feed(source, i);
    if let Ok(Token::Unknown(text)) = line_token(line) {
        if text.len() > 0 {
            law_unknown_is_fixed_point(line);
            assert forall|k: int| 0 <= k < text.len() implies text[k] != '\n' by {
                if let Some(body) = directive_body(line) {
                    assert(text == tag_prefix() + body);
                    let hashes = run_len(line, CharClass::Hash);
                    let at = hashes + run_len(line.skip(hashes as int), CharClass::Blank);
                    if k >= 3 {
                        assert(text[k] == body[k - 3]);
                        assert(body[k - 3] == line[at + 1 + k - 3]);
                    }
                } else {
                    assert(text[k] == line[k]);
                }
            }
            lemma_single_line(text);
            let lines = split_lines(text);
            assert(lines[0] == text);
            assert forall|j: int| !first_fault(lines, j) by {}
            assert(tokenize(text)->Ok_0 =~= seq![
                Located { position: 1, token: Token::Unknown(text) },
            ]);
        }
    }
}

/// The lines of a list that begins with `first`, each closed by a line feed.
proof fn lemma_with_newlines_front(first: Seq<char>, rest: Seq<Seq<char>>)
    ensures
        with_newlines(seq![first] + rest) == first.push('\n') + with_newlines(rest),
    decreases rest.len(),
{
    let all = seq![first] + rest;
    if rest.len() == 0 {
        assert(all.drop_last() =~= Seq::<Seq<char>>::empty());
        assert(with_newlines(all.drop_last()) =~= Seq::<char>::empty());
        assert(all.last() == first);
        assert(with_newlines(rest) =~= Seq::<char>::empty());
        assert(with_newlines(all) =~= first.push('\n'));
        assert(first.push('\n') + with_newlines(rest) =~= first.push('\n'));
    } else {
        assert(all.drop_last() =~= seq![first] + rest.drop_last());
        assert(all.last() == rest.last());
        lemma_with_newlines_front(first, rest.drop_last());
        assert(with_newlines(all) =~= first.push('\n') + with_newlines(rest));
    }
}

/// Cutting a text with plain line ends into lines and closing each line
/// with a line feed gives the text back.
proof fn lemma_lines_rejoin(source: Seq<char>)
    requires
        has_plain_line_ends(source),
    ensures
        with_newlines(split_lines(source)) == source,
    decreases source.len(),
{
    if source.len() == 0 {
        assert(with_newlines(split_lines(source)) =~= source);
    } else {
        let n = run_len(source, CharClass::LineBody) as int;
        lemma_run_len_bound(source, CharClass::LineBody);
        if n >= source.len() {
            assert(CharClass::LineBody.has(source[source.len() - 1]));
        }
        let line = source.take(n);
        let rest = source.skip(n + 1);
        assert(source[n] == '\n');
        assert(strip_cr(line) == line) by {
            if n > 0 {
                assert(line.last() == source[n - 1]);
                assert(!ends_with_cr_lf_at(source, n));
            }
        }
        assert(has_plain_line_ends(rest)) by {
            if rest.len() > 0 {
                assert(rest.last() == source.last());
            }
            assert forall|i: int| !#[trigger] ends_with_cr_lf_at(rest, i) by {
                if 0 < i < rest.len() {
                    assert(rest[i] == source[n + 1 + i]);
                    assert(rest[i - 1] == source[n + 1 + i - 1]);
                    assert(!ends_with_cr_lf_at(source, n + 1 + i));
                }
            }
        }
        lemma_lines_rejoin(rest);
        lemma_with_newlines_front(line, split_lines(rest));
        assert(line.push('\n') + rest =~= source);
    }
}

/// What unknown events alone contribute is their texts, each closed by a
/// line feed.
proof fn lemma_body_of_plain_lines(
    lines: Seq<Seq<char>>,
    includes: Map<Seq<char>, Seq<char>>,
    version: Option<Seq<char>>,
)
    ensures
        body_text(
            Seq::new(
                lines.len(),
                |i: int| Located { position: (i + 1) as nat, token: Token::Unknown(lines[i]) },
            ),
            includes,
            version,
        ) == with_newlines(lines),
    decreases lines.len(),
{
    let events = Seq::new(
        lines.len(),
        |i: int| Located { position: (i + 1) as nat, token: Token::Unknown(lines[i]) },
    );
    if lines.len() > 0 {
        let front = lines.drop_last();
        lemma_body_of_plain_lines(front, includes, version);
        assert(events.drop_last() =~= Seq::new(
            front.len(),
            |i: int| Located { position: (i + 1) as nat, token: Token::Unknown(front[i]) },
        ));
        assert(events.last().token == Token::Unknown(lines.last()));
    }
}

/// A source without directives, whose lines are each closed by a line
/// feed alone, comes out of tokenizing and assembling as it went in, with
/// the hook after it. Which files can be included, and which version is
/// stamped, makes no difference.
pub proof fn law_plain_round_trip(
    source: Seq<char>,
    includes: Map<Seq<char>, Seq<char>>,
    version: Option<Seq<char>>,
)
    requires
        is_plain(source),
        has_plain_line_ends(source),
    ensures
        expanded(source, includes, version) == Ok::<Seq<char>, BuildFault>(source + argc_hook()),
{
    let lines = split_lines(source);
    assert forall|i: int| 0 <= i < lines.len() implies line_token(lines[i]) == Ok::<Token, SyntaxReason>(
        Token::Unknown(lines[i]),
    ) by {
        assert(directive_body(lines[i]) is None);
    }
    assert forall|i: int| !first_fault(lines, i) by {}
    let events = tokenize(source)->Ok_0;
    let plain = Seq::new(
        lines.len(),
        |i: int| Located { position: (i + 1) as nat, token: Token::Unknown(lines[i]) },
    );
    assert(events =~= plain);
    assert forall|i: int| !first_missing(events, includes, i) by {}
    lemma_body_of_plain_lines(lines, includes, version);
    lemma_lines_rejoin(source);
}


/// Where some line cannot be read, one of them is the first.
proof fn lemma_some_fault_is_first(lines: Seq<Seq<char>>, i: int)
    requires
        0 <= i < lines.len(),
        line_token(lines[i]) is Err,
    ensures
        exists|k: int| first_fault(lines, k),
    decreases i,
{
    if exists|j: int| 0 <= j < i && line_token(lines[j]) is Err {
        let j = choose|j: int| 0 <= j < i && line_token(lines[j]) is Err;
        lemma_some_fault_is_first(lines, j);
    } else {
        assert(first_fault(lines, i));
    }
}

/// Every line is read on its own: the token of an event is that of its
/// line alone, whatever stands around it.
pub proof fn law_lines_are_read_alone(source: Seq<char>, i: int)
    requires
        0 <= i < split_lines(source).len(),
    ensures
        tokenize(source) matches Ok(events) ==> line_token(split_lines(source)[i]) == Ok::<
            Token,
            SyntaxReason,
        >(events[i].token),
{
    if line_token(split_lines(source)[i]) is Err {
        lemma_some_fault_is_first(split_lines(source), i);
    }
}

/// Tokenizing fails exactly when some line cannot be read, and it then
/// reports the first such line.
pub proof fn law_first_fault_is_reported(source: Seq<char>)
    ensures
        tokenize(source) is Err <==> exists|i: int|
            0 <= i < split_lines(source).len() && (#[trigger] line_token(split_lines(source)[i]))
                is Err,
        tokenize(source) matches Err(fault) ==> first_fault(split_lines(source), fault.line - 1),
{
    let lines = split_lines(source);
    if exists|i: int| 0 <= i < lines.len() && (#[trigger] line_token(lines[i])) is Err {
        let i = choose|i: int| 0 <= i < lines.len() && (#[trigger] line_token(lines[i])) is Err;
        lemma_some_fault_is_first(lines, i);
    }
    if exists|k: int| first_fault(lines, k) {
        let k = choose|k: int| first_fault(lines, k);
        assert(line_token(lines[k]) is Err);
    }
}

/// Only an `include` directive that names no file cannot be read: every
/// other line, a malformed `meta` directive too, gives an event.
pub proof fn law_only_include_without_path_fails(line: Seq<char>)
    ensures
        line_token(line) is Err <==> (directive_body(line) matches Some(body) && include_path(body)
            == Some(Seq::<char>::empty())),
        line_token(line) matches Err(reason) ==> reason == SyntaxReason::MissingIncludePath,
{
    if let Some(body) = directive_body(line) {
        if let Some(path) = include_path(body) {
            if path.len() == 0 {
                assert(path =~= Seq::<char>::empty());
            }
        }
    }
}

/// With a version to stamp, a `version` metadata line carries that version,
/// whatever value the source declares.
pub proof fn law_version_is_stamped(
    declared: Seq<char>,
    includes: Map<Seq<char>, Seq<char>>,
    version: Seq<char>,
)
    ensures
        event_text(Token::Meta(META_VERSION@, declared), includes, Some(version)) == meta_line(
            META_VERSION@,
            version,
        ).push('\n'),
{
}

/// Unknown text is written out as it is, and closed by a line feed.
pub proof fn law_unknown_text_is_emitted_verbatim(
    text: Seq<char>,
    includes: Map<Seq<char>, Seq<char>>,
    version: Option<Seq<char>>,
)
    ensures
        event_text(Token::Unknown(text), includes, version) == text.push('\n'),
{
}

/// What a sequence of events contributes is what its front contributes
/// and then what its back contributes: the order of the events is the
/// order of the output, and each event has one block of its own.
pub proof fn law_assembly_keeps_order(
    front: Seq<Located>,
    back: Seq<Located>,
    includes: Map<Seq<char>, Seq<char>>,
    version: Option<Seq<char>>,
)
    ensures
        body_text(front + back, includes, version) == body_text(front, includes, version)
            + body_text(back, includes, version),
    decreases back.len(),
{
    if back.len() == 0 {
        assert(front + back =~= front);
        assert(body_text(front, includes, version) + body_text(back, includes, version)
            =~= body_text(front, includes, version));
    } else {
        let all = front + back;
        assert(all.drop_last() =~= front + back.drop_last());
        assert(all.last() == back.last());
        law_assembly_keeps_order(front, back.drop_last(), includes, version);
        assert(body_text(all, includes, version) =~= body_text(front, includes, version)
            + body_text(back, includes, version));
    }
}

/// Where some event asks for a missing file, one of them is the first.
proof fn lemma_some_missing_is_first(
    events: Seq<Located>,
    includes: Map<Seq<char>, Seq<char>>,
    i: int,
)
    requires
        0 <= i < events.len(),
        is_missing(events[i].token, includes),
    ensures
        exists|k: int| first_missing(events, includes, k),
    decreases i,
{
    if exists|j: int| 0 <= j < i && is_missing(events[j].token, includes) {
        let j = choose|j: int| 0 <= j < i && is_missing(events[j].token, includes);
        lemma_some_missing_is_first(events, includes, j);
    } else {
        assert(first_missing(events, includes, i));
    }
}

/// The assembly fails exactly when some `include` names a file that is
/// not there; it then reports a missing file and hands out no text.
pub proof fn law_missing_include_is_fatal(
    events: Seq<Located>,
    includes: Map<Seq<char>, Seq<char>>,
    version: Option<Seq<char>>,
)
    ensures
        assembled(events, includes, version) is Err <==> exists|i: int|
            0 <= i < events.len() && is_missing(#[trigger] events[i].token, includes),
        assembled(events, includes, version) matches Err(fault) ==> fault
            is MissingIncludeFile && !includes.contains_key(fault->path),
{
    if exists|i: int| 0 <= i < events.len() && is_missing(#[trigger] events[i].token, includes) {
        let i = choose|i: int|
            0 <= i < events.len() && is_missing(#[trigger] events[i].token, includes);
        lemma_some_missing_is_first(events, includes, i);
    }
    if exists|k: int| first_missing(events, includes, k) {
        let k = choose|k: int| first_missing(events, includes, k);
        assert(is_missing(events[k].token, includes));
    }
}


/// A text that trimming leaves as it is has no whitespace at either end.
proof fn lemma_trimmed_has_no_space_at_its_ends(text: Seq<char>)
    requires
        trim(text) == text,
    ensures
        run_len(text, CharClass::Space) == 0,
        back_run_len(text, CharClass::Space) == 0,
{
    let front = run_len(text, CharClass::Space);
    lemma_run_len_bound(text, CharClass::Space);
    let rest = trim_start(text);
    lemma_back_run_len_bound(rest, CharClass::Space);
    assert(trim(text).len() == text.len() - front - back_run_len(rest, CharClass::Space));
    assert(rest =~= text);
}

/// A key and a value written with a space between them read back as
/// that key and that value.
proof fn lemma_key_value_reads_back(key: Seq<char>, value: Seq<char>)
    requires
        Token::Meta(key, value).well_formed(),
        trim(value) == value,
    ensures
        key_value(spaced(key, value)) == Some((key, value)),
{
    lemma_trimmed_has_no_space_at_its_ends(value);
    let pair = spaced(key, value);
    // the text ends in a character that is no whitespace
    assert(!CharClass::Space.has(pair.last())) by {
        if value.len() == 0 {
            assert(pair.last() == key.last());
            assert(CharClass::Name.has(key[key.len() - 1]));
        } else {
            assert(pair.last() == value.last());
            if CharClass::Space.has(value.last()) {
                assert(back_run_len(value, CharClass::Space) > 0);
            }
        }
    }
    lemma_back_run_len_is(pair, CharClass::Space, 0);
    assert(trim_end(pair) =~= pair);
    // the key is the run of name characters at its front
    assert forall|i: int| 0 <= i < key.len() implies CharClass::Name.has(#[trigger] pair[i]) by {
        assert(pair[i] == key[i]);
    }
    if value.len() > 0 {
        assert(pair[key.len() as int] == ' ');
    }
    lemma_run_len_is(pair, CharClass::Name, key.len() as int);
    assert(pair.take(key.len() as int) =~= key);
    let rest = pair.skip(key.len() as int);
    if value.len() == 0 {
        assert(value =~= Seq::<char>::empty());
        assert(tail_text(rest) == Some(Seq::<char>::empty()));
    } else {
        lemma_value_reads_back(value);
        assert(rest =~= seq![' '] + value);
    }
}

/// A value that has no whitespace at either end, written after a space,
/// reads back as that value.
proof fn lemma_value_reads_back(value: Seq<char>)
    requires
        value.len() > 0,
        trim(value) == value,
    ensures
        tail_text(seq![' '] + value) == Some(value),
{
    lemma_trimmed_has_no_space_at_its_ends(value);
    let rest = seq![' '] + value;
    assert(rest[0] == ' ');
    assert(!CharClass::Space.has(value[0])) by {
        if CharClass::Space.has(value[0]) {
            assert(run_len(value, CharClass::Space) > 0);
        }
    }
    assert(rest[1] == value[0]);
    lemma_run_len_is(rest, CharClass::Space, 1);
    assert(trim_start(rest) =~= value);
}

/// After the keyword `meta` and a space, what follows is read as a key
/// and a value.
proof fn lemma_meta_keyword_reads_back(pair: Seq<char>)
    requires
        pair.len() > 0,
        CharClass::Name.has(pair[0]),
    ensures
        meta_pair(META@.push(' ') + pair) == key_value(pair),
        include_path(META@.push(' ') + pair) is None,
{
    let body = META@.push(' ') + pair;
    assert(META@.is_prefix_of(body)) by {
        assert(body.subrange(0, META@.len() as int) =~= META@);
    }
    let tail = body.skip(META@.len() as int);
    assert(tail =~= seq![' '] + pair);
    assert(tail[0] == ' ');
    assert(tail[1] == pair[0]);
    lemma_run_len_is(tail, CharClass::Blank, 1);
    assert(tail.skip(1) =~= pair);
    assert(!INCLUDE@.is_prefix_of(body)) by {
        reveal_strlit("meta");
        reveal_strlit("include");
        if INCLUDE@.is_prefix_of(body) {
            assert(INCLUDE@[0] == body.subrange(0, INCLUDE@.len() as int)[0]);
            assert(body[0] == META@[0]);
        }
    }
}

/// A metadata line that is written out reads back as the metadata it was
/// written from: the key, made of name characters, and the value, which
/// has no whitespace at either end.
pub proof fn law_meta_line_reads_back(key: Seq<char>, value: Seq<char>)
    requires
        Token::Meta(key, value).well_formed(),
        trim(value) == value,
    ensures
        line_token(meta_line(key, value)) == Ok::<Token, SyntaxReason>(Token::Meta(key, value)),
{
    let pair = spaced(key, value);
    assert(pair[0] == key[0]);
    assert(META@.len() > 0) by {
        reveal_strlit("meta");
    }
    let body = spaced(META@, pair);
    assert(body =~= META@.push(' ') + pair);
    lemma_rewritten_directive(body);
    lemma_meta_keyword_reads_back(pair);
    lemma_key_value_reads_back(key, value);
}

} // verus!
