//! Character sequences: classes of characters, runs, trimming, lines and
//! decimal numbers, each with its mathematical definition over `Seq<char>`.
use vstd::prelude::*;
use vstd::string::StringExecFns;

verus! {

/// `String::push` of std appends one character to the end of the string.
pub assume_specification[ String::push ](s: &mut String, ch: char)
    ensures
        final(s)@ == old(s)@.push(ch),
;

/// The classes of characters that the directive grammar tells apart.
#[derive(Clone, Copy, Debug, PartialEq, Eq)]
pub enum CharClass {
    /// The comment marker `#`.
    Hash,
    /// Horizontal whitespace: a space or a tab.
    Blank,
    /// What a metadata key is made of: ASCII letters and digits, `_`, `-`, `.` and `:`.
    Name,
    /// Unicode whitespace, as `char::is_whitespace` of std knows it.
    Space,
    /// Anything but the line feed.
    LineBody,
}

pub open spec fn is_blank(c: char) -> bool {
    c == ' ' || c == '\t'
}

/// The code points that carry the Unicode property `White_Space`.
pub open spec fn is_whitespace(c: char) -> bool {
    let n = c as int;
    ||| 0x09 <= n <= 0x0D
    ||| n == 0x20
    ||| n == 0x85
    ||| n == 0xA0
    ||| n == 0x1680
    ||| 0x2000 <= n <= 0x200A
    ||| n == 0x2028
    ||| n == 0x2029
    ||| n == 0x202F
    ||| n == 0x205F
    ||| n == 0x3000
}

pub open spec fn is_ascii_alphanumeric(c: char) -> bool {
    let n = c as int;
    ||| 0x30 <= n <= 0x39
    ||| 0x41 <= n <= 0x5A
    ||| 0x61 <= n <= 0x7A
}

impl CharClass {
    /// Whether `c` belongs to the class.
    pub open spec fn has(self, c: char) -> bool {
        match self {
            CharClass::Hash => c == '#',
            CharClass::Blank => is_blank(c),
            CharClass::Name => is_ascii_alphanumeric(c) || c == '_' || c == '-' || c == '.' || c
                == ':',
            CharClass::Space => is_whitespace(c),
            CharClass::LineBody => c != '\n',
        }
    }

    pub fn contains(self, c: char) -> (b: bool)
        ensures
            b == self.has(c),
    {
        let n: u32 = c as u32;
        match self {
            CharClass::Hash => c == '#',
            CharClass::Blank => c == ' ' || c == '\t',
            CharClass::Name => (0x30 <= n && n <= 0x39) || (0x41 <= n && n <= 0x5A) || (0x61 <= n
                && n <= 0x7A) || c == '_' || c == '-' || c == '.' || c == ':',
            CharClass::Space => (0x09 <= n && n <= 0x0D) || n == 0x20 || n == 0x85 || n == 0xA0
                || n == 0x1680 || (0x2000 <= n && n <= 0x200A) || n == 0x2028 || n == 0x2029 || n
                == 0x202F || n == 0x205F || n == 0x3000,
            CharClass::LineBody => c != '\n',
        }
    }
}

/// How many characters at the front of `s` belong to `class`.
pub open spec fn run_len(s: Seq<char>, class: CharClass) -> nat
    decreases s.len(),
{
    if s.len() > 0 && class.has(s[0]) {
        1 + run_len(s.skip(1), class)
    } else {
        0
    }
}

/// How many characters at the back of `s` belong to `class`.
pub open spec fn back_run_len(s: Seq<char>, class: CharClass) -> nat
    decreases s.len(),
{
    if s.len() > 0 && class.has(s.last()) {
        1 + back_run_len(s.drop_last(), class)
    } else {
        0
    }
}

pub proof fn lemma_run_len_bound(s: Seq<char>, class: CharClass)
    ensures
        run_len(s, class) <= s.len(),
        run_len(s, class) < s.len() ==> !class.has(s[run_len(s, class) as int]),
        forall|i: int| 0 <= i < run_len(s, class) ==> class.has(#[trigger] s[i]),
    decreases s.len(),
{
    if s.len() > 0 && class.has(s[0]) {
        let t = s.skip(1);
        lemma_run_len_bound(t, class);
        assert forall|i: int| 0 <= i < run_len(s, class) implies class.has(#[trigger] s[i]) by {
            if i > 0 {
                assert(s[i] == t[i - 1]);
            }
        }
    }
}

pub proof fn lemma_back_run_len_bound(s: Seq<char>, class: CharClass)
    ensures
        back_run_len(s, class) <= s.len(),
    decreases s.len(),
{
    if s.len() > 0 && class.has(s.last()) {
        lemma_back_run_len_bound(s.drop_last(), class);
    }
}

/// A run is pinned down by where it stops: every character before `n`
/// belongs to the class, and the one at `n`, if there is one, does not.
pub proof fn lemma_run_len_is(s: Seq<char>, class: CharClass, n: int)
    requires
        0 <= n <= s.len(),
        forall|i: int| 0 <= i < n ==> class.has(#[trigger] s[i]),
        n < s.len() ==> !class.has(s[n]),
    ensures
        run_len(s, class) == n,
    decreases n,
{
    if n > 0 {
        let t = s.skip(1);
        assert forall|i: int| 0 <= i < n - 1 implies class.has(#[trigger] t[i]) by {
            assert(t[i] == s[i + 1]);
        }
        lemma_run_len_is(t, class, n - 1);
    }
}

pub proof fn lemma_back_run_len_is(s: Seq<char>, class: CharClass, n: int)
    requires
        0 <= n <= s.len(),
        forall|i: int| s.len() - n <= i < s.len() ==> class.has(#[trigger] s[i]),
        n < s.len() ==> !class.has(s[s.len() - n - 1]),
    ensures
        back_run_len(s, class) == n,
    decreases n,
{
    if n > 0 {
        let t = s.drop_last();
        assert forall|i: int| t.len() - (n - 1) <= i < t.len() implies class.has(
            #[trigger] t[i],
        ) by {
            assert(t[i] == s[i]);
        }
        lemma_back_run_len_is(t, class, n - 1);
    }
}

/// Scans forward from `from` over the characters of `class`, not past `to`.
pub fn scan(v: &Vec<char>, from: usize, to: usize, class: CharClass) -> (stop: usize)
    requires
        from <= to <= v.len(),
    ensures
        from <= stop <= to,
        stop == from + run_len(v@.subrange(from as int, to as int), class),
{
    let mut i: usize = from;
    while i < to && class.contains(v[i])
        invariant
            from <= i <= to <= v.len(),
            forall|j: int| from <= j < i ==> class.has(#[trigger] v@[j]),
        decreases to - i,
    {
        i += 1;
    }
    proof {
        let s = v@.subrange(from as int, to as int);
        assert forall|j: int| 0 <= j < i - from implies class.has(#[trigger] s[j]) by {
            assert(s[j] == v@[from + j]);
        }
        lemma_run_len_is(s, class, i - from);
    }
    i
}

/// Scans backward from `to` over the characters of `class`, not past `from`.
pub fn scan_back(v: &Vec<char>, from: usize, to: usize, class: CharClass) -> (stop: usize)
    requires
        from <= to <= v.len(),
    ensures
        from <= stop <= to,
        stop == to - back_run_len(v@.subrange(from as int, to as int), class),
{
    let mut i: usize = to;
    while i > from && class.contains(v[i - 1])
        invariant
            from <= i <= to <= v.len(),
            forall|j: int| i <= j < to ==> class.has(#[trigger] v@[j]),
        decreases i - from,
    {
        i -= 1;
    }
    proof {
        let s = v@.subrange(from as int, to as int);
        assert forall|j: int| s.len() - (to - i) <= j < s.len() implies class.has(
            #[trigger] s[j],
        ) by {
            assert(s[j] == v@[from + j]);
        }
        lemma_back_run_len_is(s, class, to - i);
    }
    i
}


/// `s` without the whitespace at its front.
pub open spec fn trim_start(s: Seq<char>) -> Seq<char> {
    s.skip(run_len(s, CharClass::Space) as int)
}

/// `s` without the whitespace at its back.
pub open spec fn trim_end(s: Seq<char>) -> Seq<char> {
    s.take(s.len() - back_run_len(s, CharClass::Space))
}

/// `s` without the whitespace at either end.
pub open spec fn trim(s: Seq<char>) -> Seq<char> {
    trim_end(trim_start(s))
}

/// The bounds of the trimmed text within `v[from..to]`.
pub fn trim_bounds(v: &Vec<char>, from: usize, to: usize) -> (bounds: (usize, usize))
    requires
        from <= to <= v.len(),
    ensures
        from <= bounds.0 <= bounds.1 <= to,
        v@.subrange(bounds.0 as int, bounds.1 as int) == trim(
            v@.subrange(from as int, to as int),
        ),
{
    let a = scan(v, from, to, CharClass::Space);
    let b = scan_back(v, a, to, CharClass::Space);
    proof {
        let s = v@.subrange(from as int, to as int);
        assert(trim_start(s) =~= v@.subrange(a as int, to as int));
        assert(trim(s) =~= v@.subrange(a as int, b as int));
    }
    (a, b)
}

/// The bound of the text within `v[from..to]` once whitespace at its back is dropped.
pub fn trim_end_bound(v: &Vec<char>, from: usize, to: usize) -> (stop: usize)
    requires
        from <= to <= v.len(),
    ensures
        from <= stop <= to,
        v@.subrange(from as int, stop as int) == trim_end(v@.subrange(from as int, to as int)),
{
    let b = scan_back(v, from, to, CharClass::Space);
    proof {
        let s = v@.subrange(from as int, to as int);
        assert(trim_end(s) =~= v@.subrange(from as int, b as int));
    }
    b
}

/// The characters of a string slice, in order.
pub fn chars_of(s: &str) -> (v: Vec<char>)
    ensures
        v@ == s@,
{
    let mut v: Vec<char> = Vec::new();
    for c in it: s.chars()
        invariant
            v@ == it.seq().take(it.index() as int),
            it.seq() == s@,
    {
        v.push(c);
    }
    v
}

/// Appends `v[from..to]` to `buf`.
pub fn push_range(buf: &mut String, v: &Vec<char>, from: usize, to: usize)
    requires
        from <= to <= v.len(),
    ensures
        final(buf)@ == old(buf)@ + v@.subrange(from as int, to as int),
{
    let mut i: usize = from;
    while i < to
        invariant
            from <= i <= to <= v.len(),
            buf@ == old(buf)@ + v@.subrange(from as int, i as int),
        decreases to - i,
    {
        buf.push(v[i]);
        i += 1;
        assert(v@.subrange(from as int, i as int) =~= v@.subrange(from as int, i - 1).push(
            v@[i - 1],
        ));
    }
}

/// The string that holds `v[from..to]`.
pub fn text_of_range(v: &Vec<char>, from: usize, to: usize) -> (s: String)
    requires
        from <= to <= v.len(),
    ensures
        s@ == v@.subrange(from as int, to as int),
{
    let mut s = String::new();
    push_range(&mut s, v, from, to);
    s
}

/// The string that holds the characters of `v`.
pub fn text_of(v: &Vec<char>) -> (s: String)
    ensures
        s@ == v@,
{
    let s = text_of_range(v, 0, v.len());
    assert(v@.subrange(0, v.len() as int) =~= v@);
    s
}

/// A copy of `v[from..to]`.
pub fn copy_range(v: &Vec<char>, from: usize, to: usize) -> (r: Vec<char>)
    requires
        from <= to <= v.len(),
    ensures
        r@ == v@.subrange(from as int, to as int),
{
    let mut r: Vec<char> = Vec::new();
    let mut i: usize = from;
    while i < to
        invariant
            from <= i <= to <= v.len(),
            r@ == v@.subrange(from as int, i as int),
        decreases to - i,
    {
        r.push(v[i]);
        i += 1;
    }
    r
}

/// Whether two string slices hold the same characters.
pub fn same_text(a: &str, b: &str) -> (same: bool)
    ensures
        same == (a@ == b@),
{
    let x = chars_of(a);
    let y = chars_of(b);
    if x.len() != y.len() {
        return false;
    }
    let mut i: usize = 0;
    while i < x.len()
        invariant
            i <= x.len(),
            x.len() == y.len(),
            x@ == a@,
            y@ == b@,
            forall|j: int| 0 <= j < i ==> x@[j] == y@[j],
        decreases x.len() - i,
    {
        if x[i] != y[i] {
            return false;
        }
        i += 1;
    }
    assert(x@ =~= y@);
    true
}

/// Whether `v[from..to]` begins with `word`.
pub fn begins_with(v: &Vec<char>, from: usize, to: usize, word: &str) -> (b: bool)
    requires
        from <= to <= v.len(),
    ensures
        b == word@.is_prefix_of(v@.subrange(from as int, to as int)),
{
    let w = chars_of(word);
    if w.len() > to - from {
        return false;
    }
    let ghost s = v@.subrange(from as int, to as int);
    let mut i: usize = 0;
    while i < w.len()
        invariant
            i <= w.len() <= to - from,
            from <= to <= v.len(),
            w@ == word@,
            s == v@.subrange(from as int, to as int),
            forall|j: int| 0 <= j < i ==> w@[j] == s[j],
        decreases w.len() - i,
    {
        if w[i] != v[from + i] {
            assert(s[i as int] != w@[i as int]);
            assert(s.subrange(0, w@.len() as int)[i as int] == s[i as int]);
            return false;
        }
        i += 1;
    }
    assert(w@ =~= s.subrange(0, w@.len() as int));
    true
}

/// What `strip_cr` leaves of a line: the text without one carriage return at its end.
pub open spec fn strip_cr(s: Seq<char>) -> Seq<char> {
    if s.len() > 0 && s.last() == '\r' {
        s.drop_last()
    } else {
        s
    }
}

/// The lines of a text, as `str::lines` of std gives them: the text is cut
/// at every line feed, a carriage return right before a line feed goes with
/// it, and a text that ends in a line feed has no empty last line.
pub open spec fn split_lines(s: Seq<char>) -> Seq<Seq<char>>
    decreases s.len(),
{
    let n = run_len(s, CharClass::LineBody);
    if s.len() == 0 {
        Seq::empty()
    } else if n >= s.len() {
        seq![s]
    } else {
        seq![strip_cr(s.take(n as int))] + split_lines(s.skip(n as int + 1))
    }
}

/// The views of the lines held in `lines`.
pub open spec fn lines_view(lines: Seq<Vec<char>>) -> Seq<Seq<char>> {
    lines.map_values(|l: Vec<char>| l@)
}

/// Cuts a text into its lines.
pub fn lines_of(v: &Vec<char>) -> (lines: Vec<Vec<char>>)
    ensures
        lines_view(lines@) == split_lines(v@),
{
    let mut lines: Vec<Vec<char>> = Vec::new();
    let mut start: usize = 0;
    let len = v.len();
    assert(v@.skip(0) =~= v@);
    assert(lines_view(lines@) =~= Seq::empty());
    while start < len
        invariant
            start <= len == v.len(),
            split_lines(v@) == lines_view(lines@) + split_lines(v@.skip(start as int)),
        decreases len - start,
    {
        let ghost rest = v@.skip(start as int);
        let ghost before = lines_view(lines@);
        assert(rest =~= v@.subrange(start as int, len as int));
        let end = scan(v, start, len, CharClass::LineBody);
        if end == len {
            lines.push(copy_range(v, start, len));
            proof {
                assert(lines_view(lines@) =~= before.push(rest));
                assert(v@.skip(len as int) =~= Seq::<char>::empty());
                assert(before + seq![rest] =~= before.push(rest));
            }
            start = len;
        } else {
            let stop = if end > start && v[end - 1] == '\r' {
                end - 1
            } else {
                end
            };
            let line = copy_range(v, start, stop);
            proof {
                let n = (end - start) as int;
                assert(rest.take(n) =~= v@.subrange(start as int, end as int));
                assert(line@ =~= strip_cr(rest.take(n)));
                assert(rest.skip(n + 1) =~= v@.skip(end + 1));
            }
            lines.push(line);
            proof {
                assert(lines_view(lines@) =~= before.push(line@));
                assert(before + (seq![line@] + split_lines(v@.skip(end + 1))) =~= before.push(line@)
                    + split_lines(v@.skip(end + 1)));
            }
            start = end + 1;
        }
    }
    assert(v@.skip(len as int) =~= Seq::<char>::empty());
    lines
}

/// The texts of `parts` with `sep` between each two neighbours.
pub open spec fn joined(parts: Seq<Seq<char>>, sep: char) -> Seq<char>
    decreases parts.len(),
{
    if parts.len() == 0 {
        Seq::empty()
    } else if parts.len() == 1 {
        parts[0]
    } else {
        joined(parts.drop_last(), sep).push(sep) + parts.last()
    }
}

/// The views of the strings in `parts`.
pub open spec fn texts(parts: Seq<String>) -> Seq<Seq<char>> {
    parts.map_values(|s: String| s@)
}

/// Joins the strings with `sep` between each two neighbours.
pub fn join(parts: &[String], sep: char) -> (text: String)
    ensures
        text@ == joined(texts(parts@), sep),
{
    let ghost all = texts(parts@);
    let mut text = String::new();
    let mut i: usize = 0;
    assert(all.take(0) =~= Seq::<Seq<char>>::empty());
    while i < parts.len()
        invariant
            i <= parts.len(),
            all == texts(parts@),
            text@ == joined(all.take(i as int), sep),
        decreases parts.len() - i,
    {
        if i > 0 {
            text.push(sep);
        }
        text.append(parts[i].as_str());
        i += 1;
        proof {
            let now = all.take(i as int);
            assert(now.drop_last() =~= all.take(i - 1));
            assert(now.last() == parts@[i - 1]@);
            assert(text@ =~= joined(now, sep));
        }
    }
    assert(all.take(i as int) =~= all);
    text
}

/// The character that stands for the digit `d`.
pub open spec fn digit(d: nat) -> char {
    (('0' as nat) + d) as char
}

/// The decimal numeral of `n`, without leading zeros.
pub open spec fn decimal(n: nat) -> Seq<char>
    decreases n,
{
    if n < 10 {
        seq![digit(n)]
    } else {
        decimal(n / 10).push(digit(n % 10))
    }
}

/// Appends the decimal numeral of `n` to `buf`.
pub fn push_decimal(buf: &mut String, n: usize)
    ensures
        final(buf)@ == old(buf)@ + decimal(n as nat),
    decreases n,
{
    if n >= 10 {
        push_decimal(buf, n / 10);
    }
    let d: u8 = (n % 10) as u8;
    let c: char = (48u8 + d) as char;
    assert(c == digit((n % 10) as nat));
    buf.push(c);
    assert(buf@ =~= old(buf)@ + decimal(n as nat));
}

} // verus!
