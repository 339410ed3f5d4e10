//! Plain-text building blocks: the line structure of a text file, decimal
//! numerals, prefixes and whitespace trimming.

use vstd::prelude::*;
use vstd::string::*;

verus! {

/// A line as a line iterator yields it: a carriage return is dropped only when
/// it directly precedes the newline that ends the line.
pub open spec fn strip_cr(line: Seq<char>) -> Seq<char> {
    if line.len() > 0 && line.last() == '\r' {
        line.drop_last()
    } else {
        line
    }
}

/// The lines of `s[start..]`, where `s[start..i]` is known to hold no newline.
/// Every newline ends a line; the text after the last newline is a line of its
/// own only when it is not empty.
pub open spec fn lines_from(s: Seq<char>, start: int, i: int) -> Seq<Seq<char>>
    decreases s.len() - i,
{
    if i >= s.len() {
        if start < s.len() {
            seq![s.subrange(start, s.len() as int)]
        } else {
            Seq::empty()
        }
    } else if s[i] == '\n' {
        seq![strip_cr(s.subrange(start, i))] + lines_from(s, i + 1, i + 1)
    } else {
        lines_from(s, start, i + 1)
    }
}

/// The lines of a text, as `str::lines` yields them.
pub open spec fn lines_of(s: Seq<char>) -> Seq<Seq<char>> {
    lines_from(s, 0, 0)
}

/// The lines joined with a newline between each two of them.
pub open spec fn join_lines(lines: Seq<Seq<char>>) -> Seq<char>
    decreases lines.len(),
{
    if lines.len() == 0 {
        Seq::empty()
    } else if lines.len() == 1 {
        lines[0]
    } else {
        join_lines(lines.drop_last()) + seq!['\n'] + lines.last()
    }
}

/// Whether `s` begins with `prefix`.
pub open spec fn has_prefix(s: Seq<char>, prefix: Seq<char>) -> bool {
    prefix.len() <= s.len() && s.subrange(0, prefix.len() as int) == prefix
}

/// The character of a decimal digit.
pub open spec fn digit_char(d: nat) -> char {
    ('0' as u32 + d) as char
}

/// The decimal numeral of `n`, without leading zeros.
pub open spec fn decimal(n: nat) -> Seq<char>
    decreases n,
{
    if n < 10 {
        seq![digit_char(n)]
    } else {
        decimal(n / 10).push(digit_char(n % 10))
    }
}

/// The characters of a string, in order.
pub fn chars_of(s: &str) -> (v: Vec<char>)
    ensures
        v@ == s@,
{
    let mut v: Vec<char> = Vec::new();
    for c in it: s.chars()
        invariant
            v@ == it.seq().take(it.index() as int),
            it.seq() == s@,
    {
        v.push(c);
    }
    v
}

/// The one-character string of a decimal digit.
fn digit_str(d: u32) -> (r: &'static str)
    requires
        d < 10,
    ensures
        r@ == seq![digit_char(d as nat)],
{
    let digits = "0123456789";
    proof {
        reveal_strlit("0123456789");
    }
    let r = digits.substring_char(d as usize, d as usize + 1);
    assert(r@ =~= seq![digit_char(d as nat)]);
    r
}

/// Appends the decimal numeral of `n`.
pub fn push_decimal(out: &mut String, n: u32)
    ensures
        final(out)@ == old(out)@ + decimal(n as nat),
    decreases n,
{
    if n >= 10 {
        push_decimal(out, n / 10);
    }
    out.append(digit_str(n % 10));
    assert(old(out)@ + decimal(n as nat) =~= out@);
}

/// The text that a span of character positions covers.
pub open spec fn span_text(s: Seq<char>, span: (usize, usize)) -> Seq<char> {
    s.subrange(span.0 as int, span.1 as int)
}

/// The spans of the lines of `text`: each line is `text[span.0..span.1]`.
pub(crate) fn line_spans(text: &Vec<char>) -> (spans: Vec<(usize, usize)>)
    ensures
        spans@.len() == lines_of(text@).len(),
        forall|j: int|
            0 <= j < spans@.len() ==> {
                &&& (#[trigger] spans@[j]).0 <= spans@[j].1 <= text@.len()
                &&& span_text(text@, spans@[j]) == lines_of(text@)[j]
            },
{
    let n = text.len();
    let mut spans: Vec<(usize, usize)> = Vec::new();
    let mut start: usize = 0;
    let mut i: usize = 0;
    while i < n
        invariant
            n == text@.len(),
            start <= i <= n,
            lines_of(text@) == spans@.map_values(|sp: (usize, usize)| span_text(text@, sp))
                + lines_from(text@, start as int, i as int),
            forall|j: int|
                0 <= j < spans@.len() ==> (#[trigger] spans@[j]).0 <= spans@[j].1 <= text@.len(),
        decreases n - i,
    {
        let ghost before = spans@.map_values(|sp: (usize, usize)| span_text(text@, sp));
        if text[i] == '\n' {
            let end = if i > start && text[i - 1] == '\r' {
                i - 1
            } else {
                i
            };
            assert(span_text(text@, (start, end)) == strip_cr(text@.subrange(start as int, i as int)));
            spans.push((start, end));
            assert(spans@.map_values(|sp: (usize, usize)| span_text(text@, sp)) =~= before.push(
                span_text(text@, (start, end)),
            ));
            start = i + 1;
        }
        i = i + 1;
    }
    let ghost before = spans@.map_values(|sp: (usize, usize)| span_text(text@, sp));
    if start < n {
        spans.push((start, n));
        assert(spans@.map_values(|sp: (usize, usize)| span_text(text@, sp)) =~= before.push(
            span_text(text@, (start, n)),
        ));
    }
    assert(lines_of(text@) =~= spans@.map_values(|sp: (usize, usize)| span_text(text@, sp)));
    spans
}

/// Whether the text of `span` begins with `prefix`.
pub(crate) fn span_has_prefix(text: &Vec<char>, span: (usize, usize), prefix: &Vec<char>) -> (b: bool)
    requires
        span.0 <= span.1 <= text@.len(),
    ensures
        b == has_prefix(span_text(text@, span), prefix@),
{
    let len = prefix.len();
    if len > span.1 - span.0 {
        return false;
    }
    let mut k: usize = 0;
    while k < len
        invariant
            len == prefix@.len(),
            span.0 + len <= span.1 <= text@.len(),
            k <= len,
            forall|m: int| 0 <= m < k ==> text@[span.0 + m] == prefix@[m],
        decreases len - k,
    {
        if text[span.0 + k] != prefix[k] {
            assert(span_text(text@, span).subrange(0, len as int)[k as int] != prefix@[k as int]);
            return false;
        }
        k = k + 1;
    }
    assert(span_text(text@, span).subrange(0, len as int) =~= prefix@);
    true
}

/// Joining one more line onto joined lines puts a newline before it, unless
/// it is the first.
pub proof fn lemma_join_push(lines: Seq<Seq<char>>, line: Seq<char>)
    ensures
        join_lines(lines.push(line)) == if lines.len() == 0 {
            line
        } else {
            join_lines(lines) + seq!['\n'] + line
        },
{
    assert(lines.push(line).drop_last() =~= lines);
}

/// Whether two strings hold the same characters.
pub fn same_text(a: &str, b: &str) -> (eq: bool)
    ensures
        eq == (a@ == b@),
{
    let x = chars_of(a);
    let y = chars_of(b);
    if x.len() != y.len() {
        return false;
    }
    let mut k: usize = 0;
    while k < x.len()
        invariant
            x@ == a@,
            y@ == b@,
            x@.len() == y@.len(),
            k <= x@.len(),
            forall|m: int| 0 <= m < k ==> x@[m] == y@[m],
        decreases x.len() - k,
    {
        if x[k] != y[k] {
            assert(x@[k as int] != y@[k as int]);
            return false;
        }
        k = k + 1;
    }
    assert(x@ =~= y@);
    true
}

/// Appends a character (`String::push`).
#[verifier::external_body]
pub(crate) fn push_char(s: &mut String, c: char)
    ensures
        final(s)@ == old(s)@.push(c),
{
    s.push(c);
}

/// Removes and returns the last character, if any.
pub(crate) fn pop_char(s: &mut String) -> (c: Option<char>)
    ensures
        old(s)@.len() == 0 ==> c is None && final(s)@ == old(s)@,
        old(s)@.len() > 0 ==> c == Some(old(s)@.last()) && final(s)@ == old(s)@.drop_last(),
{
    let cs = chars_of(s.as_str());
    let n = cs.len();
    if n == 0 {
        return None;
    }
    let last = cs[n - 1];
    let shorter = String::from_str(s.as_str().substring_char(0, n - 1));
    *s = shorter;
    assert(s@ =~= old(s)@.drop_last());
    Some(last)
}

/// Whether a character is white space in Unicode's sense (`char::is_whitespace`).
pub open spec fn is_white_space(c: char) -> bool {
    let u = c as u32;
    ||| 9 <= u <= 13
    ||| u == 32
    ||| u == 0x85
    ||| u == 0xA0
    ||| u == 0x1680
    ||| 0x2000 <= u <= 0x200A
    ||| u == 0x2028
    ||| u == 0x2029
    ||| u == 0x202F
    ||| u == 0x205F
    ||| u == 0x3000
}

/// Whether a character is white space.
pub fn white_space(c: char) -> (b: bool)
    ensures
        b == is_white_space(c),
{
    let u = c as u32;
    (9 <= u && u <= 13) || u == 32 || u == 0x85 || u == 0xA0 || u == 0x1680 || (0x2000 <= u && u
        <= 0x200A) || u == 0x2028 || u == 0x2029 || u == 0x202F || u == 0x205F || u == 0x3000
}

/// The text without its leading white space.
pub open spec fn trim_start(s: Seq<char>) -> Seq<char>
    decreases s.len(),
{
    if s.len() > 0 && is_white_space(s[0]) {
        trim_start(s.drop_first())
    } else {
        s
    }
}

/// The text without its trailing white space.
pub open spec fn trim_end(s: Seq<char>) -> Seq<char>
    decreases s.len(),
{
    if s.len() > 0 && is_white_space(s.last()) {
        trim_end(s.drop_last())
    } else {
        s
    }
}

/// The text without leading and trailing white space (`str::trim`).
pub open spec fn trim(s: Seq<char>) -> Seq<char> {
    trim_end(trim_start(s))
}

/// The text without leading and trailing white space.
pub fn trimmed(s: &str) -> (t: String)
    ensures
        t@ == trim(s@),
{
    let v = chars_of(s);
    let n = v.len();
    let mut i: usize = 0;
    assert(s@.skip(0) =~= s@);
    while i < n && white_space(v[i])
        invariant
            v@ == s@,
            n == v@.len(),
            i <= n,
            trim_start(s@) == trim_start(s@.skip(i as int)),
        decreases n - i,
    {
        assert(s@.skip(i as int).drop_first() =~= s@.skip(i + 1));
        i = i + 1;
    }
    assert(trim_start(s@) == s@.subrange(i as int, n as int)) by {
        assert(s@.skip(i as int) =~= s@.subrange(i as int, n as int));
    }
    let mut j: usize = n;
    while j > i && white_space(v[j - 1])
        invariant
            v@ == s@,
            n == v@.len(),
            i <= j <= n,
            trim(s@) == trim_end(s@.subrange(i as int, j as int)),
        decreases j,
    {
        assert(s@.subrange(i as int, j as int).drop_last() =~= s@.subrange(i as int, j - 1));
        j = j - 1;
    }
    let t = s.substring_char(i, j);
    String::from_str(t)
}

/// Whether a line holds no newline.
pub open spec fn no_newline(line: Seq<char>) -> bool {
    forall|i: int| 0 <= i < line.len() ==> line[i] != '\n'
}

/// Lines that joining by newlines and splitting again gives back: none holds
/// a newline, none but the last ends with a carriage return, and the last
/// is not empty.
pub open spec fn rejoinable(lines: Seq<Seq<char>>) -> bool {
    &&& forall|k: int| 0 <= k < lines.len() ==> no_newline(#[trigger] lines[k])
    &&& forall|k: int|
        0 <= k < lines.len() - 1 ==> !(#[trigger] lines[k].len() > 0 && lines[k].last() == '\r')
    &&& lines.len() > 0 ==> lines.last().len() > 0
}

/// Scanning past characters that are not newlines does not change the lines.
proof fn lemma_scan(s: Seq<char>, start: int, i: int, j: int)
    requires
        0 <= start <= i <= j <= s.len(),
        forall|k: int| i <= k < j ==> s[k] != '\n',
    ensures
        lines_from(s, start, i) == lines_from(s, start, j),
    decreases j - i,
{
    if i < j {
        lemma_scan(s, start, i + 1, j);
    }
}

/// The lines of `p + r` from a position inside `r` are the lines of `r` from
/// that position.
proof fn lemma_shift(p: Seq<char>, r: Seq<char>, a: int, b: int)
    requires
        0 <= a <= b <= r.len(),
    ensures
        lines_from(p + r, p.len() + a, p.len() + b) == lines_from(r, a, b),
    decreases r.len() - b,
{
    let s = p + r;
    if b < r.len() {
        assert(s[p.len() + b] == r[b]);
        if r[b] == '\n' {
            lemma_shift(p, r, b + 1, b + 1);
            assert(s.subrange(p.len() + a, p.len() + b) =~= r.subrange(a, b));
        } else {
            lemma_shift(p, r, a, b + 1);
        }
    } else if a < r.len() {
        assert(s.subrange(p.len() + a, s.len() as int) =~= r.subrange(a, r.len() as int));
    }
}

/// Joined lines, split at the first of them.
proof fn lemma_join_first(lines: Seq<Seq<char>>)
    requires
        lines.len() >= 2,
    ensures
        join_lines(lines) == lines[0] + seq!['\n'] + join_lines(lines.drop_first()),
    decreases lines.len(),
{
    let nl = seq!['\n'];
    if lines.len() > 2 {
        let dl = lines.drop_last();
        let rest = lines.drop_first();
        lemma_join_first(dl);
        assert(dl.drop_first() =~= rest.drop_last());
        assert(rest.last() == lines.last());
        assert(dl[0] == lines[0]);
        assert(join_lines(lines) == join_lines(dl) + nl + lines.last());
        assert(join_lines(rest) == join_lines(rest.drop_last()) + nl + rest.last());
        assert(join_lines(lines) =~= lines[0] + nl + join_lines(rest));
    } else {
        assert(lines.drop_first() =~= seq![lines[1]]);
        assert(lines.drop_last() =~= seq![lines[0]]);
        assert(join_lines(seq![lines[0]]) == lines[0]);
        assert(join_lines(seq![lines[1]]) == lines[1]);
        assert(join_lines(lines) == join_lines(lines.drop_last()) + nl + lines.last());
        assert(join_lines(lines) =~= lines[0] + nl + join_lines(lines.drop_first()));
    }
}

/// Splitting joined lines gives them back, when they are rejoinable.
pub proof fn lemma_lines_of_join(lines: Seq<Seq<char>>)
    requires
        rejoinable(lines),
    ensures
        lines_of(join_lines(lines)) == lines,
    decreases lines.len(),
{
    if lines.len() == 0 {
        assert(lines_of(Seq::empty()) =~= lines);
    } else if lines.len() == 1 {
        let m = lines[0];
        assert(no_newline(m));
        lemma_scan(m, 0, 0, m.len() as int);
        assert(m.subrange(0, m.len() as int) =~= m);
        assert(lines_of(m) =~= lines);
    } else {
        let m = lines[0];
        let rest = lines.drop_first();
        assert(no_newline(m));
        assert forall|k: int| 0 <= k < rest.len() implies no_newline(#[trigger] rest[k]) by {
            assert(rest[k] == lines[k + 1]);
        }
        assert forall|k: int| 0 <= k < rest.len() - 1 implies !(#[trigger] rest[k].len() > 0
            && rest[k].last() == '\r') by {
            assert(rest[k] == lines[k + 1]);
        }
        assert(rest.last() == lines.last());
        lemma_lines_of_join(rest);
        lemma_join_first(lines);
        let j = join_lines(rest);
        let p = m + seq!['\n'];
        let s = p + j;
        assert(s =~= m + seq!['\n'] + j);
        assert forall|k: int| 0 <= k < m.len() implies s[k] != '\n' by {
            assert(s[k] == m[k]);
        }
        lemma_scan(s, 0, 0, m.len() as int);
        assert(s[m.len() as int] == '\n');
        assert(s.subrange(0, m.len() as int) =~= m);
        assert(!(m.len() > 0 && m.last() == '\r'));
        lemma_shift(p, j, 0, 0);
        assert(lines_of(s) =~= seq![m] + rest);
        assert(seq![m] + rest =~= lines);
    }
}

/// A text begins with what is put in front of it.
pub proof fn lemma_prefix_of_concat(p: Seq<char>, x: Seq<char>)
    ensures
        has_prefix(p + x, p),
{
    assert((p + x).subrange(0, p.len() as int) =~= p);
}

/// A text that begins with `prefix` has its characters at the same places.
pub proof fn lemma_prefix_char(x: Seq<char>, prefix: Seq<char>, i: int)
    requires
        has_prefix(x, prefix),
        0 <= i < prefix.len(),
    ensures
        x[i] == prefix[i],
{
    assert(x.subrange(0, prefix.len() as int)[i] == x[i]);
}

/// How a text splits into lines: no text, no lines; a text without a
/// newline is one line, as it is (even ending in a carriage return); a first
/// line ended by a newline is that line, less one carriage return just before
/// the newline, followed by the lines of the rest.
pub proof fn law_lines(first: Seq<char>, rest: Seq<char>)
    requires
        forall|i: int| 0 <= i < first.len() ==> first[i] != '\n',
    ensures
        lines_of(Seq::<char>::empty()) == Seq::<Seq<char>>::empty(),
        first.len() > 0 ==> lines_of(first) == seq![first],
        lines_of(first + seq!['\n'] + rest) == seq![
            if first.len() > 0 && first.last() == '\r' {
                first.drop_last()
            } else {
                first
            },
        ] + lines_of(rest),
{
    assert(lines_of(Seq::<char>::empty()) =~= Seq::<Seq<char>>::empty());
    if first.len() > 0 {
        lemma_scan(first, 0, 0, first.len() as int);
        assert(first.subrange(0, first.len() as int) =~= first);
    }
    let p = first + seq!['\n'];
    let s = p + rest;
    assert(s =~= first + seq!['\n'] + rest);
    assert forall|k: int| 0 <= k < first.len() implies s[k] != '\n' by {
        assert(s[k] == first[k]);
    }
    lemma_scan(s, 0, 0, first.len() as int);
    assert(s[first.len() as int] == '\n');
    assert(s.subrange(0, first.len() as int) =~= first);
    lemma_shift(p, rest, 0, 0);
}

} // verus!
