//! Reading the requested path out of the first line of a request.
//!
//! The reading is deliberately permissive: it never rejects a line. It strips
//! what a well-formed `GET` line wraps around the path and hands back whatever
//! is left, so another method, a query string or plain garbage simply becomes
//! part of a path that will not resolve to any file.

use vstd::prelude::*;
use vstd::string::*;
use crate::text::chars_of;

verus! {

/// The method word that is stripped from the front of a request line.
pub const METHOD: &'static str = "GET";

/// The protocol version that is stripped from the end of a request line.
pub const VERSION: &'static str = "HTTP/1.1";

/// Whether `c` is white space: one of the code points with Unicode's
/// `White_Space` property.
pub open spec fn spec_is_whitespace(c: char) -> bool {
    let u = c as u32;
    ||| 0x09 <= u <= 0x0D
    ||| u == 0x20
    ||| u == 0x85
    ||| u == 0xA0
    ||| u == 0x1680
    ||| 0x2000 <= u <= 0x200A
    ||| u == 0x2028
    ||| u == 0x2029
    ||| u == 0x202F
    ||| u == 0x205F
    ||| u == 0x3000
}

/// `s` without any leading repetitions of `pat`. An empty `pat` strips nothing.
pub open spec fn strip_leading(s: Seq<char>, pat: Seq<char>) -> Seq<char>
    decreases s.len(),
{
    if pat.len() > 0 && pat.is_prefix_of(s) {
        strip_leading(s.skip(pat.len() as int), pat)
    } else {
        s
    }
}

/// `s` without any trailing repetitions of `pat`. An empty `pat` strips nothing.
pub open spec fn strip_trailing(s: Seq<char>, pat: Seq<char>) -> Seq<char>
    decreases s.len(),
{
    if pat.len() > 0 && pat.is_suffix_of(s) {
        strip_trailing(s.take(s.len() - pat.len()), pat)
    } else {
        s
    }
}

/// `s` without its leading white space.
pub open spec fn trim_start(s: Seq<char>) -> Seq<char>
    decreases s.len(),
{
    if s.len() > 0 && spec_is_whitespace(s.first()) {
        trim_start(s.drop_first())
    } else {
        s
    }
}

/// `s` without its trailing white space.
pub open spec fn trim_end(s: Seq<char>) -> Seq<char>
    decreases s.len(),
{
    if s.len() > 0 && spec_is_whitespace(s.last()) {
        trim_end(s.drop_last())
    } else {
        s
    }
}

/// `s` without the white space at either end.
pub open spec fn trim(s: Seq<char>) -> Seq<char> {
    trim_end(trim_start(s))
}

/// The path that a request line asks for: the line without its leading
/// [`METHOD`] words, without its trailing [`VERSION`] words, without the white
/// space then left at either end, and without the slashes then left in front.
pub open spec fn request_path(line: Seq<char>) -> Seq<char> {
    strip_leading(trim(strip_trailing(strip_leading(line, METHOD@), VERSION@)), seq!['/'])
}

/// Whether `c` is white space.
#[verifier::when_used_as_spec(spec_is_whitespace)]
pub fn is_whitespace(c: char) -> (white: bool)
    ensures
        white == spec_is_whitespace(c),
{
    let u: u32 = c as u32;
    (0x09 <= u && u <= 0x0D) || u == 0x20 || u == 0x85 || u == 0xA0 || u == 0x1680 || (0x2000 <= u
        && u <= 0x200A) || u == 0x2028 || u == 0x2029 || u == 0x202F || u == 0x205F || u == 0x3000
}

/// Whether `pat` stands at the front of the window `lo..hi` of `text`.
fn starts_with_at(text: &Vec<char>, lo: usize, hi: usize, pat: &Vec<char>) -> (found: bool)
    requires
        lo <= hi <= text.len(),
    ensures
        found == pat@.is_prefix_of(text@.subrange(lo as int, hi as int)),
{
    if pat.len() > hi - lo {
        return false;
    }
    let ghost window = text@.subrange(lo as int, hi as int);
    let mut i: usize = 0;
    while i < pat.len()
        invariant
            lo <= hi <= text.len(),
            pat.len() <= hi - lo,
            i <= pat.len(),
            window == text@.subrange(lo as int, hi as int),
            forall|k: int| 0 <= k < i ==> pat@[k] == window[k],
        decreases pat.len() - i,
    {
        if pat[i] != text[lo + i] {
            assert(window[i as int] != pat@[i as int]);
            assert(window.subrange(0, pat@.len() as int)[i as int] == window[i as int]);
            return false;
        }
        i = i + 1;
    }
    assert(pat@ =~= window.subrange(0, pat@.len() as int));
    true
}

/// Whether `pat` stands at the end of the window `lo..hi` of `text`.
fn ends_with_at(text: &Vec<char>, lo: usize, hi: usize, pat: &Vec<char>) -> (found: bool)
    requires
        lo <= hi <= text.len(),
    ensures
        found == pat@.is_suffix_of(text@.subrange(lo as int, hi as int)),
{
    if pat.len() > hi - lo {
        return false;
    }
    let ghost window = text@.subrange(lo as int, hi as int);
    let from: usize = hi - pat.len();
    let ghost tail = window.subrange(window.len() - pat@.len(), window.len() as int);
    let mut i: usize = 0;
    while i < pat.len()
        invariant
            lo <= from <= hi <= text.len(),
            from == hi - pat.len(),
            i <= pat.len(),
            window == text@.subrange(lo as int, hi as int),
            tail == window.subrange(window.len() - pat@.len(), window.len() as int),
            forall|k: int| 0 <= k < i ==> pat@[k] == tail[k],
        decreases pat.len() - i,
    {
        if pat[i] != text[from + i] {
            assert(tail[i as int] == text@[from + i]);
            return false;
        }
        i = i + 1;
    }
    assert(pat@ =~= tail);
    true
}

/// Where the window `lo..hi` of `text` begins once its leading repetitions of
/// `pat` are gone.
fn skip_leading(text: &Vec<char>, lo: usize, hi: usize, pat: &Vec<char>) -> (start: usize)
    requires
        lo <= hi <= text.len(),
    ensures
        lo <= start <= hi,
        text@.subrange(start as int, hi as int) == strip_leading(
            text@.subrange(lo as int, hi as int),
            pat@,
        ),
{
    let mut start: usize = lo;
    if pat.len() == 0 {
        return start;
    }
    while starts_with_at(text, start, hi, pat)
        invariant
            lo <= start <= hi <= text.len(),
            pat.len() > 0,
            strip_leading(text@.subrange(start as int, hi as int), pat@) == strip_leading(
                text@.subrange(lo as int, hi as int),
                pat@,
            ),
        decreases hi - start,
    {
        assert(text@.subrange(start as int, hi as int).skip(pat@.len() as int)
            =~= text@.subrange(start + pat@.len(), hi as int));
        start = start + pat.len();
    }
    start
}

/// Where the window `lo..hi` of `text` ends once its trailing repetitions of
/// `pat` are gone.
fn skip_trailing(text: &Vec<char>, lo: usize, hi: usize, pat: &Vec<char>) -> (end: usize)
    requires
        lo <= hi <= text.len(),
    ensures
        lo <= end <= hi,
        text@.subrange(lo as int, end as int) == strip_trailing(
            text@.subrange(lo as int, hi as int),
            pat@,
        ),
{
    let mut end: usize = hi;
    if pat.len() == 0 {
        return end;
    }
    while ends_with_at(text, lo, end, pat)
        invariant
            lo <= end <= hi <= text.len(),
            pat.len() > 0,
            strip_trailing(text@.subrange(lo as int, end as int), pat@) == strip_trailing(
                text@.subrange(lo as int, hi as int),
                pat@,
            ),
        decreases end - lo,
    {
        assert(text@.subrange(lo as int, end as int).take(end - lo - pat@.len())
            =~= text@.subrange(lo as int, end - pat@.len()));
        end = end - pat.len();
    }
    end
}

/// The window that is left of `lo..hi` of `text` once the white space at either
/// end is gone.
fn trim_window(text: &Vec<char>, lo: usize, hi: usize) -> (window: (usize, usize))
    requires
        lo <= hi <= text.len(),
    ensures
        lo <= window.0 <= window.1 <= hi,
        text@.subrange(window.0 as int, window.1 as int) == trim(
            text@.subrange(lo as int, hi as int),
        ),
{
    let mut start: usize = lo;
    while start < hi && is_whitespace(text[start])
        invariant
            lo <= start <= hi <= text.len(),
            trim_start(text@.subrange(start as int, hi as int)) == trim_start(
                text@.subrange(lo as int, hi as int),
            ),
        decreases hi - start,
    {
        assert(text@.subrange(start as int, hi as int).drop_first() =~= text@.subrange(
            start + 1,
            hi as int,
        ));
        start = start + 1;
    }
    let mut end: usize = hi;
    while start < end && is_whitespace(text[end - 1])
        invariant
            lo <= start <= end <= hi <= text.len(),
            trim_end(text@.subrange(start as int, end as int)) == trim_end(
                text@.subrange(start as int, hi as int),
            ),
        decreases end - start,
    {
        assert(text@.subrange(start as int, end as int).drop_last() =~= text@.subrange(
            start as int,
            end - 1,
        ));
        end = end - 1;
    }
    (start, end)
}

/// Reads the requested path out of a request line.
///
/// Nothing is rejected: the result is [`request_path`] of whatever the line
/// holds, and it borrows from the line.
pub fn parse_request_path(line: &str) -> (path: &str)
    ensures
        path@ == request_path(line@),
{
    let text = chars_of(line);
    let method = chars_of(METHOD);
    let version = chars_of(VERSION);
    let mut slash: Vec<char> = Vec::new();
    slash.push('/');
    assert(slash@ =~= seq!['/']);
    let len = text.len();
    assert(text@.subrange(0, len as int) =~= text@);
    let a = skip_leading(&text, 0, len, &method);
    let b = skip_trailing(&text, a, len, &version);
    let (c, d) = trim_window(&text, a, b);
    let e = skip_leading(&text, c, d, &slash);
    line.substring_char(e, d)
}

/// The line by which a client asks for `path` with a `GET` request.
pub open spec fn get_line(path: Seq<char>) -> Seq<char> {
    METHOD@ + seq![' ', '/'] + path + seq![' '] + VERSION@
}

/// Whether `path` comes through the reading unchanged: it must not begin with
/// a slash nor end in white space, since both are stripped.
pub open spec fn is_plain_path(path: Seq<char>) -> bool {
    path.len() > 0 ==> path.first() != '/' && !spec_is_whitespace(path.last())
}

/// Reading the `GET` line for a plain path gives that path back.
pub proof fn lemma_get_line_round_trip(path: Seq<char>)
    requires
        is_plain_path(path),
    ensures
        request_path(get_line(path)) == path,
{
    reveal_strlit("GET");
    reveal_strlit("HTTP/1.1");
    let line = get_line(path);
    let rest = seq![' ', '/'] + path + seq![' '] + VERSION@;
    let inner = seq![' ', '/'] + path + seq![' '];
    let slashed = seq!['/'] + path;

    assert(METHOD@.is_prefix_of(line)) by {
        assert(line.subrange(0, 3) =~= METHOD@);
    }
    assert(line.skip(3) =~= rest);
    assert(!METHOD@.is_prefix_of(rest)) by {
        assert(rest[0] == ' ');
        assert(METHOD@[0] == 'G');
        if METHOD@.is_prefix_of(rest) {
            assert(rest.subrange(0, 3)[0] == METHOD@[0]);
        }
    }
    assert(strip_leading(line, METHOD@) == rest) by {
        reveal_with_fuel(strip_leading, 2);
    }

    assert(VERSION@.is_suffix_of(rest)) by {
        assert(rest.subrange(rest.len() - 8, rest.len() as int) =~= VERSION@);
    }
    assert(rest.take(rest.len() - 8) =~= inner);
    assert(!VERSION@.is_suffix_of(inner)) by {
        assert(inner.last() == ' ');
        assert(VERSION@[7] == '1');
        if VERSION@.is_suffix_of(inner) {
            assert(inner.subrange(inner.len() - 8, inner.len() as int)[7] == VERSION@[7]);
        }
    }
    assert(strip_trailing(rest, VERSION@) == inner) by {
        reveal_with_fuel(strip_trailing, 2);
    }

    let spaced = slashed + seq![' '];
    assert(inner.first() == ' ');
    assert(inner.drop_first() =~= spaced);
    assert(spaced.first() == '/');
    assert(trim_start(inner) == spaced) by {
        reveal_with_fuel(trim_start, 2);
    }
    assert(spaced.last() == ' ');
    assert(spaced.drop_last() =~= slashed);
    assert(!spec_is_whitespace(slashed.last())) by {
        if path.len() > 0 {
            assert(slashed.last() == path.last());
        } else {
            assert(slashed.last() == '/');
        }
    }
    assert(trim_end(spaced) == slashed) by {
        reveal_with_fuel(trim_end, 2);
    }

    let slash = seq!['/'];
    assert(slash.is_prefix_of(slashed)) by {
        assert(slashed.subrange(0, 1) =~= slash);
    }
    assert(slashed.skip(1) =~= path);
    assert(!slash.is_prefix_of(path)) by {
        if slash.is_prefix_of(path) {
            assert(path.subrange(0, 1)[0] == slash[0]);
        }
    }
    assert(strip_leading(slashed, slash) == path) by {
        reveal_with_fuel(strip_leading, 2);
    }
}

} // verus!
