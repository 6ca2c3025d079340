//! Character-level text operations with their mathematical meaning.
//!
//! Strings are viewed as `Seq<char>`; the executable helpers work on a
//! `Vec<char>` copy of a string and on index windows into it.

use vstd::prelude::*;

verus! {

/// Appends one character to a string (std `String::push`): the string's
/// characters afterwards are the old ones followed by `c`.
#[verifier::external_body]
pub(crate) fn push_char(s: &mut String, c: char)
    ensures
        final(s)@ == old(s)@.push(c),
{
    s.push(c);
}

/// The characters of `s`, in order.
pub fn chars_of(s: &str) -> (r: Vec<char>)
    ensures
        r@ == s@,
{
    let mut out: Vec<char> = Vec::new();
    for c in it: s.chars()
        invariant
            out@ == it.seq().take(it.index() as int),
    {
        out.push(c);
    }
    out
}

/// A string holding `cs[lo..hi]`.
pub fn string_of_range(cs: &Vec<char>, lo: usize, hi: usize) -> (r: String)
    requires
        lo <= hi <= cs@.len(),
    ensures
        r@ == cs@.subrange(lo as int, hi as int),
{
    let mut out = String::new();
    let mut i = lo;
    while i < hi
        invariant
            lo <= i <= hi <= cs@.len(),
            out@ == cs@.subrange(lo as int, i as int),
        decreases hi - i,
    {
        push_char(&mut out, cs[i]);
        i = i + 1;
    }
    out
}

/// A string holding all of `cs`.
pub fn string_of_chars(cs: &Vec<char>) -> (r: String)
    ensures
        r@ == cs@,
{
    let r = string_of_range(cs, 0, cs.len());
    assert(cs@.subrange(0, cs@.len() as int) =~= cs@);
    r
}

/// A copy of a string literal or slice as an owned string.
pub fn owned(s: &str) -> (r: String)
    ensures
        r@ == s@,
{
    String::from_str(s)
}

/// `a` followed by `b`.
pub fn concat(a: &str, b: &str) -> (r: String)
    ensures
        r@ == a@ + b@,
{
    let mut r = String::from_str(a);
    r.append(b);
    r
}

/// `a`, `b` and `c` one after the other.
pub fn concat3(a: &str, b: &str, c: &str) -> (r: String)
    ensures
        r@ == a@ + b@ + c@,
{
    let mut r = String::from_str(a);
    r.append(b);
    r.append(c);
    r
}

/// Whether two strings hold the same characters.
pub fn str_eq(a: &str, b: &str) -> (r: bool)
    ensures
        r == (a@ == b@),
{
    let x = chars_of(a);
    let y = chars_of(b);
    if x.len() != y.len() {
        return false;
    }
    let mut i: usize = 0;
    while i < x.len()
        invariant
            x@ == a@,
            y@ == b@,
            x@.len() == y@.len(),
            i <= x@.len(),
            forall|j: int| 0 <= j < i ==> x@[j] == y@[j],
        decreases x@.len() - i,
    {
        if x[i] != y[i] {
            return false;
        }
        i = i + 1;
    }
    assert(x@ =~= y@);
    true
}

/// The `White_Space` property of Unicode, which std's `char::is_whitespace` tests.
pub open spec fn is_whitespace(c: char) -> bool {
    ||| ('\u{9}' <= c && c <= '\u{d}')
    ||| c == ' '
    ||| c == '\u{85}'
    ||| c == '\u{a0}'
    ||| c == '\u{1680}'
    ||| ('\u{2000}' <= c && c <= '\u{200a}')
    ||| c == '\u{2028}'
    ||| c == '\u{2029}'
    ||| c == '\u{202f}'
    ||| c == '\u{205f}'
    ||| c == '\u{3000}'
}

pub fn char_is_whitespace(c: char) -> (r: bool)
    ensures
        r == is_whitespace(c),
{
    ('\u{9}' <= c && c <= '\u{d}') || c == ' ' || c == '\u{85}' || c == '\u{a0}'
        || c == '\u{1680}' || ('\u{2000}' <= c && c <= '\u{200a}') || c == '\u{2028}'
        || c == '\u{2029}' || c == '\u{202f}' || c == '\u{205f}' || c == '\u{3000}'
}

/// The classes of characters that are trimmed from the ends of a text.
#[derive(Clone, Copy, PartialEq, Eq, Debug)]
pub enum CharClass {
    /// Unicode white space.
    Whitespace,
    /// The double and the single quote.
    Quote,
}

pub open spec fn in_class(k: CharClass, c: char) -> bool {
    match k {
        CharClass::Whitespace => is_whitespace(c),
        CharClass::Quote => c == '"' || c == '\'',
    }
}

pub fn char_in_class(k: CharClass, c: char) -> (r: bool)
    ensures
        r == in_class(k, c),
{
    match k {
        CharClass::Whitespace => char_is_whitespace(c),
        CharClass::Quote => c == '"' || c == '\'',
    }
}

/// `s` without its leading characters of class `k`.
pub open spec fn trim_start_class(s: Seq<char>, k: CharClass) -> Seq<char>
    decreases s.len(),
{
    if s.len() > 0 && in_class(k, s[0]) {
        trim_start_class(s.drop_first(), k)
    } else {
        s
    }
}

/// `s` without its trailing characters of class `k`.
pub open spec fn trim_end_class(s: Seq<char>, k: CharClass) -> Seq<char>
    decreases s.len(),
{
    if s.len() > 0 && in_class(k, s.last()) {
        trim_end_class(s.drop_last(), k)
    } else {
        s
    }
}

/// `s` without leading and trailing characters of class `k`.
pub open spec fn trim_class(s: Seq<char>, k: CharClass) -> Seq<char> {
    trim_end_class(trim_start_class(s, k), k)
}

/// `s` without leading and trailing white space (std `str::trim`).
pub open spec fn trim(s: Seq<char>) -> Seq<char> {
    trim_class(s, CharClass::Whitespace)
}

/// Trimming the start leaves a suffix that starts outside the class.
pub proof fn lemma_trim_start_shape(s: Seq<char>, k: CharClass)
    ensures
        trim_start_class(s, k).len() <= s.len(),
        trim_start_class(s, k) == s.skip(s.len() - trim_start_class(s, k).len()),
        trim_start_class(s, k).len() == 0 || !in_class(k, trim_start_class(s, k)[0]),
    decreases s.len(),
{
    if s.len() > 0 && in_class(k, s[0]) {
        lemma_trim_start_shape(s.drop_first(), k);
        let r = trim_start_class(s.drop_first(), k);
        assert(s.drop_first().skip(s.drop_first().len() - r.len()) =~= s.skip(s.len() - r.len()));
    } else {
        assert(s.skip(0) =~= s);
    }
}

/// Trimming the end leaves a prefix that ends outside the class.
pub proof fn lemma_trim_end_shape(s: Seq<char>, k: CharClass)
    ensures
        trim_end_class(s, k).len() <= s.len(),
        trim_end_class(s, k) == s.take(trim_end_class(s, k).len() as int),
        trim_end_class(s, k).len() == 0 || !in_class(k, trim_end_class(s, k).last()),
    decreases s.len(),
{
    if s.len() > 0 && in_class(k, s.last()) {
        lemma_trim_end_shape(s.drop_last(), k);
        let r = trim_end_class(s.drop_last(), k);
        assert(s.drop_last().take(r.len() as int) =~= s.take(r.len() as int));
    } else {
        assert(s.take(s.len() as int) =~= s);
    }
}

/// Trimming a trimmed text changes nothing.
pub proof fn lemma_trim_idempotent(s: Seq<char>, k: CharClass)
    ensures
        trim_class(trim_class(s, k), k) == trim_class(s, k),
{
    let a = trim_start_class(s, k);
    lemma_trim_start_shape(s, k);
    let b = trim_end_class(a, k);
    lemma_trim_end_shape(a, k);
    if b.len() > 0 {
        assert(b[0] == a[0]);
    }
    assert(trim_start_class(b, k) == b);
    assert(trim_end_class(b, k) == b);
}

/// The window `[lo, hi)` of `cs` narrowed past the characters of class `k` at
/// both of its ends.
pub fn trim_window(cs: &Vec<char>, lo: usize, hi: usize, k: CharClass) -> (r: (usize, usize))
    requires
        lo <= hi <= cs@.len(),
    ensures
        lo <= r.0 <= r.1 <= hi,
        cs@.subrange(r.0 as int, r.1 as int) == trim_class(
            cs@.subrange(lo as int, hi as int),
            k,
        ),
{
    let mut i = lo;
    while i < hi && char_in_class(k, cs[i])
        invariant
            lo <= i <= hi <= cs@.len(),
            trim_start_class(cs@.subrange(lo as int, hi as int), k) == trim_start_class(
                cs@.subrange(i as int, hi as int),
                k,
            ),
        decreases hi - i,
    {
        assert(cs@.subrange(i as int, hi as int).drop_first() =~= cs@.subrange(
            i + 1,
            hi as int,
        ));
        i = i + 1;
    }
    assert(trim_start_class(cs@.subrange(i as int, hi as int), k) == cs@.subrange(
        i as int,
        hi as int,
    ));
    let mut j = hi;
    while j > i && char_in_class(k, cs[j - 1])
        invariant
            lo <= i <= j <= hi <= cs@.len(),
            trim_class(cs@.subrange(lo as int, hi as int), k) == trim_end_class(
                cs@.subrange(i as int, j as int),
                k,
            ),
        decreases j - i,
    {
        assert(cs@.subrange(i as int, j as int).drop_last() =~= cs@.subrange(
            i as int,
            j - 1,
        ));
        j = j - 1;
    }
    (i, j)
}

/// std `str::trim`.
pub fn trim_str(s: &str) -> (r: String)
    ensures
        r@ == trim(s@),
{
    let cs = chars_of(s);
    let (a, b) = trim_window(&cs, 0, cs.len(), CharClass::Whitespace);
    assert(cs@.subrange(0, cs@.len() as int) =~= cs@);
    string_of_range(&cs, a, b)
}

/// `t` occurs in `s` at position `i`.
pub open spec fn occurs_at(s: Seq<char>, t: Seq<char>, i: int) -> bool {
    0 <= i && i + t.len() <= s.len() && s.subrange(i, i + t.len()) == t
}

/// `t` occurs somewhere in `s` (std `str::contains` with a string pattern).
pub open spec fn contains_text(s: Seq<char>, t: Seq<char>) -> bool {
    exists|i: int| occurs_at(s, t, i)
}

/// The first position at which `t` occurs in `s` (std `str::find`).
#[verifier::opaque]
pub open spec fn find_text(s: Seq<char>, t: Seq<char>) -> Option<int> {
    if contains_text(s, t) {
        Some(choose|i: int| occurs_at(s, t, i) && forall|j: int| 0 <= j < i ==> !occurs_at(s, t, j))
    } else {
        None
    }
}

/// `t` is a prefix of `s`.
pub open spec fn starts_with(s: Seq<char>, t: Seq<char>) -> bool {
    t.len() <= s.len() && s.subrange(0, t.len() as int) == t
}

/// Whether `t` occurs in `cs` at `i`.
pub fn occurs_at_exec(cs: &Vec<char>, t: &Vec<char>, i: usize) -> (r: bool)
    ensures
        r == occurs_at(cs@, t@, i as int),
{
    if i > cs.len() || t.len() > cs.len() - i {
        return false;
    }
    let mut j: usize = 0;
    while j < t.len()
        invariant
            i + t@.len() <= cs.len(),
            j <= t@.len(),
            forall|m: int| 0 <= m < j ==> cs@[i + m] == t@[m],
        decreases t@.len() - j,
    {
        if cs[i + j] != t[j] {
            assert(cs@.subrange(i as int, i + t@.len())[j as int] != t@[j as int]);
            return false;
        }
        j = j + 1;
    }
    assert(cs@.subrange(i as int, i + t@.len()) =~= t@);
    true
}

/// The first position at which `t` occurs in `cs`.
pub fn find_exec(cs: &Vec<char>, t: &Vec<char>) -> (r: Option<usize>)
    ensures
        r matches Some(i) ==> find_text(cs@, t@) == Some(i as int),
        r is None ==> find_text(cs@, t@) is None,
{
    let mut i: usize = 0;
    while i < cs.len()
        invariant
            i <= cs@.len(),
            forall|j: int| 0 <= j < i ==> !occurs_at(cs@, t@, j),
        decreases cs@.len() - i,
    {
        if occurs_at_exec(cs, t, i) {
            proof {
                lemma_first_occurrence(cs@, t@, i as int);
            }
            return Some(i);
        }
        i = i + 1;
    }
    if occurs_at_exec(cs, t, i) {
        proof {
            lemma_first_occurrence(cs@, t@, i as int);
        }
        return Some(i);
    }
    assert forall|j: int| !occurs_at(cs@, t@, j) by {
        if j > i {
            assert(j + t@.len() > cs@.len());
        }
    }
    proof {
        reveal(find_text);
    }
    None
}

/// A position at which `t` occurs, with no occurrence before it, is the one
/// that `find_text` gives.
pub proof fn lemma_first_occurrence(s: Seq<char>, t: Seq<char>, i: int)
    requires
        occurs_at(s, t, i),
        forall|j: int| 0 <= j < i ==> !occurs_at(s, t, j),
    ensures
        find_text(s, t) == Some(i),
{
    reveal(find_text);
    let w = choose|k: int| occurs_at(s, t, k) && forall|j: int| 0 <= j < k ==> !occurs_at(s, t, j);
    assert(occurs_at(s, t, w) && forall|j: int| 0 <= j < w ==> !occurs_at(s, t, j));
    if w < i {
        assert(!occurs_at(s, t, w));
    } else if w > i {
        assert(!occurs_at(s, t, i));
    }
}

/// std `str::contains` with a string pattern.
pub fn contains_str(s: &str, t: &str) -> (r: bool)
    ensures
        r == contains_text(s@, t@),
{
    let cs = chars_of(s);
    let ts = chars_of(t);
    let f = find_exec(&cs, &ts);
    proof {
        reveal(find_text);
    }
    f.is_some()
}

/// std `str::starts_with` with a string pattern.
pub fn starts_with_str(s: &str, t: &str) -> (r: bool)
    ensures
        r == starts_with(s@, t@),
{
    let cs = chars_of(s);
    let ts = chars_of(t);
    occurs_at_exec(&cs, &ts, 0)
}

/// `l` without one trailing carriage return.
pub open spec fn strip_cr(l: Seq<char>) -> Seq<char> {
    if l.len() > 0 && l.last() == '\r' {
        l.drop_last()
    } else {
        l
    }
}

/// The lines of `s` as std `str::lines` yields them: split at each `\n`, a
/// `\r` right before the `\n` dropped, and no empty line after a final `\n`.
pub open spec fn lines(s: Seq<char>) -> Seq<Seq<char>>
    decreases s.len(),
{
    if s.len() == 0 {
        Seq::empty()
    } else if s.contains('\n') {
        proof {
            lemma_first_newline_exists(s);
        }
        let i = choose|i: int| 0 <= i < s.len() && s[i] == '\n' && forall|j: int| 0 <= j < i ==> s[j] != '\n';
        seq![strip_cr(s.take(i))] + lines(s.skip(i + 1))
    } else {
        seq![s]
    }
}

pub proof fn lemma_first_newline_exists(s: Seq<char>)
    requires
        s.contains('\n'),
    ensures
        exists|i: int| 0 <= i < s.len() && s[i] == '\n' && forall|j: int| 0 <= j < i ==> s[j] != '\n',
    decreases s.len(),
{
    let k = choose|k: int| 0 <= k < s.len() && s[k] == '\n';
    if s[0] == '\n' {
        assert(0 <= 0 < s.len() && s[0] == '\n' && forall|j: int| 0 <= j < 0 ==> s[j] != '\n');
    } else {
        assert(s.drop_first()[k - 1] == '\n');
        lemma_first_newline_exists(s.drop_first());
        let i = choose|i: int|
            0 <= i < s.drop_first().len() && s.drop_first()[i] == '\n' && forall|j: int|
                0 <= j < i ==> s.drop_first()[j] != '\n';
        assert forall|j: int| 0 <= j < i + 1 implies s[j] != '\n' by {
            if j > 0 {
                assert(s[j] == s.drop_first()[j - 1]);
            }
        }
        assert(s[i + 1] == '\n');
    }
}

/// One step of `lines`: the first line ends at the first newline.
pub proof fn lemma_lines_step(s: Seq<char>, i: int)
    requires
        0 <= i < s.len(),
        s[i] == '\n',
        forall|j: int| 0 <= j < i ==> s[j] != '\n',
    ensures
        lines(s) == seq![strip_cr(s.take(i))] + lines(s.skip(i + 1)),
{
    reveal(lines);
    assert(s.contains('\n'));
    let w = choose|w: int| 0 <= w < s.len() && s[w] == '\n' && forall|j: int| 0 <= j < w ==> s[j] != '\n';
    lemma_first_newline_exists(s);
    if w < i {
        assert(s[w] != '\n');
    } else if w > i {
        assert(s[i] != '\n');
    }
}

/// Maps each window `(lo, hi)` to the characters `s[lo..hi]`.
#[verifier::opaque]
pub open spec fn window_texts(s: Seq<char>, ws: Seq<(usize, usize)>) -> Seq<Seq<char>> {
    ws.map_values(|w: (usize, usize)| s.subrange(w.0 as int, w.1 as int))
}

/// The window of the line that starts at `pos`, and where the next line starts.
fn next_line(cs: &Vec<char>, pos: usize) -> (r: (usize, usize))
    requires
        pos < cs@.len(),
    ensures
        pos <= r.0 <= r.1 <= cs@.len(),
        pos < r.1,
        lines(cs@.skip(pos as int)) == seq![cs@.subrange(pos as int, r.0 as int)] + lines(
            cs@.skip(r.1 as int),
        ),
{
    let mut j = pos;
    while j < cs.len() && cs[j] != '\n'
        invariant
            pos <= j <= cs@.len(),
            forall|m: int| pos <= m < j ==> cs@[m] != '\n',
        decreases cs@.len() - j,
    {
        j = j + 1;
    }
    let ghost rest = cs@.skip(pos as int);
    if j < cs.len() {
        let end = if j > pos && cs[j - 1] == '\r' {
            j - 1
        } else {
            j
        };
        proof {
            assert forall|m: int| 0 <= m < j - pos implies rest[m] != '\n' by {
                assert(rest[m] == cs@[pos + m]);
            }
            assert(rest[j - pos] == '\n');
            lemma_lines_step(rest, j - pos);
            assert(rest.skip(j - pos + 1) =~= cs@.skip(j + 1));
            assert(strip_cr(rest.take(j - pos)) =~= cs@.subrange(pos as int, end as int));
        }
        (end, j + 1)
    } else {
        proof {
            assert(!rest.contains('\n')) by {
                if rest.contains('\n') {
                    let m = choose|m: int| 0 <= m < rest.len() && rest[m] == '\n';
                    assert(cs@[pos + m] == '\n');
                }
            }
            assert(rest =~= cs@.subrange(pos as int, cs@.len() as int));
            assert(cs@.skip(cs@.len() as int) =~= Seq::<char>::empty());
            lemma_lines_no_newline(rest);
            lemma_lines_empty(cs@.skip(cs@.len() as int));
            assert(seq![rest] =~= seq![rest] + Seq::<Seq<char>>::empty());
        }
        (cs.len(), cs.len())
    }
}

/// A text without a newline is one line; the empty text has none.
pub proof fn lemma_lines_no_newline(s: Seq<char>)
    requires
        s.len() > 0,
        !s.contains('\n'),
    ensures
        lines(s) == seq![s],
{
    reveal(lines);
}

pub proof fn lemma_lines_empty(s: Seq<char>)
    requires
        s.len() == 0,
    ensures
        lines(s) == Seq::<Seq<char>>::empty(),
{
    reveal(lines);
}

pub proof fn lemma_window_texts_push(s: Seq<char>, ws: Seq<(usize, usize)>, w: (usize, usize))
    ensures
        window_texts(s, ws.push(w)) == window_texts(s, ws).push(s.subrange(w.0 as int, w.1 as int)),
{
    reveal(window_texts);
    assert(window_texts(s, ws.push(w)) =~= window_texts(s, ws).push(
        s.subrange(w.0 as int, w.1 as int),
    ));
}

proof fn lemma_lines_advance(
    s: Seq<char>,
    ws: Seq<(usize, usize)>,
    pos: usize,
    end: usize,
    next: usize,
)
    requires
        lines(s) == window_texts(s, ws) + lines(s.skip(pos as int)),
        lines(s.skip(pos as int)) == seq![s.subrange(pos as int, end as int)] + lines(
            s.skip(next as int),
        ),
    ensures
        lines(s) == window_texts(s, ws.push((pos, end))) + lines(s.skip(next as int)),
{
    lemma_window_texts_push(s, ws, (pos, end));
    let x = s.subrange(pos as int, end as int);
    let l = lines(s.skip(next as int));
    let w = window_texts(s, ws);
    assert(w + (seq![x] + l) =~= w.push(x) + l);
}

/// The windows of `cs` that hold its lines, as std `str::lines` splits them.
pub fn line_windows(cs: &Vec<char>) -> (r: Vec<(usize, usize)>)
    ensures
        forall|k: int| #![trigger r@[k]] 0 <= k < r@.len() ==> r@[k].0 <= r@[k].1 && r@[k].1 <= cs@.len(),
        window_texts(cs@, r@) == lines(cs@),
{
    let mut out: Vec<(usize, usize)> = Vec::new();
    let mut pos: usize = 0;
    assert(cs@.skip(0) =~= cs@);
    assert(window_texts(cs@, out@) =~= Seq::<Seq<char>>::empty()) by {
        reveal(window_texts);
    }
    assert(lines(cs@) =~= window_texts(cs@, out@) + lines(cs@.skip(0)));
    while pos < cs.len()
        invariant
            pos <= cs@.len(),
            forall|k: int| #![trigger out@[k]] 0 <= k < out@.len() ==> out@[k].0 <= out@[k].1 && out@[k].1 <= cs@.len(),
            lines(cs@) == window_texts(cs@, out@) + lines(cs@.skip(pos as int)),
        decreases cs@.len() - pos,
    {
        let (end, next) = next_line(cs, pos);
        let ghost old_out = out@;
        out.push((pos, end));
        proof {
            lemma_lines_advance(cs@, old_out, pos, end, next);
        }
        pos = next;
    }
    assert(cs@.skip(pos as int) =~= Seq::<char>::empty());
    proof {
        lemma_lines_empty(cs@.skip(pos as int));
    }
    assert(window_texts(cs@, out@) + Seq::<Seq<char>>::empty() =~= window_texts(cs@, out@));
    out
}

/// The first `Some` that `f` gives over the items of `s`, in order.
pub open spec fn find_map<A, B>(s: Seq<A>, f: spec_fn(A) -> Option<B>) -> Option<B>
    decreases s.len(),
{
    if s.len() == 0 {
        None
    } else {
        match f(s[0]) {
            Some(b) => Some(b),
            None => find_map(s.drop_first(), f),
        }
    }
}

/// Searching from item `i` on, after items that gave `None`.
pub proof fn lemma_find_map_skip<A, B>(s: Seq<A>, f: spec_fn(A) -> Option<B>, i: int)
    requires
        0 <= i < s.len(),
        find_map(s, f) == find_map(s.skip(i), f),
        f(s[i]) is None,
    ensures
        find_map(s, f) == find_map(s.skip(i + 1), f),
{
    assert(s.skip(i).drop_first() =~= s.skip(i + 1));
}

/// `find_map` over the whole sequence starts from item 0.
pub proof fn lemma_find_map_start<A, B>(s: Seq<A>, f: spec_fn(A) -> Option<B>)
    ensures
        find_map(s, f) == find_map(s.skip(0), f),
{
    assert(s.skip(0) =~= s);
}

/// `find_map` at an item that gives `Some`.
pub proof fn lemma_find_map_hit<A, B>(s: Seq<A>, f: spec_fn(A) -> Option<B>, i: int)
    requires
        0 <= i < s.len(),
        find_map(s, f) == find_map(s.skip(i), f),
        f(s[i]) is Some,
    ensures
        find_map(s, f) == f(s[i]),
{
}

/// `find_map` over a sequence that has been searched to its end.
pub proof fn lemma_find_map_end<A, B>(s: Seq<A>, f: spec_fn(A) -> Option<B>)
    requires
        find_map(s, f) == find_map(s.skip(s.len() as int), f),
    ensures
        find_map(s, f) is None,
{
    assert(s.skip(s.len() as int) =~= Seq::<A>::empty());
}

/// Whether the window `cs[lo..hi]` starts with `t`.
pub fn window_starts_with(cs: &Vec<char>, lo: usize, hi: usize, t: &Vec<char>) -> (r: bool)
    requires
        lo <= hi <= cs@.len(),
    ensures
        r == starts_with(cs@.subrange(lo as int, hi as int), t@),
{
    if t.len() > hi - lo {
        return false;
    }
    let r = occurs_at_exec(cs, t, lo);
    assert(cs@.subrange(lo as int, hi as int).subrange(0, t@.len() as int) =~= cs@.subrange(
        lo as int,
        lo + t@.len(),
    ));
    r
}

/// The lines of a text, each as a window into its characters.
pub fn lines_of(s: &str) -> (r: (Vec<char>, Vec<(usize, usize)>))
    ensures
        r.0@ == s@,
        forall|k: int| #![trigger r.1@[k]] 0 <= k < r.1@.len() ==> r.1@[k].0 <= r.1@[k].1 && r.1@[k].1 <= r.0@.len(),
        window_texts(r.0@, r.1@) == lines(s@),
{
    let cs = chars_of(s);
    let ws = line_windows(&cs);
    (cs, ws)
}

/// A line of a text at position `i` of its windows.
pub proof fn lemma_window_line(cs: Seq<char>, ws: Seq<(usize, usize)>, i: int)
    requires
        0 <= i < ws.len(),
        window_texts(cs, ws) == lines(cs),
    ensures
        lines(cs)[i] == cs.subrange(ws[i].0 as int, ws[i].1 as int),
        lines(cs).len() == ws.len(),
{
    reveal(window_texts);
}

/// `t` is a suffix of `s`.
pub open spec fn ends_with(s: Seq<char>, t: Seq<char>) -> bool {
    t.len() <= s.len() && s.skip(s.len() - t.len()) == t
}

/// std `str::ends_with` with a string pattern.
pub fn ends_with_str(s: &str, t: &str) -> (r: bool)
    ensures
        r == ends_with(s@, t@),
{
    let cs = chars_of(s);
    let ts = chars_of(t);
    if ts.len() > cs.len() {
        return false;
    }
    let r = occurs_at_exec(&cs, &ts, cs.len() - ts.len());
    assert(cs@.subrange(cs@.len() - ts@.len(), cs@.len() as int) =~= cs@.skip(
        cs@.len() - ts@.len(),
    ));
    r
}

/// The lines of `s` before position `i` (std `str::lines`), when `s[i]` is a
/// line's first character.
pub proof fn lemma_lines_len(s: Seq<char>)
    ensures
        lines(s).len() <= s.len(),
    decreases s.len(),
{
    reveal(lines);
    if s.len() > 0 && s.contains('\n') {
        let i = choose|i: int| 0 <= i < s.len() && s[i] == '\n' && forall|j: int| 0 <= j < i ==> s[j] != '\n';
        lemma_first_newline_exists(s);
        lemma_lines_len(s.skip(i + 1));
    }
}

/// The `Some` values that `f` gives over the items of `s`, in order.
pub open spec fn filter_map_seq<A, B>(s: Seq<A>, f: spec_fn(A) -> Option<B>) -> Seq<B>
    decreases s.len(),
{
    if s.len() == 0 {
        Seq::empty()
    } else {
        let r = filter_map_seq(s.drop_last(), f);
        match f(s.last()) {
            Some(b) => r.push(b),
            None => r,
        }
    }
}

/// One more item of `filter_map_seq`.
pub proof fn lemma_filter_map_step<A, B>(s: Seq<A>, f: spec_fn(A) -> Option<B>, i: int)
    requires
        0 <= i < s.len(),
    ensures
        filter_map_seq(s.take(i + 1), f) == match f(s[i]) {
            Some(b) => filter_map_seq(s.take(i), f).push(b),
            None => filter_map_seq(s.take(i), f),
        },
{
    assert(s.take(i + 1).drop_last() =~= s.take(i));
}

/// `filter_map_seq` over the whole of `s`.
pub proof fn lemma_take_all<A>(s: Seq<A>)
    ensures
        s.take(s.len() as int) == s,
{
    assert(s.take(s.len() as int) =~= s);
}

/// The characters `cs[from..]`.
pub fn chars_from(cs: &Vec<char>, from: usize) -> (r: Vec<char>)
    requires
        from <= cs@.len(),
    ensures
        r@ == cs@.skip(from as int),
{
    let mut out: Vec<char> = Vec::new();
    let mut i = from;
    while i < cs.len()
        invariant
            from <= i <= cs@.len(),
            out@ == cs@.subrange(from as int, i as int),
        decreases cs@.len() - i,
    {
        out.push(cs[i]);
        i = i + 1;
    }
    assert(cs@.subrange(from as int, cs@.len() as int) =~= cs@.skip(from as int));
    out
}

/// A position found by `find_text` lies where the text occurs.
pub proof fn lemma_find_text_occurs(s: Seq<char>, t: Seq<char>)
    requires
        find_text(s, t) is Some,
    ensures
        occurs_at(s, t, find_text(s, t)->0),
{
    reveal(find_text);
    let i = choose|i: int| occurs_at(s, t, i);
    let w = choose|w: int| occurs_at(s, t, w) && forall|j: int| 0 <= j < w ==> !occurs_at(s, t, j);
    assert(exists|w: int| occurs_at(s, t, w) && forall|j: int| 0 <= j < w ==> !occurs_at(s, t, j)) by {
        lemma_first_occurrence_exists(s, t, i);
    }
}

/// When `t` occurs in `s`, it has a first occurrence.
pub proof fn lemma_first_occurrence_exists(s: Seq<char>, t: Seq<char>, i: int)
    requires
        occurs_at(s, t, i),
    ensures
        exists|w: int| occurs_at(s, t, w) && forall|j: int| 0 <= j < w ==> !occurs_at(s, t, j),
    decreases i,
{
    if exists|j: int| 0 <= j < i && occurs_at(s, t, j) {
        let j = choose|j: int| 0 <= j < i && occurs_at(s, t, j);
        lemma_first_occurrence_exists(s, t, j);
    } else {
        assert(occurs_at(s, t, i) && forall|j: int| 0 <= j < i ==> !occurs_at(s, t, j));
    }
}

/// The texts joined with `sep` between them (std `join`).
pub open spec fn join_sep(ws: Seq<Seq<char>>, sep: Seq<char>) -> Seq<char>
    decreases ws.len(),
{
    if ws.len() == 0 {
        Seq::empty()
    } else if ws.len() == 1 {
        ws[0]
    } else {
        join_sep(ws.drop_last(), sep) + sep + ws.last()
    }
}

/// Strings joined with `sep` between them.
pub fn join_strings(ws: &Vec<String>, sep: &str) -> (r: String)
    ensures
        r@ == join_sep(ws.deep_view(), sep@),
{
    let mut out = String::new();
    let mut i: usize = 0;
    while i < ws.len()
        invariant
            i <= ws@.len(),
            out@ == join_sep(ws.deep_view().take(i as int), sep@),
        decreases ws@.len() - i,
    {
        assert(ws.deep_view().take(i + 1).drop_last() =~= ws.deep_view().take(i as int));
        if i > 0 {
            out.append(sep);
        } else {
            assert(ws.deep_view().take(0) =~= Seq::<Seq<char>>::empty());
        }
        out.append(ws[i].as_str());
        i = i + 1;
    }
    assert(ws.deep_view().take(ws@.len() as int) =~= ws.deep_view());
    out
}

/// Whether `s` is one of `options`.
pub fn str_in(s: &str, options: &[&str]) -> (r: bool)
    ensures
        r == options.deep_view().contains(s@),
{
    let mut i: usize = 0;
    while i < options.len()
        invariant
            i <= options@.len(),
            forall|j: int| 0 <= j < i ==> options.deep_view()[j] != s@,
        decreases options@.len() - i,
    {
        if str_eq(options[i], s) {
            assert(options.deep_view()[i as int] == s@);
            return true;
        }
        i = i + 1;
    }
    false
}

} // verus!
