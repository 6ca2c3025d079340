//! What the launcher makes of the text that tools print: log lines without
//! terminal escapes, the split of a stream into complete lines, and the short
//! excerpt of a command's output that errors and logs show.

use vstd::prelude::*;
use vstd::utf8::{char_is_scalar, encode_scalar, encode_utf8};
use crate::text::{
    in_class, lemma_trim_idempotent, trim_end_class, trim_start_class,
    chars_of, concat, find_map, lemma_find_map_end, lemma_find_map_hit, lemma_find_map_skip,
    lemma_find_map_start, line_windows, lines, owned, push_char, string_of_range, trim, trim_str,
    trim_window, window_texts, CharClass,
};

verus! {

/// ASCII letters end a terminal escape sequence.
pub open spec fn is_ascii_alpha(c: char) -> bool {
    ('a' <= c && c <= 'z') || ('A' <= c && c <= 'Z')
}

/// What follows an escape character once the escape sequence is dropped:
/// everything up to and including the first ASCII letter goes.
pub open spec fn after_escape(t: Seq<char>) -> Seq<char>
    decreases t.len(),
{
    if t.len() == 0 {
        t
    } else if is_ascii_alpha(t[0]) {
        t.drop_first()
    } else {
        after_escape(t.drop_first())
    }
}

/// `s` without escape sequences and without backspace characters.
pub open spec fn strip_controls(s: Seq<char>) -> Seq<char>
    decreases s.len(),
{
    if s.len() == 0 {
        s
    } else if s[0] == '\u{1b}' {
        proof {
            lemma_after_escape_shorter(s.drop_first());
        }
        strip_controls(after_escape(s.drop_first()))
    } else if s[0] == '\u{8}' {
        strip_controls(s.drop_first())
    } else {
        seq![s[0]] + strip_controls(s.drop_first())
    }
}

pub proof fn lemma_after_escape_shorter(t: Seq<char>)
    ensures
        after_escape(t).len() <= t.len(),
    decreases t.len(),
{
    if t.len() > 0 && !is_ascii_alpha(t[0]) {
        lemma_after_escape_shorter(t.drop_first());
    }
}

/// A log line as it is shown: escape sequences and backspaces removed, then
/// white space trimmed from both ends.
pub open spec fn sanitized(s: Seq<char>) -> Seq<char> {
    trim(strip_controls(s))
}

/// Skips the escape sequence whose first character after the escape is at `j`.
fn skip_escape(cs: &Vec<char>, j: usize) -> (r: usize)
    requires
        j <= cs@.len(),
    ensures
        j <= r <= cs@.len(),
        after_escape(cs@.skip(j as int)) == cs@.skip(r as int),
{
    let mut k = j;
    while k < cs.len() && !(('a' <= cs[k] && cs[k] <= 'z') || ('A' <= cs[k] && cs[k] <= 'Z'))
        invariant
            j <= k <= cs@.len(),
            after_escape(cs@.skip(j as int)) == after_escape(cs@.skip(k as int)),
        decreases cs@.len() - k,
    {
        assert(cs@.skip(k as int).drop_first() =~= cs@.skip(k + 1));
        k = k + 1;
    }
    if k < cs.len() {
        assert(cs@.skip(k as int).drop_first() =~= cs@.skip(k + 1));
        k + 1
    } else {
        assert(cs@.skip(k as int) =~= Seq::<char>::empty());
        k
    }
}

/// A log line without terminal escape sequences and backspaces, trimmed.
pub fn sanitize_log_line(line: &str) -> (r: String)
    ensures
        r@ == sanitized(line@),
{
    let cs = chars_of(line);
    let mut out = String::new();
    let mut i: usize = 0;
    assert(cs@.skip(0) =~= cs@);
    while i < cs.len()
        invariant
            i <= cs@.len(),
            strip_controls(cs@) == out@ + strip_controls(cs@.skip(i as int)),
        decreases cs@.len() - i,
    {
        let ghost rest = cs@.skip(i as int);
        assert(rest.drop_first() =~= cs@.skip(i + 1));
        let c = cs[i];
        if c == '\u{1b}' {
            let k = skip_escape(&cs, i + 1);
            i = k;
        } else if c == '\u{8}' {
            i = i + 1;
        } else {
            let ghost before = out@;
            push_char(&mut out, c);
            assert(before + (seq![c] + strip_controls(cs@.skip(i + 1))) =~= out@ + strip_controls(
                cs@.skip(i + 1),
            ));
            i = i + 1;
        }
    }
    assert(cs@.skip(i as int) =~= Seq::<char>::empty());
    assert(out@ + Seq::<char>::empty() =~= out@);
    trim_str(out.as_str())
}

/// Whether `c` ends a line in a stream of tool output.
pub open spec fn is_line_break(c: char) -> bool {
    c == '\n' || c == '\r'
}

/// The position of the first line break in `s`.
pub open spec fn first_line_break(s: Seq<char>) -> Option<int> {
    if exists|i: int| 0 <= i < s.len() && is_line_break(s[i]) {
        Some(
            choose|i: int|
                0 <= i < s.len() && is_line_break(s[i]) && forall|j: int|
                    0 <= j < i ==> !is_line_break(s[j]),
        )
    } else {
        None
    }
}

/// The first position in `s` that holds `\n` or `\r`, counted in characters.
fn line_break_at(text: &str) -> (r: Option<usize>)
    ensures
        r matches Some(i) ==> first_line_break(text@) == Some(i as int),
        r is None ==> first_line_break(text@) is None,
{
    let cs = chars_of(text);
    let mut i: usize = 0;
    while i < cs.len()
        invariant
            cs@ == text@,
            i <= cs@.len(),
            forall|j: int| 0 <= j < i ==> !is_line_break(cs@[j]),
        decreases cs@.len() - i,
    {
        if cs[i] == '\n' || cs[i] == '\r' {
            proof {
                let s = text@;
                let w = choose|w: int|
                    0 <= w < s.len() && is_line_break(s[w]) && forall|j: int|
                        0 <= j < w ==> !is_line_break(s[j]);
                assert(0 <= i < s.len() && is_line_break(s[i as int]) && forall|j: int|
                    0 <= j < i ==> !is_line_break(s[j]));
                if w < i {
                    assert(!is_line_break(s[w]));
                } else if w > i {
                    assert(!is_line_break(s[i as int]));
                }
            }
            return Some(i);
        }
        i = i + 1;
    }
    None
}

/// The UTF-8 encoding of a concatenation is the concatenation of the
/// encodings.
proof fn lemma_encode_utf8_concat(a: Seq<char>, b: Seq<char>)
    ensures
        encode_utf8(a + b) == encode_utf8(a) + encode_utf8(b),
    decreases a.len(),
{
    if a.len() == 0 {
        assert(a + b =~= b);
        assert(encode_utf8(a) + encode_utf8(b) =~= encode_utf8(b));
    } else {
        assert((a + b).drop_first() =~= a.drop_first() + b);
        lemma_encode_utf8_concat(a.drop_first(), b);
        assert(encode_scalar(a[0] as u32) + (encode_utf8(a.drop_first()) + encode_utf8(b))
            =~= (encode_scalar(a[0] as u32) + encode_utf8(a.drop_first())) + encode_utf8(b));
    }
}

/// The number of bytes that `c` takes in UTF-8.
fn utf8_width(c: char) -> (w: usize)
    ensures
        w == encode_scalar(c as u32).len(),
{
    proof {
        char_is_scalar(c);
    }
    let v: u32 = c as u32;
    if v < 0x80 {
        1
    } else if v < 0x800 {
        2
    } else if v < 0x10000 {
        3
    } else {
        4
    }
}

/// The byte offset of the first `\n` or `\r` in `text`: the length of the
/// UTF-8 encoding of what comes before it.
pub fn next_line_break(text: &str) -> (r: Option<usize>)
    ensures
        r == (match first_line_break(text@) {
            Some(i) => Some(encode_utf8(text@.take(i)).len() as usize),
            None => None::<usize>,
        }),
        r matches Some(b) ==> b == encode_utf8(text@.take(first_line_break(text@)->0)).len(),
{
    let bytes = text.as_bytes();
    let n = bytes.len();
    let ghost total = encode_utf8(text@).len();
    assert(total == n);
    match line_break_at(text) {
        None => None,
        Some(k) => {
            proof {
                lemma_first_line_break(text@);
            }
            let cs = chars_of(text);
            let mut b: usize = 0;
            let mut i: usize = 0;
            assert(cs@.take(0) =~= Seq::<char>::empty());
            while i < k
                invariant
                    cs@ == text@,
                    k < cs@.len(),
                    i <= k,
                    b == encode_utf8(cs@.take(i as int)).len(),
                    total == encode_utf8(cs@).len(),
                    total <= usize::MAX,
                decreases k - i,
            {
                let w = utf8_width(cs[i]);
                proof {
                    let s = cs@;
                    assert(s.take(i + 1) =~= s.take(i as int) + seq![s[i as int]]);
                    lemma_encode_utf8_concat(s.take(i as int), seq![s[i as int]]);
                    let one = seq![s[i as int]];
                    assert(one.drop_first() =~= Seq::<char>::empty());
                    assert(encode_utf8(one.drop_first()) =~= Seq::<u8>::empty());
                    assert(encode_utf8(one) == encode_scalar(one[0] as u32) + encode_utf8(
                        one.drop_first(),
                    ));
                    assert(encode_utf8(one) =~= encode_scalar(s[i as int] as u32));
                    assert(s =~= s.take(i + 1) + s.skip(i + 1));
                    lemma_encode_utf8_concat(s.take(i + 1), s.skip(i + 1));
                }
                b = b + w;
                i = i + 1;
            }
            Some(b)
        },
    }
}

/// The complete lines at the start of `s`, each up to a line break, and the
/// text after the last line break.
pub open spec fn pending_lines(s: Seq<char>) -> (Seq<Seq<char>>, Seq<char>)
    decreases s.len(),
{
    match first_line_break(s) {
        Some(i) => if 0 <= i < s.len() {
            let rest = pending_lines(s.skip(i + 1));
            (seq![s.take(i)] + rest.0, rest.1)
        } else {
            (Seq::empty(), s)
        },
        None => (Seq::empty(), s),
    }
}

/// A text with a line break at `k` has a first line break.
proof fn lemma_first_break_exists(s: Seq<char>, k: int)
    requires
        0 <= k < s.len(),
        is_line_break(s[k]),
    ensures
        exists|i: int|
            0 <= i < s.len() && is_line_break(s[i]) && forall|j: int|
                0 <= j < i ==> !is_line_break(s[j]),
    decreases k,
{
    if exists|j: int| 0 <= j < k && is_line_break(s[j]) {
        let j = choose|j: int| 0 <= j < k && is_line_break(s[j]);
        lemma_first_break_exists(s, j);
    } else {
        assert(0 <= k < s.len() && is_line_break(s[k]) && forall|j: int|
            0 <= j < k ==> !is_line_break(s[j]));
    }
}

/// What the position of the first line break says of the text.
pub proof fn lemma_first_line_break(s: Seq<char>)
    ensures
        match first_line_break(s) {
            Some(i) => 0 <= i < s.len() && is_line_break(s[i]) && forall|j: int|
                0 <= j < i ==> !is_line_break(s[j]),
            None => forall|j: int| 0 <= j < s.len() ==> !is_line_break(s[j]),
        },
{
    if exists|i: int| 0 <= i < s.len() && is_line_break(s[i]) {
        let k = choose|i: int| 0 <= i < s.len() && is_line_break(s[i]);
        lemma_first_break_exists(s, k);
    }
}

/// Takes the complete lines out of the text read so far, leaving the text
/// after the last line break.
pub fn take_complete_lines(pending: &mut String) -> (r: Vec<String>)
    ensures
        (r.deep_view(), final(pending)@) == pending_lines(old(pending)@),
{
    let ghost s = pending@;
    let mut lines: Vec<String> = Vec::new();
    loop
        invariant
            s == old(pending)@,
            pending_lines(s) == (lines.deep_view() + pending_lines(pending@).0, pending_lines(
                pending@,
            ).1),
        decreases pending@.len(),
    {
        match line_break_at(pending.as_str()) {
            Some(i) => {
                let cs = chars_of(pending.as_str());
                let ghost old_rest = pending@;
                proof {
                    lemma_first_line_break(old_rest);
                    assert(cs@ == old_rest);
                    assert(i < cs@.len());
                }
                let line = string_of_range(&cs, 0, i);
                let n = cs.len();
                let rest = string_of_range(&cs, i + 1, n);
                proof {
                    assert(line@ =~= old_rest.take(i as int));
                    assert(rest@ =~= old_rest.skip(i + 1));
                    let pl = pending_lines(old_rest.skip(i + 1));
                    assert(pending_lines(old_rest) == (seq![old_rest.take(i as int)] + pl.0, pl.1));
                }
                let ghost before = lines.deep_view();
                lines.push(line);
                proof {
                    let pl = pending_lines(rest@);
                    assert(lines.deep_view() =~= before.push(line@));
                    assert(before + (seq![line@] + pl.0) =~= lines.deep_view() + pl.0);
                }
                *pending = rest;
            },
            None => {
                assert(pending_lines(pending@).0 =~= Seq::<Seq<char>>::empty());
                assert(lines.deep_view() + Seq::<Seq<char>>::empty() =~= lines.deep_view());
                return lines;
            },
        }
    }
}

/// A line of a creation log as it is shown, or none when nothing is left of
/// it.
pub fn create_log_line(line: &str) -> (r: Option<String>)
    ensures
        match r {
            Some(l) => l@ == sanitized(line@) && l@.len() > 0,
            None => sanitized(line@).len() == 0,
        },
{
    let l = sanitize_log_line(line);
    if l.as_str().is_empty() {
        None
    } else {
        Some(l)
    }
}

/// Whether `s` holds neither an escape character nor a backspace.
pub open spec fn free_of_controls(s: Seq<char>) -> bool {
    forall|j: int| 0 <= j < s.len() ==> s[j] != '\u{1b}' && s[j] != '\u{8}'
}

proof fn lemma_strip_controls_clean(s: Seq<char>)
    ensures
        free_of_controls(strip_controls(s)),
    decreases s.len(),
{
    if s.len() > 0 {
        if s[0] == '\u{1b}' {
            lemma_after_escape_shorter(s.drop_first());
            lemma_strip_controls_clean(after_escape(s.drop_first()));
        } else if s[0] == '\u{8}' {
            lemma_strip_controls_clean(s.drop_first());
        } else {
            lemma_strip_controls_clean(s.drop_first());
            let t = seq![s[0]] + strip_controls(s.drop_first());
            assert forall|j: int| 0 <= j < t.len() implies t[j] != '\u{1b}' && t[j] != '\u{8}' by {
                if j > 0 {
                    assert(t[j] == strip_controls(s.drop_first())[j - 1]);
                }
            }
        }
    }
}

proof fn lemma_trim_start_clean(s: Seq<char>, k: CharClass)
    requires
        free_of_controls(s),
    ensures
        free_of_controls(trim_start_class(s, k)),
    decreases s.len(),
{
    if s.len() > 0 && in_class(k, s[0]) {
        assert(free_of_controls(s.drop_first())) by {
            assert forall|j: int| 0 <= j < s.drop_first().len() implies s.drop_first()[j] != '\u{1b}'
                && s.drop_first()[j] != '\u{8}' by {
                assert(s.drop_first()[j] == s[j + 1]);
            }
        }
        lemma_trim_start_clean(s.drop_first(), k);
    }
}

proof fn lemma_trim_end_clean(s: Seq<char>, k: CharClass)
    requires
        free_of_controls(s),
    ensures
        free_of_controls(trim_end_class(s, k)),
    decreases s.len(),
{
    if s.len() > 0 && in_class(k, s.last()) {
        assert(free_of_controls(s.drop_last())) by {
            assert forall|j: int| 0 <= j < s.drop_last().len() implies s.drop_last()[j] != '\u{1b}'
                && s.drop_last()[j] != '\u{8}' by {
                assert(s.drop_last()[j] == s[j]);
            }
        }
        lemma_trim_end_clean(s.drop_last(), k);
    }
}

/// A shown log line holds no escape character and no backspace.
pub proof fn law_sanitized_free_of_controls(line: Seq<char>)
    ensures
        free_of_controls(sanitized(line)),
{
    lemma_strip_controls_clean(line);
    lemma_trim_start_clean(strip_controls(line), CharClass::Whitespace);
    lemma_trim_end_clean(
        trim_start_class(strip_controls(line), CharClass::Whitespace),
        CharClass::Whitespace,
    );
}

/// A text without controls has none to strip.
proof fn lemma_strip_clean_identity(s: Seq<char>)
    requires
        free_of_controls(s),
    ensures
        strip_controls(s) == s,
    decreases s.len(),
{
    if s.len() > 0 {
        assert(free_of_controls(s.drop_first())) by {
            assert forall|j: int| 0 <= j < s.drop_first().len() implies s.drop_first()[j] != '\u{1b}'
                && s.drop_first()[j] != '\u{8}' by {
                assert(s.drop_first()[j] == s[j + 1]);
            }
        }
        lemma_strip_clean_identity(s.drop_first());
        assert(seq![s[0]] + s.drop_first() =~= s);
    }
}

/// A shown log line is shown as it is: sanitizing it again changes nothing.
pub proof fn law_sanitize_idempotent(line: Seq<char>)
    ensures
        sanitized(sanitized(line)) == sanitized(line),
{
    law_sanitized_free_of_controls(line);
    lemma_strip_clean_identity(sanitized(line));
    lemma_trim_idempotent(strip_controls(line), CharClass::Whitespace);
}

/// The lines taken from a stream's text hold no line break, and neither
/// does the text left over.
pub proof fn law_pending_lines_unbroken(s: Seq<char>)
    ensures
        forall|i: int, j: int|
            0 <= i < pending_lines(s).0.len() && 0 <= j < pending_lines(s).0[i].len()
                ==> !is_line_break(#[trigger] pending_lines(s).0[i][j]),
        forall|j: int|
            0 <= j < pending_lines(s).1.len() ==> !is_line_break(#[trigger] pending_lines(s).1[j]),
    decreases s.len(),
{
    lemma_first_line_break(s);
    match first_line_break(s) {
        Some(k) => {
            law_pending_lines_unbroken(s.skip(k + 1));
            let rest = pending_lines(s.skip(k + 1));
            let ls = seq![s.take(k)] + rest.0;
            assert(pending_lines(s) == (ls, rest.1));
            assert forall|i: int, j: int| 0 <= i < ls.len() && 0 <= j < ls[i].len() implies !is_line_break(
                #[trigger] ls[i][j],
            ) by {
                if i == 0 {
                    assert(ls[0] == s.take(k));
                    assert(s.take(k)[j] == s[j]);
                } else {
                    assert(ls[i] == rest.0[i - 1]);
                }
            }
        },
        None => {},
    }
}

/// The output excerpt is cut to this many characters, counted from its end.
pub const MAX_EXCERPT_CHARS: usize = 4000;

/// The trimmed standard output, then the trimmed standard error, with a blank
/// line between them when both have text.
pub open spec fn joined_output(stdout: Seq<char>, stderr: Seq<char>) -> Seq<char> {
    let a = trim(stdout);
    let b = trim(stderr);
    if b.len() == 0 {
        a
    } else if a.len() == 0 {
        b
    } else {
        a + "\n\n"@ + b
    }
}

/// The excerpt of a command's output: the joined output, or when it is longer
/// than the limit, `...` followed by its last `MAX_EXCERPT_CHARS` characters.
pub open spec fn output_excerpt(stdout: Seq<char>, stderr: Seq<char>) -> Seq<char> {
    let j = joined_output(stdout, stderr);
    if j.len() > MAX_EXCERPT_CHARS {
        "..."@ + j.skip(j.len() - MAX_EXCERPT_CHARS)
    } else {
        j
    }
}

/// An excerpt is never longer than the limit and the `...` before it, and
/// it ends as the output does.
pub proof fn law_excerpt_bounded(stdout: Seq<char>, stderr: Seq<char>)
    ensures
        output_excerpt(stdout, stderr).len() <= MAX_EXCERPT_CHARS + 3,
        ({
            let e = output_excerpt(stdout, stderr);
            let j = joined_output(stdout, stderr);
            e.len() <= j.len() + 3 && (j.len() <= MAX_EXCERPT_CHARS ==> e == j)
                && (j.len() > MAX_EXCERPT_CHARS ==> e.skip(3) == j.skip(j.len() - MAX_EXCERPT_CHARS))
        }),
{
    let e = output_excerpt(stdout, stderr);
    let j = joined_output(stdout, stderr);
    reveal_strlit("...");
    if j.len() > MAX_EXCERPT_CHARS {
        assert(e.skip(3) =~= j.skip(j.len() - MAX_EXCERPT_CHARS));
    }
}

/// The excerpt of a command's output that messages show.
pub fn command_output_excerpt(stdout: &str, stderr: &str) -> (r: String)
    ensures
        r@ == output_excerpt(stdout@, stderr@),
{
    let a = trim_str(stdout);
    let b = trim_str(stderr);
    let mut output = String::new();
    if a.as_str().unicode_len() != 0 {
        output.append(a.as_str());
    }
    if b.as_str().unicode_len() != 0 {
        if output.as_str().unicode_len() != 0 {
            output.append("\n\n");
        }
        output.append(b.as_str());
    }
    assert(output@ =~= joined_output(stdout@, stderr@));
    let cs = chars_of(output.as_str());
    if cs.len() > MAX_EXCERPT_CHARS {
        let tail = string_of_range(&cs, cs.len() - MAX_EXCERPT_CHARS, cs.len());
        let r = concat("...", tail.as_str());
        assert(cs@.subrange(cs@.len() - MAX_EXCERPT_CHARS, cs@.len() as int) =~= cs@.skip(
            cs@.len() - MAX_EXCERPT_CHARS,
        ));
        r
    } else {
        output
    }
}

/// A line's trimmed text, when it has any.
pub open spec fn nonblank_trimmed() -> spec_fn(Seq<char>) -> Option<Seq<char>> {
    |l: Seq<char>| if trim(l).len() > 0 { Some(trim(l)) } else { None }
}

/// The first line of `output` that has text, trimmed; `ready` when there is
/// none.
pub open spec fn first_line_text(output: Seq<char>) -> Seq<char> {
    match find_map(lines(output), nonblank_trimmed()) {
        Some(l) => l,
        None => "ready"@,
    }
}

/// The first non-blank line of a tool's output, used as its version.
pub fn first_output_line(output: &str) -> (r: String)
    ensures
        r@ == first_line_text(output@),
{
    let cs = chars_of(output);
    let ws = line_windows(&cs);
    let ghost f = nonblank_trimmed();
    let ghost ls = lines(cs@);
    let mut i: usize = 0;
    proof {
        lemma_find_map_start(ls, f);
    }
    while i < ws.len()
        invariant
            cs@ == output@,
            f == nonblank_trimmed(),
            ls == lines(cs@),
            window_texts(cs@, ws@) == ls,
            forall|k: int| #![trigger ws@[k]] 0 <= k < ws@.len() ==> ws@[k].0 <= ws@[k].1 && ws@[k].1 <= cs@.len(),
            i <= ws@.len(),
            find_map(ls, f) == find_map(ls.skip(i as int), f),
        decreases ws@.len() - i,
    {
        let (lo, hi) = ws[i];
        let (a, b) = trim_window(&cs, lo, hi, CharClass::Whitespace);
        proof {
            reveal(window_texts);
            assert(ls[i as int] == cs@.subrange(lo as int, hi as int));
            assert(trim(ls[i as int]) == cs@.subrange(a as int, b as int));
            assert(f(ls[i as int]) == if trim(ls[i as int]).len() > 0 {
                Some(trim(ls[i as int]))
            } else {
                None
            });
        }
        if a < b {
            proof {
                lemma_find_map_hit(ls, f, i as int);
            }
            return string_of_range(&cs, a, b);
        }
        proof {
            lemma_find_map_skip(ls, f, i as int);
        }
        i = i + 1;
    }
    proof {
        reveal(window_texts);
        lemma_find_map_end(ls, f);
    }
    owned("ready")
}

} // verus!
