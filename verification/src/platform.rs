//! What depends on the operating system: program names, shell quoting and
//! the shape of file paths.
//!
//! Paths are texts. `join_path` joins a relative part to a base the way std's
//! `Path::join` does for such a part; `file_name`, `file_stem`, `extension`
//! and `parent` read a path's last component and the rest.

use vstd::prelude::*;
use crate::model::{Platform, ToolCommand, ToolView, clone_strings, append_strings};
use crate::text::{chars_of, owned, concat, push_char, str_eq, string_of_range};

verus! {

/// `windows` on Windows, `unix` elsewhere.
pub open spec fn by_platform(p: Platform, unix: Seq<char>, windows: Seq<char>) -> Seq<char> {
    match p {
        Platform::Unix => unix,
        Platform::Windows => windows,
    }
}

/// The text for the platform, chosen from two literals.
pub fn pick(p: Platform, unix: &str, windows: &str) -> (r: String)
    ensures
        r@ == by_platform(p, unix@, windows@),
{
    match p {
        Platform::Unix => owned(unix),
        Platform::Windows => owned(windows),
    }
}

/// Whether `c` separates the components of a path.
pub open spec fn is_separator(p: Platform, c: char) -> bool {
    match p {
        Platform::Unix => c == '/',
        Platform::Windows => c == '/' || c == '\\',
    }
}

pub fn char_is_separator(p: Platform, c: char) -> (r: bool)
    ensures
        r == is_separator(p, c),
{
    match p {
        Platform::Unix => c == '/',
        Platform::Windows => c == '/' || c == '\\',
    }
}

/// The separator that joining inserts.
pub open spec fn main_separator(p: Platform) -> char {
    match p {
        Platform::Unix => '/',
        Platform::Windows => '\\',
    }
}

/// `base` joined with the relative path `part`: a separator goes between
/// them unless `base` is empty or already ends with one.
pub open spec fn join_path(p: Platform, base: Seq<char>, part: Seq<char>) -> Seq<char> {
    if base.len() == 0 {
        part
    } else if is_separator(p, base.last()) {
        base + part
    } else {
        base.push(main_separator(p)) + part
    }
}

/// `base` joined with the relative path `part`.
pub fn join(p: Platform, base: &str, part: &str) -> (r: String)
    ensures
        r@ == join_path(p, base@, part@),
{
    let cs = chars_of(base);
    let mut r = owned(base);
    if cs.len() > 0 && !char_is_separator(p, cs[cs.len() - 1]) {
        match p {
            Platform::Unix => push_char(&mut r, '/'),
            Platform::Windows => push_char(&mut r, '\\'),
        }
    }
    r.append(part);
    r
}

/// The last position before `end` that holds a separator.
pub open spec fn last_separator_before(p: Platform, s: Seq<char>, end: int) -> Option<int> {
    if exists|k: int| 0 <= k < end && is_separator(p, s[k]) {
        Some(
            choose|k: int|
                0 <= k < end && is_separator(p, s[k]) && forall|m: int|
                    k < m < end ==> !is_separator(p, s[m]),
        )
    } else {
        None
    }
}

/// The length of a path's prefix: a drive such as `C:` on Windows, nothing
/// elsewhere.
pub open spec fn prefix_len(p: Platform, s: Seq<char>) -> int {
    match p {
        Platform::Unix => 0,
        Platform::Windows => if s.len() >= 2 && is_ascii_letter(s[0]) && s[1] == ':' {
            2
        } else {
            0
        },
    }
}

pub open spec fn is_ascii_letter(c: char) -> bool {
    ('a' <= c && c <= 'z') || ('A' <= c && c <= 'Z')
}

/// Whether a path starts at a root, right after its prefix.
pub open spec fn has_root(p: Platform, s: Seq<char>) -> bool {
    s.len() > prefix_len(p, s) && is_separator(p, s[prefix_len(p, s)])
}

/// Whether a path without a root starts with the component `.`.
pub open spec fn starts_with_cur_dir(p: Platform, s: Seq<char>) -> bool {
    let pl = prefix_len(p, s);
    !has_root(p, s) && s.len() > pl && s[pl] == '.' && (s.len() == pl + 1 || is_separator(
        p,
        s[pl + 1],
    ))
}

/// Where the components of a path that are read from its end begin: after
/// its prefix, its root and a leading `.`.
pub open spec fn body_start(p: Platform, s: Seq<char>) -> int {
    prefix_len(p, s) + (if has_root(p, s) { 1int } else { 0int }) + (if starts_with_cur_dir(p, s) {
        1int
    } else {
        0int
    })
}

/// The last separator before `end`, or -1.
pub open spec fn step_sep(p: Platform, s: Seq<char>, end: int) -> int {
    match last_separator_before(p, s, end) {
        Some(k) => k,
        None => -1,
    }
}

/// Where the last component of `s[0..end]` starts, not before `lo`.
pub open spec fn step_start(p: Platform, s: Seq<char>, end: int, lo: int) -> int {
    if step_sep(p, s, end) >= lo {
        step_sep(p, s, end) + 1
    } else {
        lo
    }
}

/// Where what is left before the last component of `s[0..end]` ends.
pub open spec fn step_rest(p: Platform, s: Seq<char>, end: int, lo: int) -> int {
    if step_sep(p, s, end) >= lo {
        step_sep(p, s, end)
    } else {
        lo
    }
}

/// Whether a component is skipped when a path is read: empty or `.`.
pub open spec fn skipped(c: Seq<char>) -> bool {
    c.len() == 0 || c == seq!['.']
}

/// The last component of `s[0..end]` read from its end, skipping empty
/// components and `.`: the end of what is left before it, and its range;
/// no range when only the part before `lo` is left.
#[verifier::opaque]
pub open spec fn back_component(p: Platform, s: Seq<char>, end: int, lo: int) -> (int, Option<(int, int)>)
    decreases end,
{
    if lo < 0 || end <= lo || end > s.len() {
        (end, None)
    } else {
        let start = step_start(p, s, end, lo);
        let rest = step_rest(p, s, end, lo);
        if skipped(s.subrange(start, end)) {
            if lo <= rest < end {
                back_component(p, s, rest, lo)
            } else {
                (end, None)
            }
        } else {
            (rest, Some((start, end)))
        }
    }
}

/// The end of `s[0..end]` once empty components and `.` are dropped from
/// its end, down to `lo`.
#[verifier::opaque]
pub open spec fn trim_back(p: Platform, s: Seq<char>, end: int, lo: int) -> int
    decreases end,
{
    if lo < 0 || end <= lo || end > s.len() {
        end
    } else {
        let start = step_start(p, s, end, lo);
        let rest = step_rest(p, s, end, lo);
        if skipped(s.subrange(start, end)) && lo <= rest < end {
            trim_back(p, s, rest, lo)
        } else {
            end
        }
    }
}

proof fn lemma_back_component_step(p: Platform, s: Seq<char>, end: int, lo: int)
    ensures
        back_component(p, s, end, lo) == if lo < 0 || end <= lo || end > s.len() {
            (end, None)
        } else if skipped(s.subrange(step_start(p, s, end, lo), end)) {
            if lo <= step_rest(p, s, end, lo) < end {
                back_component(p, s, step_rest(p, s, end, lo), lo)
            } else {
                (end, None)
            }
        } else {
            (step_rest(p, s, end, lo), Some((step_start(p, s, end, lo), end)))
        },
        trim_back(p, s, end, lo) == if lo < 0 || end <= lo || end > s.len() {
            end
        } else if skipped(s.subrange(step_start(p, s, end, lo), end)) && lo <= step_rest(
            p,
            s,
            end,
            lo,
        ) < end {
            trim_back(p, s, step_rest(p, s, end, lo), lo)
        } else {
            end
        },
{
    reveal_with_fuel(back_component, 1);
    reveal_with_fuel(trim_back, 1);
}

/// The last component of a path when it is a name: none when the path ends
/// in its root, its prefix, a leading `.`, or `..`. Empty components and
/// `.` are skipped, as paths read them.
pub open spec fn file_name(p: Platform, s: Seq<char>) -> Option<Seq<char>> {
    match back_component(p, s, s.len() as int, body_start(p, s)).1 {
        Some(r) => if s.subrange(r.0, r.1) == seq!['.', '.'] {
            None
        } else {
            Some(s.subrange(r.0, r.1))
        },
        None => None,
    }
}

/// The position of the last dot in `name`.
pub open spec fn last_dot(name: Seq<char>) -> Option<int> {
    if exists|k: int| 0 <= k < name.len() && name[k] == '.' {
        Some(
            choose|k: int|
                0 <= k < name.len() && name[k] == '.' && forall|m: int|
                    k < m < name.len() ==> name[m] != '.',
        )
    } else {
        None
    }
}

/// A file name without its extension: the part before the last dot, unless
/// the only dot starts the name.
pub open spec fn stem_of(name: Seq<char>) -> Seq<char> {
    match last_dot(name) {
        Some(k) => if k == 0 {
            name
        } else {
            name.take(k)
        },
        None => name,
    }
}

/// The extension of a file name: the part after its last dot, unless that
/// dot starts the name.
pub open spec fn extension_of(name: Seq<char>) -> Option<Seq<char>> {
    match last_dot(name) {
        Some(k) => if k == 0 {
            None
        } else {
            Some(name.skip(k + 1))
        },
        None => None,
    }
}

/// The stem of a path's file name.
pub open spec fn file_stem(p: Platform, s: Seq<char>) -> Option<Seq<char>> {
    match file_name(p, s) {
        Some(name) => Some(stem_of(name)),
        None => None,
    }
}

/// A path without its last component, and without the empty components and
/// `.` before it: none when the path is empty or ends in its root or its
/// prefix; the prefix for a path that is only a leading `.`.
pub open spec fn parent_of(p: Platform, s: Seq<char>) -> Option<Seq<char>> {
    let lo = body_start(p, s);
    match back_component(p, s, s.len() as int, lo) {
        (rest, Some(_)) => Some(s.take(trim_back(p, s, rest, lo))),
        (_, None) => if starts_with_cur_dir(p, s) {
            Some(s.take(prefix_len(p, s)))
        } else {
            None
        },
    }
}

/// The last separator in `cs[0..end]`.
fn last_separator_at(p: Platform, cs: &Vec<char>, end: usize) -> (r: Option<usize>)
    requires
        end <= cs@.len(),
    ensures
        r matches Some(k) ==> k < end && last_separator_before(p, cs@, end as int) == Some(k as int),
        r is None ==> last_separator_before(p, cs@, end as int) is None,
{
    let mut j = end;
    while j > 0
        invariant
            j <= end <= cs@.len(),
            forall|m: int| j <= m < end ==> !is_separator(p, cs@[m]),
        decreases j,
    {
        if char_is_separator(p, cs[j - 1]) {
            proof {
                let s = cs@;
                let k = j - 1;
                let w = choose|w: int|
                    0 <= w < end && is_separator(p, s[w]) && forall|m: int|
                        w < m < end ==> !is_separator(p, s[m]);
                assert(0 <= k < end && is_separator(p, s[k]) && forall|m: int|
                    k < m < end ==> !is_separator(p, s[m]));
                if w < k {
                    assert(!is_separator(p, s[k]));
                } else if w > k {
                    assert(!is_separator(p, s[w]));
                }
            }
            return Some(j - 1);
        }
        j = j - 1;
    }
    None
}

/// The length of a path's prefix.
pub(crate) fn prefix_len_at(p: Platform, cs: &Vec<char>) -> (r: usize)
    ensures
        r == prefix_len(p, cs@),
        r <= cs@.len(),
{
    let n = cs.len();
    match p {
        Platform::Unix => 0,
        Platform::Windows => if n >= 2 && (('a' <= cs[0] && cs[0] <= 'z') || ('A' <= cs[0] && cs[0]
            <= 'Z')) && cs[1] == ':' {
            2
        } else {
            0
        },
    }
}

/// Where the components read from a path's end begin.
fn body_start_at(p: Platform, cs: &Vec<char>) -> (r: usize)
    ensures
        r == body_start(p, cs@),
        r <= cs@.len(),
{
    let n = cs.len();
    let pl = prefix_len_at(p, cs);
    let root = n > pl && char_is_separator(p, cs[pl]);
    let cur = !root && n > pl && cs[pl] == '.' && (n == pl + 1 || char_is_separator(p, cs[pl + 1]));
    let mut r = pl;
    if root {
        r = r + 1;
    }
    if cur {
        r = r + 1;
    }
    r
}

/// The last component of `cs[0..end]` read from its end, as `back_component`
/// gives it.
fn back_component_at(p: Platform, cs: &Vec<char>, end: usize, lo: usize) -> (r: (usize, Option<(usize, usize)>))
    requires
        lo <= end <= cs@.len(),
    ensures
        lo <= r.0 <= end,
        r.0 as int == back_component(p, cs@, end as int, lo as int).0,
        match back_component(p, cs@, end as int, lo as int).1 {
            Some(x) => r.1 matches Some(y) && y.0 as int == x.0 && y.1 as int == x.1 && lo <= y.0 <= y.1
                <= end,
            None => r.1 is None,
        },
{
    let mut e = end;
    while e > lo
        invariant
            lo <= e <= end <= cs@.len(),
            back_component(p, cs@, end as int, lo as int) == back_component(p, cs@, e as int, lo as int),
        decreases e,
    {
        let (start, rest) = step_at(p, cs, e, lo);
        let dot = skipped_at(cs, start, e);
        proof {
            lemma_back_component_step(p, cs@, e as int, lo as int);
        }
        if !dot {
            return (rest, Some((start, e)));
        }
        if rest >= e {
            return (e, None);
        }
        e = rest;
    }
    proof {
        lemma_back_component_step(p, cs@, e as int, lo as int);
    }
    (e, None)
}

/// Where the last component of `cs[0..end]` starts and what is left before
/// it ends.
fn step_at(p: Platform, cs: &Vec<char>, end: usize, lo: usize) -> (r: (usize, usize))
    requires
        lo < end <= cs@.len(),
    ensures
        r.0 as int == step_start(p, cs@, end as int, lo as int),
        r.1 as int == step_rest(p, cs@, end as int, lo as int),
        lo <= r.1 < r.0 <= end || (r.0 == lo && r.1 == lo),
{
    match last_separator_at(p, cs, end) {
        Some(k) => if k >= lo {
            (k + 1, k)
        } else {
            (lo, lo)
        },
        None => (lo, lo),
    }
}

/// Whether `cs[start..end]` is skipped when a path is read.
fn skipped_at(cs: &Vec<char>, start: usize, end: usize) -> (r: bool)
    requires
        start <= end <= cs@.len(),
    ensures
        r == skipped(cs@.subrange(start as int, end as int)),
{
    let ghost comp = cs@.subrange(start as int, end as int);
    if start == end {
        return true;
    }
    if end - start == 1 {
        if cs[start] == '.' {
            assert(comp =~= seq!['.']);
            return true;
        }
        assert(comp[0] != seq!['.'][0]);
        return false;
    }
    assert(comp.len() != seq!['.'].len());
    false
}

/// The end of `cs[0..end]` once empty components and `.` are dropped from
/// its end, as `trim_back` gives it.
fn trim_back_at(p: Platform, cs: &Vec<char>, end: usize, lo: usize) -> (r: usize)
    requires
        lo <= end <= cs@.len(),
    ensures
        r as int == trim_back(p, cs@, end as int, lo as int),
        r <= end,
{
    let mut e = end;
    while e > lo
        invariant
            lo <= e <= end <= cs@.len(),
            trim_back(p, cs@, end as int, lo as int) == trim_back(p, cs@, e as int, lo as int),
        decreases e,
    {
        let (start, rest) = step_at(p, cs, e, lo);
        let dot = skipped_at(cs, start, e);
        proof {
            lemma_back_component_step(p, cs@, e as int, lo as int);
        }
        if !(dot && rest < e) {
            return e;
        }
        e = rest;
    }
    proof {
        lemma_back_component_step(p, cs@, e as int, lo as int);
    }
    e
}

/// The last component of a path when it is a name.
pub fn path_file_name(p: Platform, path: &str) -> (r: Option<String>)
    ensures
        r.deep_view() == file_name(p, path@),
{
    let cs = chars_of(path);
    let lo = body_start_at(p, &cs);
    let (_, comp) = back_component_at(p, &cs, cs.len(), lo);
    match comp {
        Some((a, b)) => {
            let ghost name = cs@.subrange(a as int, b as int);
            if b - a == 2 && cs[a] == '.' && cs[a + 1] == '.' {
                assert(name =~= seq!['.', '.']);
                None
            } else {
                proof {
                    if b - a == 2 {
                        if name[0] == '.' {
                            assert(name[1] != seq!['.', '.'][1]);
                        } else {
                            assert(name[0] != seq!['.', '.'][0]);
                        }
                    } else {
                        assert(name.len() != seq!['.', '.'].len());
                    }
                }
                Some(string_of_range(&cs, a, b))
            }
        },
        None => None,
    }
}

/// The last dot of `cs`.
fn last_dot_exec(cs: &Vec<char>) -> (r: Option<usize>)
    ensures
        r matches Some(k) ==> k < cs.len() && last_dot(cs@) == Some(k as int),
        r is None ==> last_dot(cs@) is None,
{
    let mut j = cs.len();
    while j > 0
        invariant
            j <= cs@.len(),
            forall|m: int| j <= m < cs@.len() ==> cs@[m] != '.',
        decreases j,
    {
        if cs[j - 1] == '.' {
            proof {
                let s = cs@;
                let k = j - 1;
                let w = choose|w: int|
                    0 <= w < s.len() && s[w] == '.' && forall|m: int| w < m < s.len() ==> s[m] != '.';
                assert(0 <= k < s.len() && s[k] == '.' && forall|m: int|
                    k < m < s.len() ==> s[m] != '.');
                if w < k {
                    assert(s[k] != '.');
                } else if w > k {
                    assert(s[w] != '.');
                }
            }
            return Some(j - 1);
        }
        j = j - 1;
    }
    None
}

/// The stem of a file name.
pub fn name_stem(name: &str) -> (r: String)
    ensures
        r@ == stem_of(name@),
{
    let cs = chars_of(name);
    match last_dot_exec(&cs) {
        Some(k) => if k == 0 {
            owned(name)
        } else {
            string_of_range(&cs, 0, k)
        },
        None => owned(name),
    }
}

/// Whether a file name has the extension `ext`.
pub fn has_extension(name: &str, ext: &str) -> (r: bool)
    ensures
        r == (extension_of(name@) == Some(ext@)),
{
    let cs = chars_of(name);
    match last_dot_exec(&cs) {
        Some(k) => if k == 0 {
            false
        } else {
            let e = string_of_range(&cs, k + 1, cs.len());
            assert(cs@.subrange(k + 1, cs@.len() as int) =~= cs@.skip(k + 1));
            str_eq(e.as_str(), ext)
        },
        None => false,
    }
}

/// The parent of a path.
pub fn path_parent(p: Platform, path: &str) -> (r: Option<String>)
    ensures
        r.deep_view() == parent_of(p, path@),
{
    let cs = chars_of(path);
    let lo = body_start_at(p, &cs);
    let (rest, comp) = back_component_at(p, &cs, cs.len(), lo);
    match comp {
        Some(_) => {
            let e = trim_back_at(p, &cs, rest, lo);
            assert(cs@.take(e as int) =~= cs@.subrange(0, e as int));
            Some(string_of_range(&cs, 0, e))
        },
        None => {
            let n = cs.len();
            let pl: usize = match p {
                Platform::Unix => 0,
                Platform::Windows => if n >= 2 && (('a' <= cs[0] && cs[0] <= 'z') || ('A' <= cs[0]
                    && cs[0] <= 'Z')) && cs[1] == ':' {
                    2
                } else {
                    0
                },
            };
            let root = n > pl && char_is_separator(p, cs[pl]);
            let cur = !root && n > pl && cs[pl] == '.' && (n == pl + 1 || char_is_separator(
                p,
                cs[pl + 1],
            ));
            if cur {
                assert(cs@.take(pl as int) =~= cs@.subrange(0, pl as int));
                Some(string_of_range(&cs, 0, pl))
            } else {
                None
            }
        },
    }
}

/// The text of one argument quoted for the platform's shell: in single
/// quotes on Unix, with each single quote written `'\''`; in double quotes on
/// Windows, with each double quote written `` `" ``.
pub open spec fn shell_quoted(p: Platform, value: Seq<char>) -> Seq<char> {
    match p {
        Platform::Unix => seq!['\''] + replace_char(value, '\'', seq!['\'', '\\', '\'', '\''])
            + seq!['\''],
        Platform::Windows => seq!['"'] + replace_char(value, '"', seq!['`', '"']) + seq!['"'],
    }
}

/// `s` with each `c` replaced by `by`.
pub open spec fn replace_char(s: Seq<char>, c: char, by: Seq<char>) -> Seq<char>
    decreases s.len(),
{
    if s.len() == 0 {
        s
    } else {
        (if s[0] == c {
            by
        } else {
            seq![s[0]]
        }) + replace_char(s.drop_first(), c, by)
    }
}

/// An argument quoted for the platform's shell.
pub fn shell_quote(p: Platform, value: &str) -> (r: String)
    ensures
        r@ == shell_quoted(p, value@),
{
    let cs = chars_of(value);
    let (q, by): (char, &str) = match p {
        Platform::Unix => ('\'', "'\\''"),
        Platform::Windows => ('"', "`\""),
    };
    proof {
        reveal_strlit("'\\''");
        reveal_strlit("`\"");
    }
    let mut out = String::new();
    push_char(&mut out, q);
    let mut i: usize = 0;
    assert(cs@.skip(0) =~= cs@);
    while i < cs.len()
        invariant
            i <= cs@.len(),
            cs@ == value@,
            seq![q] + replace_char(cs@, q, by@) == out@ + replace_char(cs@.skip(i as int), q, by@),
        decreases cs@.len() - i,
    {
        assert(cs@.skip(i as int).drop_first() =~= cs@.skip(i + 1));
        let ghost before = out@;
        if cs[i] == q {
            out.append(by);
            assert(before + (by@ + replace_char(cs@.skip(i + 1), q, by@)) =~= out@ + replace_char(
                cs@.skip(i + 1),
                q,
                by@,
            ));
        } else {
            push_char(&mut out, cs[i]);
            assert(before + (seq![cs@[i as int]] + replace_char(cs@.skip(i + 1), q, by@))
                =~= out@ + replace_char(cs@.skip(i + 1), q, by@));
        }
        i = i + 1;
    }
    assert(cs@.skip(i as int) =~= Seq::<char>::empty());
    push_char(&mut out, q);
    proof {
        assert(by@ =~= match p {
            Platform::Unix => seq!['\'', '\\', '\'', '\''],
            Platform::Windows => seq!['`', '"'],
        });
    }
    out
}

/// How a POSIX shell reads `s` as one word made of single-quoted runs and
/// backslash-escaped characters, starting inside a single-quoted run when
/// `quoted` holds: the word's value, or none when `s` is not such a word (a
/// quote left open, or any other character outside quotes, a blank among
/// them, which would end the word or be expanded).
pub open spec fn sh_read(s: Seq<char>, quoted: bool) -> Option<Seq<char>>
    decreases s.len(),
{
    if s.len() == 0 {
        if quoted {
            None
        } else {
            Some(Seq::empty())
        }
    } else if quoted {
        if s[0] == '\'' {
            sh_read(s.drop_first(), false)
        } else {
            prepend_word(seq![s[0]], sh_read(s.drop_first(), true))
        }
    } else if s[0] == '\'' {
        sh_read(s.drop_first(), true)
    } else if s[0] == '\\' && s.len() >= 2 && s[1] != '\n' {
        prepend_word(seq![s[1]], sh_read(s.skip(2), false))
    } else {
        None
    }
}

/// `w` in front of the value of a word that was read, if one was.
pub open spec fn prepend_word(w: Seq<char>, r: Option<Seq<char>>) -> Option<Seq<char>> {
    match r {
        Some(v) => Some(w + v),
        None => None,
    }
}

/// Inside a single-quoted run, the quoted form of `v` reads back as `v`.
proof fn lemma_sh_read_replaced(v: Seq<char>, tail: Seq<char>)
    ensures
        sh_read(replace_char(v, '\'', seq!['\'', '\\', '\'', '\'']) + tail, true)
            == prepend_word(v, sh_read(tail, true)),
    decreases v.len(),
{
    let by = seq!['\'', '\\', '\'', '\''];
    if v.len() == 0 {
        assert(replace_char(v, '\'', by) + tail =~= tail);
        match sh_read(tail, true) {
            Some(w) => assert(v + w =~= w),
            None => {},
        }
    } else {
        let rest = v.drop_first();
        let rt = replace_char(rest, '\'', by) + tail;
        lemma_sh_read_replaced(rest, tail);
        let s = replace_char(v, '\'', by) + tail;
        if v[0] == '\'' {
            assert(s =~= by + rt);
            let s1 = s.drop_first();
            assert(s1 =~= seq!['\\', '\'', '\''] + rt);
            let s2 = s1.skip(2);
            assert(s2 =~= seq!['\''] + rt);
            assert(s2.drop_first() =~= rt);
            assert(sh_read(s2, false) == sh_read(rt, true));
            assert(sh_read(s1, false) == prepend_word(seq![s1[1]], sh_read(s2, false)));
            assert(sh_read(s, true) == sh_read(s1, false));
        } else {
            assert(s =~= seq![v[0]] + rt);
            assert(s.drop_first() =~= rt);
            assert(sh_read(s, true) == prepend_word(seq![s[0]], sh_read(rt, true)));
        }
        assert(sh_read(s, true) == prepend_word(seq![v[0]], sh_read(rt, true)));
        match sh_read(tail, true) {
            Some(w) => {
                assert(seq![v[0]] + (rest + w) =~= v + w);
            },
            None => {},
        }
    }
}

/// On Unix, the quoted form of any value is one shell word, in single quotes,
/// that the shell reads back as exactly that value, whatever quotes, dollar
/// signs, backslashes, blanks or newlines it holds.
pub proof fn law_shell_quote_reads_back(value: Seq<char>)
    ensures
        shell_quoted(Platform::Unix, value).len() >= 2,
        shell_quoted(Platform::Unix, value)[0] == '\'',
        shell_quoted(Platform::Unix, value).last() == '\'',
        sh_read(shell_quoted(Platform::Unix, value), false) == Some(value),
{
    let by = seq!['\'', '\\', '\'', '\''];
    let r = replace_char(value, '\'', by);
    let q = shell_quoted(Platform::Unix, value);
    assert(q =~= seq!['\''] + (r + seq!['\'']));
    assert(q.drop_first() =~= r + seq!['\'']);
    lemma_sh_read_replaced(value, seq!['\'']);
    assert(seq!['\''].drop_first() =~= Seq::<char>::empty());
    assert(sh_read(Seq::<char>::empty(), false) == Some(Seq::<char>::empty()));
    assert(sh_read(seq!['\''], true) == Some(Seq::<char>::empty()));
    assert(value + Seq::<char>::empty() =~= value);
    assert(sh_read(q, false) == sh_read(r + seq!['\''], true));
}

/// The words joined with single spaces.
pub open spec fn join_words(ws: Seq<Seq<char>>) -> Seq<char>
    decreases ws.len(),
{
    if ws.len() == 0 {
        Seq::empty()
    } else if ws.len() == 1 {
        ws[0]
    } else {
        join_words(ws.drop_last()) + seq![' '] + ws.last()
    }
}

/// Strings joined with single spaces.
pub fn join_with_spaces(ws: &Vec<String>) -> (r: String)
    ensures
        r@ == join_words(ws.deep_view()),
{
    let mut out = String::new();
    let mut i: usize = 0;
    while i < ws.len()
        invariant
            i <= ws@.len(),
            out@ == join_words(ws.deep_view().take(i as int)),
        decreases ws@.len() - i,
    {
        assert(ws.deep_view().take(i + 1).drop_last() =~= ws.deep_view().take(i as int));
        if i > 0 {
            push_char(&mut out, ' ');
        } else {
            assert(ws.deep_view().take(0) =~= Seq::<Seq<char>>::empty());
        }
        out.append(ws[i].as_str());
        i = i + 1;
    }
    assert(ws.deep_view().take(ws@.len() as int) =~= ws.deep_view());
    out
}

/// The words of a tool command line, each quoted: the program, its fixed
/// arguments, then the extra arguments.
pub open spec fn command_words(p: Platform, tool: ToolView, extra: Seq<Seq<char>>) -> Seq<Seq<char>> {
    (seq![tool.program] + tool.args + extra).map_values(|w: Seq<char>| shell_quoted(p, w))
}

/// A shell command line that runs `tool` with `extra` arguments, every word
/// quoted.
pub fn tool_command_line(p: Platform, tool: &ToolCommand, extra: &Vec<String>) -> (r: String)
    ensures
        r@ == join_words(command_words(p, tool.deep_view(), extra.deep_view())),
{
    let mut words: Vec<String> = Vec::new();
    words.push(owned(tool.program.as_str()));
    let words = append_strings(words, clone_strings(&tool.args));
    let words = append_strings(words, clone_strings(extra));
    let ghost all = words.deep_view();
    assert(all =~= seq![tool.program@] + tool.args.deep_view() + extra.deep_view());
    let mut quoted: Vec<String> = Vec::new();
    let mut i: usize = 0;
    while i < words.len()
        invariant
            i <= words@.len(),
            all == words.deep_view(),
            quoted@.len() == i,
            forall|k: int| 0 <= k < i ==> #[trigger] quoted@[k]@ == shell_quoted(p, all[k]),
        decreases words@.len() - i,
    {
        quoted.push(shell_quote(p, words[i].as_str()));
        i = i + 1;
    }
    assert(quoted.deep_view() =~= all.map_values(|w: Seq<char>| shell_quoted(p, w)));
    join_with_spaces(&quoted)
}

/// `tool`'s fixed arguments followed by `extra`.
pub fn tool_args(tool: &ToolCommand, extra: &[&str]) -> (r: Vec<String>)
    ensures
        r.deep_view() == tool.args.deep_view() + extra.deep_view(),
{
    append_strings(clone_strings(&tool.args), crate::model::strings(extra))
}

/// `tool`'s fixed arguments followed by `extra`.
pub fn tool_args_owned(tool: &ToolCommand, extra: Vec<String>) -> (r: Vec<String>)
    ensures
        r.deep_view() == tool.args.deep_view() + extra.deep_view(),
{
    append_strings(clone_strings(&tool.args), extra)
}

/// The program name a package manager is run by.
pub open spec fn package_manager_program(p: Platform, pm: Seq<char>) -> Seq<char> {
    match p {
        Platform::Unix => pm,
        Platform::Windows => if pm == "bun"@ {
            "bun"@
        } else if pm == "composer"@ {
            "composer.bat"@
        } else if pm == "go"@ {
            "go.exe"@
        } else if pm == "java"@ {
            "java.exe"@
        } else if pm == "maven"@ {
            "mvn.cmd"@
        } else if pm == "gradle"@ {
            "gradle.bat"@
        } else if pm == "ruby"@ {
            "ruby.exe"@
        } else {
            pm + ".cmd"@
        },
    }
}

/// On Unix a package manager runs under its own name. On Windows, Bun does
/// too, Composer and Gradle run from their batch files, Go, Java and Ruby
/// from their executables, Maven as `mvn.cmd`, and every other package
/// manager from its `.cmd` shim.
pub proof fn law_package_manager_programs(pm: Seq<char>)
    ensures
        package_manager_program(Platform::Unix, pm) == pm,
        pm == "bun"@ ==> package_manager_program(Platform::Windows, pm) == "bun"@,
        pm == "composer"@ ==> package_manager_program(Platform::Windows, pm) == "composer.bat"@,
        pm == "go"@ ==> package_manager_program(Platform::Windows, pm) == "go.exe"@,
        pm == "java"@ ==> package_manager_program(Platform::Windows, pm) == "java.exe"@,
        pm == "maven"@ ==> package_manager_program(Platform::Windows, pm) == "mvn.cmd"@,
        pm == "gradle"@ ==> package_manager_program(Platform::Windows, pm) == "gradle.bat"@,
        pm == "ruby"@ ==> package_manager_program(Platform::Windows, pm) == "ruby.exe"@,
        !(pm == "bun"@ || pm == "composer"@ || pm == "go"@ || pm == "java"@ || pm == "maven"@ || pm == "gradle"@ || pm == "ruby"@) ==> package_manager_program(Platform::Windows, pm) == pm + ".cmd"@,
{
    reveal_strlit("bun");
    reveal_strlit("composer");
    reveal_strlit("go");
    reveal_strlit("java");
    reveal_strlit("maven");
    reveal_strlit("gradle");
    reveal_strlit("ruby");
    assert("bun"@.len() == 3 && "bun"@[0] == 'b');
    assert("composer"@.len() == 8 && "composer"@[0] == 'c');
    assert("go"@.len() == 2 && "go"@[0] == 'g');
    assert("java"@.len() == 4 && "java"@[0] == 'j');
    assert("maven"@.len() == 5 && "maven"@[0] == 'm');
    assert("gradle"@.len() == 6 && "gradle"@[0] == 'g');
    assert("ruby"@.len() == 4 && "ruby"@[0] == 'r');
}

/// The program name a package manager is run by.
pub fn package_manager_command(p: Platform, package_manager: &str) -> (r: String)
    ensures
        r@ == package_manager_program(p, package_manager@),
{
    match p {
        Platform::Unix => owned(package_manager),
        Platform::Windows => {
            if str_eq(package_manager, "bun") {
                owned("bun")
            } else if str_eq(package_manager, "composer") {
                owned("composer.bat")
            } else if str_eq(package_manager, "go") {
                owned("go.exe")
            } else if str_eq(package_manager, "java") {
                owned("java.exe")
            } else if str_eq(package_manager, "maven") {
                owned("mvn.cmd")
            } else if str_eq(package_manager, "gradle") {
                owned("gradle.bat")
            } else if str_eq(package_manager, "ruby") {
                owned("ruby.exe")
            } else {
                concat(package_manager, ".cmd")
            }
        },
    }
}

/// The subcommand that runs a named script: `run-script` for Composer, `run`
/// for the others.
pub fn package_manager_run_command(package_manager: &str) -> (r: &'static str)
    ensures
        r@ == if package_manager@ == "composer"@ {
            "run-script"@
        } else {
            "run"@
        },
{
    if str_eq(package_manager, "composer") {
        "run-script"
    } else {
        "run"
    }
}

/// The shell command that runs a command line: PowerShell on Windows, `sh -c`
/// elsewhere.
pub open spec fn shell_tool_view(p: Platform, command_line: Seq<char>) -> ToolView {
    match p {
        Platform::Unix => ToolView { program: "sh"@, args: seq!["-c"@, command_line] },
        Platform::Windows => ToolView {
            program: "powershell.exe"@,
            args: seq![
                "-NoLogo"@,
                "-NoProfile"@,
                "-NonInteractive"@,
                "-ExecutionPolicy"@,
                "Bypass"@,
                "-Command"@,
                command_line,
            ],
        },
    }
}

/// The shell command that runs a command line.
pub fn shell_tool_command(p: Platform, command_line: String) -> (r: ToolCommand)
    ensures
        r.deep_view() == shell_tool_view(p, command_line@),
{
    match p {
        Platform::Unix => {
            let args = vec![owned("-c"), command_line];
            let r = ToolCommand { program: owned("sh"), args };
            assert(r.deep_view().args =~= shell_tool_view(p, command_line@).args);
            r
        },
        Platform::Windows => {
            let args = vec![
                owned("-NoLogo"),
                owned("-NoProfile"),
                owned("-NonInteractive"),
                owned("-ExecutionPolicy"),
                owned("Bypass"),
                owned("-Command"),
                command_line,
            ];
            let r = ToolCommand { program: owned("powershell.exe"), args };
            assert(r.deep_view().args =~= shell_tool_view(p, command_line@).args);
            r
        },
    }
}

/// How a tool is named in a displayed command: its program's file name, or
/// the program as given when it has none.
pub open spec fn display_name(p: Platform, tool: ToolView) -> Seq<char> {
    match file_name(p, tool.program) {
        Some(n) => n,
        None => tool.program,
    }
}

/// How a tool is named in a displayed command.
pub fn command_display(p: Platform, tool: &ToolCommand) -> (r: String)
    ensures
        r@ == display_name(p, tool.deep_view()),
{
    match path_file_name(p, tool.program.as_str()) {
        Some(n) => n,
        None => tool.program.clone(),
    }
}

} // verus!
