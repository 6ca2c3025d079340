//! The folders searched for tools: those of the inherited search path, then
//! the places where developer tools are often installed, then the newest
//! versions that Node version managers installed.

use vstd::prelude::*;
use crate::model::Platform;
use crate::platform::{char_is_separator, is_separator, join, join_path, prefix_len, prefix_len_at};
use crate::text::{chars_of, push_char, str_eq, string_of_range};

verus! {

broadcast use vstd::seq_lib::to_multiset_insert;

/// Folders outside the home folder where developer tools are often installed.
pub open spec fn system_tool_dirs() -> Seq<Seq<char>> {
    seq![
        "/opt/homebrew/bin"@,
        "/opt/homebrew/sbin"@,
        "/opt/homebrew/opt/openjdk/bin"@,
        "/opt/homebrew/opt/maven/bin"@,
        "/opt/homebrew/opt/gradle/bin"@,
        "/usr/local/bin"@,
        "/usr/local/sbin"@,
        "/usr/local/opt/openjdk/bin"@,
        "/usr/local/opt/maven/bin"@,
        "/usr/local/opt/gradle/bin"@,
        "/usr/local/go/bin"@,
        "/usr/bin"@,
        "/bin"@,
        "/usr/sbin"@,
        "/sbin"@,
        "/snap/bin"@,
    ]
}

/// Folders under the home folder where developer tools are often installed.
pub open spec fn home_tool_dirs() -> Seq<Seq<char>> {
    seq![
        ".local/bin"@,
        ".cargo/bin"@,
        ".volta/bin"@,
        ".bun/bin"@,
        ".deno/bin"@,
        ".asdf/shims"@,
        ".pyenv/shims"@,
        ".rbenv/shims"@,
        "go/bin"@,
        ".sdkman/candidates/java/current/bin"@,
        ".sdkman/candidates/maven/current/bin"@,
        ".sdkman/candidates/gradle/current/bin"@,
    ]
}

/// The folders where developer tools are often installed, in the order they
/// are searched; those under the home folder only when it is known.
pub open spec fn developer_dirs_view(p: Platform, home: Option<Seq<char>>) -> Seq<Seq<char>> {
    match home {
        Some(h) => system_tool_dirs() + home_tool_dirs().map_values(|d: Seq<char>| join_path(p, h, d)),
        None => system_tool_dirs(),
    }
}

/// The folders where developer tools are often installed.
pub fn developer_dirs(p: Platform, home: Option<&str>) -> (r: Vec<String>)
    ensures
        r.deep_view() == developer_dirs_view(
            p,
            match home {
                Some(h) => Some(h@),
                None => None,
            },
        ),
{
    let system = [
        "/opt/homebrew/bin",
        "/opt/homebrew/sbin",
        "/opt/homebrew/opt/openjdk/bin",
        "/opt/homebrew/opt/maven/bin",
        "/opt/homebrew/opt/gradle/bin",
        "/usr/local/bin",
        "/usr/local/sbin",
        "/usr/local/opt/openjdk/bin",
        "/usr/local/opt/maven/bin",
        "/usr/local/opt/gradle/bin",
        "/usr/local/go/bin",
        "/usr/bin",
        "/bin",
        "/usr/sbin",
        "/sbin",
        "/snap/bin",
    ];
    assert(system.deep_view() =~= system_tool_dirs());
    let mut out = crate::model::strings(&system);
    match home {
        Some(h) => {
            let under_home = [
                ".local/bin",
                ".cargo/bin",
                ".volta/bin",
                ".bun/bin",
                ".deno/bin",
                ".asdf/shims",
                ".pyenv/shims",
                ".rbenv/shims",
                "go/bin",
                ".sdkman/candidates/java/current/bin",
                ".sdkman/candidates/maven/current/bin",
                ".sdkman/candidates/gradle/current/bin",
            ];
            assert(under_home.deep_view() =~= home_tool_dirs());
            let ghost f = |d: Seq<char>| join_path(p, h@, d);
            let mut i: usize = 0;
            while i < under_home.len()
                invariant
                    i <= under_home@.len(),
                    under_home.deep_view() == home_tool_dirs(),
                    f == (|d: Seq<char>| join_path(p, h@, d)),
                    out.deep_view() == system_tool_dirs() + home_tool_dirs().take(
                        i as int,
                    ).map_values(f),
                decreases under_home@.len() - i,
            {
                let ghost before = out.deep_view();
                out.push(join(p, h, under_home[i]));
                assert(home_tool_dirs().take(i + 1).map_values(f) =~= home_tool_dirs().take(
                    i as int,
                ).map_values(f).push(f(home_tool_dirs()[i as int])));
                assert(out.deep_view() =~= before.push(join_path(p, h@, under_home@[i as int]@)));
                i = i + 1;
            }
            assert(home_tool_dirs().take(12) =~= home_tool_dirs());
            out
        },
        None => out,
    }
}

/// The folders where Node version managers keep their versions, under the
/// home folder, each with the path from a version's folder to its programs.
pub open spec fn version_manager_roots_view(p: Platform, home: Seq<char>) -> Seq<
    (Seq<char>, Seq<Seq<char>>),
> {
    seq![
        (join_path(p, home, ".nvm/versions/node"@), seq!["bin"@]),
        (join_path(p, home, ".fnm/node-versions"@), seq!["installation"@, "bin"@]),
        (join_path(p, home, ".local/share/fnm/node-versions"@), seq!["installation"@, "bin"@]),
    ]
}

/// The folders where Node version managers keep their versions.
pub fn version_manager_roots(p: Platform, home: &str) -> (r: Vec<(String, Vec<String>)>)
    ensures
        r.deep_view() == version_manager_roots_view(p, home@),
{
    let nvm = vec![crate::text::owned("bin")];
    let fnm = vec![crate::text::owned("installation"), crate::text::owned("bin")];
    let fnm_local = vec![crate::text::owned("installation"), crate::text::owned("bin")];
    assert(nvm.deep_view() =~= seq!["bin"@]);
    assert(fnm.deep_view() =~= seq!["installation"@, "bin"@]);
    assert(fnm_local.deep_view() =~= seq!["installation"@, "bin"@]);
    let r = vec![
        (join(p, home, ".nvm/versions/node"), nvm),
        (join(p, home, ".fnm/node-versions"), fnm),
        (join(p, home, ".local/share/fnm/node-versions"), fnm_local),
    ];
    assert(r.deep_view() =~= version_manager_roots_view(p, home@));
    r
}

/// Whether `a` comes before `b` or equals it, comparing their characters in
/// order by code point, a text before those it starts.
pub open spec fn text_le(a: Seq<char>, b: Seq<char>) -> bool
    decreases a.len(),
{
    if a.len() == 0 {
        true
    } else if b.len() == 0 {
        false
    } else if (a[0] as u32) < (b[0] as u32) {
        true
    } else if (a[0] as u32) == (b[0] as u32) {
        text_le(a.drop_first(), b.drop_first())
    } else {
        false
    }
}

/// Any two texts are ordered one way or the other.
pub proof fn lemma_text_le_total(a: Seq<char>, b: Seq<char>)
    ensures
        text_le(a, b) || text_le(b, a),
    decreases a.len(),
{
    if a.len() > 0 && b.len() > 0 && (a[0] as u32) == (b[0] as u32) {
        lemma_text_le_total(a.drop_first(), b.drop_first());
    }
}

/// The order of texts is transitive.
pub proof fn lemma_text_le_trans(a: Seq<char>, b: Seq<char>, c: Seq<char>)
    requires
        text_le(a, b),
        text_le(b, c),
    ensures
        text_le(a, c),
    decreases a.len(),
{
    if a.len() > 0 && b.len() > 0 && c.len() > 0 && (a[0] as u32) == (b[0] as u32) && (b[0] as u32)
        == (c[0] as u32) {
        lemma_text_le_trans(a.drop_first(), b.drop_first(), c.drop_first());
    }
}

/// Whether `a` comes before `b` or equals it.
pub fn text_at_most(a: &str, b: &str) -> (r: bool)
    ensures
        r == text_le(a@, b@),
{
    let x = chars_of(a);
    let y = chars_of(b);
    let mut i: usize = 0;
    assert(x@.skip(0) =~= x@);
    assert(y@.skip(0) =~= y@);
    while i < x.len() && i < y.len() && (x[i] as u32) == (y[i] as u32)
        invariant
            x@ == a@,
            y@ == b@,
            i <= x@.len(),
            i <= y@.len(),
            text_le(a@, b@) == text_le(x@.skip(i as int), y@.skip(i as int)),
        decreases x@.len() - i,
    {
        proof {
            assert(x@.skip(i as int).drop_first() =~= x@.skip(i + 1));
            assert(y@.skip(i as int).drop_first() =~= y@.skip(i + 1));
        }
        i = i + 1;
    }
    if i == x.len() {
        true
    } else if i == y.len() {
        false
    } else {
        (x[i] as u32) < (y[i] as u32)
    }
}

/// Whether each text comes after or equals the next one.
pub open spec fn newest_first_order(s: Seq<Seq<char>>) -> bool {
    forall|i: int, j: int| 0 <= i < j < s.len() ==> text_le(#[trigger] s[j], #[trigger] s[i])
}

/// The names of the versions a version manager installed, latest first:
/// the same names, each text after those that come before it.
pub fn newest_first(names: Vec<String>) -> (r: Vec<String>)
    ensures
        r.deep_view().to_multiset() == names.deep_view().to_multiset(),
        newest_first_order(r.deep_view()),
{
    let ghost nv = names.deep_view();
    let mut out: Vec<String> = Vec::new();
    let mut rest = names;
    let mut k: usize = 0;
    let n = rest.len();
    proof {
        broadcast use vstd::seq_lib::group_to_multiset_ensures;
        assert(nv.skip(0) =~= nv);
        assert(nv.take(0) =~= Seq::<Seq<char>>::empty());
        assert(out.deep_view() =~= Seq::<Seq<char>>::empty());
    }
    while k < n
        invariant
            n == nv.len(),
            k <= n,
            rest.deep_view() == nv.skip(k as int),
            out.deep_view().to_multiset() == nv.take(k as int).to_multiset(),
            newest_first_order(out.deep_view()),
        decreases n - k,
    {
        assert(rest@.len() == rest.deep_view().len());
        let ghost rb = rest.deep_view();
        assert(rb[0] == rest@[0]@);
        let x = rest.remove(0);
        proof {
            assert(x@ == nv[k as int]);
            assert(rest.deep_view() =~= rb.drop_first());
            assert(rest.deep_view() =~= nv.skip(k + 1));
        }
        let mut j: usize = 0;
        while j < out.len() && !text_at_most(out[j].as_str(), x.as_str())
            invariant
                j <= out@.len(),
                forall|a: int| 0 <= a < j ==> text_le(x@, #[trigger] out.deep_view()[a]),
            decreases out@.len() - j,
        {
            proof {
                lemma_text_le_total(out.deep_view()[j as int], x@);
            }
            j = j + 1;
        }
        let ghost ov = out.deep_view();
        out.insert(j, x);
        proof {
            let nvw = out.deep_view();
            assert(nvw =~= ov.insert(j as int, nv[k as int]));
            assert(nv.take(k + 1) =~= nv.take(k as int).push(nv[k as int]));
            vstd::seq_lib::to_multiset_build(nv.take(k as int), nv[k as int]);
            assert forall|a: int, b: int| 0 <= a < b < nvw.len() implies text_le(
                #[trigger] nvw[b],
                #[trigger] nvw[a],
            ) by {
                if b < j {
                    assert(nvw[a] == ov[a] && nvw[b] == ov[b]);
                } else if b == j {
                    assert(nvw[a] == ov[a]);
                } else if a == j {
                    assert(nvw[b] == ov[b - 1]);
                    if b - 1 > j {
                        assert(text_le(ov[b - 1], ov[j as int]));
                        lemma_text_le_trans(ov[b - 1], ov[j as int], x@);
                    }
                } else if a < j {
                    assert(nvw[a] == ov[a] && nvw[b] == ov[b - 1]);
                    assert(text_le(ov[b - 1], ov[a]));
                } else {
                    assert(nvw[a] == ov[a - 1] && nvw[b] == ov[b - 1]);
                    assert(text_le(ov[b - 1], ov[a - 1]));
                }
            }
        }
        k = k + 1;
    }
    assert(nv.take(n as int) =~= nv);
    out
}

/// The names between the separators of a path, empty ones included.
pub open spec fn path_names(p: Platform, s: Seq<char>) -> Seq<Seq<char>>
    decreases s.len(),
{
    if s.len() == 0 {
        seq![Seq::empty()]
    } else {
        let rest = path_names(p, s.drop_last());
        if is_separator(p, s.last()) {
            rest.push(Seq::empty())
        } else {
            rest.update(rest.len() - 1, rest.last().push(s.last()))
        }
    }
}

/// A name that counts when paths are compared: neither empty nor `.`.
pub open spec fn counted_name() -> spec_fn(Seq<char>) -> bool {
    |n: Seq<char>| n.len() > 0 && n != seq!['.']
}

/// What the part of a path after its prefix is compared by: whether it
/// starts at a root, whether it starts with `.` otherwise, and its other
/// names in order, leaving out empty names and `.`.
pub open spec fn body_key(p: Platform, s: Seq<char>) -> (bool, bool, Seq<Seq<char>>) {
    let root = s.len() > 0 && is_separator(p, s[0]);
    (root, !root && path_names(p, s)[0] == seq!['.'], path_names(p, s).filter(counted_name()))
}

/// A letter's code in upper case; other codes as they are.
pub open spec fn ascii_upper(v: u32) -> u32 {
    if 97 <= v <= 122 {
        (v - 32) as u32
    } else {
        v
    }
}

/// The drive of a path's prefix, as the code of its letter in upper case:
/// drives compare without regard to case. None when the path has no prefix.
pub open spec fn drive_key(p: Platform, s: Seq<char>) -> Option<u32> {
    if prefix_len(p, s) == 2 {
        Some(ascii_upper(s[0] as u32))
    } else {
        None
    }
}

/// What a path is compared by: its drive, and what the part after its
/// prefix is compared by.
pub open spec fn path_key(p: Platform, s: Seq<char>) -> (Option<u32>, bool, bool, Seq<Seq<char>>) {
    let k = body_key(p, s.skip(prefix_len(p, s)));
    (drive_key(p, s), k.0, k.1, k.2)
}

/// What a path is compared by.
fn path_key_of(p: Platform, path: &str) -> (r: (Option<u32>, bool, bool, Vec<String>))
    ensures
        (r.0, r.1, r.2, r.3.deep_view()) == path_key(p, path@),
{
    let cs = chars_of(path);
    let n = cs.len();
    let pl = prefix_len_at(p, &cs);
    let drive = if pl == 2 {
        let v: u32 = cs[0] as u32;
        Some(
            if 97 <= v && v <= 122 {
                v - 32
            } else {
                v
            },
        )
    } else {
        None
    };
    let body = string_of_range(&cs, pl, n);
    assert(body@ =~= path@.skip(pl as int));
    let k = body_key_of(p, body.as_str());
    (drive, k.0, k.1, k.2)
}

/// What the part of a path after its prefix is compared by.
fn body_key_of(p: Platform, path: &str) -> (r: (bool, bool, Vec<String>))
    ensures
        (r.0, r.1, r.2.deep_view()) == body_key(p, path@),
{
    let cs = chars_of(path);
    let mut done: Vec<String> = Vec::new();
    let mut current = String::new();
    let mut i: usize = 0;
    assert(cs@.take(0) =~= Seq::<char>::empty());
    assert(done.deep_view().push(current@) =~= seq![Seq::<char>::empty()]);
    while i < cs.len()
        invariant
            i <= cs@.len(),
            cs@ == path@,
            path_names(p, cs@.take(i as int)) == done.deep_view().push(current@),
        decreases cs@.len() - i,
    {
        proof {
            assert(cs@.take(i + 1).drop_last() =~= cs@.take(i as int));
            assert(cs@.take(i + 1).last() == cs@[i as int]);
        }
        let ghost before = done.deep_view();
        if char_is_separator(p, cs[i]) {
            let finished = current;
            current = String::new();
            done.push(finished);
            assert(done.deep_view() =~= before.push(finished@));
        } else {
            let ghost cur = current@;
            push_char(&mut current, cs[i]);
            assert(before.push(cur).update(before.len() as int, cur.push(cs@[i as int])) =~= before.push(
                current@,
            ));
        }
        i = i + 1;
    }
    assert(cs@.take(cs@.len() as int) =~= cs@);
    done.push(current);
    let names = done;
    let ghost nv = names.deep_view();
    assert(nv == path_names(p, path@));
    let root = cs.len() > 0 && char_is_separator(p, cs[0]);
    let first_dot = str_eq(names[0].as_str(), ".");
    proof {
        reveal_strlit(".");
        assert(nv[0] == names@[0]@);
        assert("."@ =~= seq!['.']);
    }
    let mut parts: Vec<String> = Vec::new();
    let mut j: usize = 0;
    while j < names.len()
        invariant
            j <= names@.len(),
            nv == names.deep_view(),
            parts.deep_view() == nv.take(j as int).filter(counted_name()),
        decreases names@.len() - j,
    {
        proof {
            reveal(Seq::filter);
            assert(nv.take(j + 1).drop_last() =~= nv.take(j as int));
            assert(nv.take(j + 1).last() == names@[j as int]@);
            reveal_strlit(".");
            assert("."@ =~= seq!['.']);
        }
        let name = names[j].as_str();
        let ghost n = names@[j as int]@;
        assert(name@ == n);
        if !name.is_empty() && !str_eq(name, ".") {
            let ghost before = parts.deep_view();
            parts.push(names[j].clone());
            assert(parts.deep_view() =~= before.push(names@[j as int]@));
            assert(counted_name()(n));
        } else {
            assert(!counted_name()(n));
        }
        j = j + 1;
    }
    assert(nv.take(names@.len() as int) =~= nv);
    (root, !root && first_dot, parts)
}

/// Whether two keys of paths are the same.
fn same_key(a: &(Option<u32>, bool, bool, Vec<String>), b: &(Option<u32>, bool, bool, Vec<String>)) -> (r: bool)
    ensures
        r == ((a.0, a.1, a.2, a.3.deep_view()) == (b.0, b.1, b.2, b.3.deep_view())),
{
    let same_drive = match (a.0, b.0) {
        (Some(x), Some(y)) => x == y,
        (None, None) => true,
        _ => false,
    };
    if !same_drive || a.1 != b.1 || a.2 != b.2 || a.3.len() != b.3.len() {
        assert(a.3.deep_view().len() == a.3@.len() && b.3.deep_view().len() == b.3@.len());
        return false;
    }
    let mut i: usize = 0;
    while i < a.3.len()
        invariant
            i <= a.3@.len(),
            a.3@.len() == b.3@.len(),
            forall|k: int| 0 <= k < i ==> a.3@[k]@ == b.3@[k]@,
        decreases a.3@.len() - i,
    {
        if !str_eq(a.3[i].as_str(), b.3[i].as_str()) {
            assert(a.3.deep_view()[i as int] != b.3.deep_view()[i as int]);
            return false;
        }
        i = i + 1;
    }
    assert(a.3.deep_view() =~= b.3.deep_view());
    true
}

/// Whether some folder of `dirs` is the same path as `path`.
pub open spec fn listed(p: Platform, dirs: Seq<Seq<char>>, path: Seq<char>) -> bool {
    exists|i: int| 0 <= i < dirs.len() && path_key(p, #[trigger] dirs[i]) == path_key(p, path)
}

/// Adds a folder to the search path when it is a folder and no folder of
/// the search path is the same path; keeps the search path free of repeats.
pub fn push_path_dir(p: Platform, dirs: &mut Vec<String>, path: String, is_dir: bool)
    ensures
        final(dirs).deep_view() == if is_dir && !listed(p, old(dirs).deep_view(), path@) {
            old(dirs).deep_view().push(path@)
        } else {
            old(dirs).deep_view()
        },
        (forall|a: int, b: int|
            0 <= a < b < old(dirs).deep_view().len() ==> path_key(p, old(dirs).deep_view()[a])
                != path_key(p, old(dirs).deep_view()[b])) ==> (forall|a: int, b: int|
            0 <= a < b < final(dirs).deep_view().len() ==> path_key(p, final(dirs).deep_view()[a])
                != path_key(p, final(dirs).deep_view()[b])),
{
    if !is_dir {
        return;
    }
    let key = path_key_of(p, path.as_str());
    let ghost dv = dirs.deep_view();
    let mut i: usize = 0;
    while i < dirs.len()
        invariant
            i <= dirs@.len(),
            dv == dirs.deep_view(),
            (key.0, key.1, key.2, key.3.deep_view()) == path_key(p, path@),
            forall|k: int| 0 <= k < i ==> path_key(p, #[trigger] dv[k]) != path_key(p, path@),
        decreases dirs@.len() - i,
    {
        let other = path_key_of(p, dirs[i].as_str());
        if same_key(&other, &key) {
            assert(dv[i as int] == dirs@[i as int]@);
            assert(listed(p, dv, path@));
            return;
        }
        i = i + 1;
    }
    dirs.push(path);
    assert(dirs.deep_view() =~= dv.push(path@));
}

/// Whether a path is absolute: it starts at a root, after a drive on
/// Windows.
pub open spec fn is_absolute_path(p: Platform, s: Seq<char>) -> bool {
    let k = path_key(p, s);
    match p {
        Platform::Unix => k.1,
        Platform::Windows => k.0 is Some && k.1,
    }
}

/// How many components a path has: its prefix, its root, a leading `.`,
/// and its other names but empty ones and `.`.
pub open spec fn component_count(p: Platform, s: Seq<char>) -> int {
    let k = path_key(p, s);
    (if k.0 is Some { 1int } else { 0int }) + (if k.1 { 1int } else { 0int }) + (if k.2 {
        1int
    } else {
        0int
    }) + k.3.len()
}

/// Whether a program is named by a path rather than by a bare name to look
/// up on the search path: it is absolute, or it has more than one
/// component.
pub open spec fn names_a_path(p: Platform, program: Seq<char>) -> bool {
    is_absolute_path(p, program) || component_count(p, program) > 1
}

/// Whether a program is named by a path rather than by a bare name.
pub fn program_is_path(p: Platform, program: &str) -> (r: bool)
    ensures
        r == names_a_path(p, program@),
{
    let k = path_key_of(p, program);
    let absolute = match p {
        Platform::Unix => k.1,
        Platform::Windows => k.0.is_some() && k.1,
    };
    let count: usize = (if k.0.is_some() { 1usize } else { 0usize }) + (if k.1 { 1usize } else { 0usize }) + (
    if k.2 {
        1usize
    } else {
        0usize
    });
    absolute || count > 1 || (count == 1 && k.3.len() >= 1) || k.3.len() >= 2
}

} // verus!
