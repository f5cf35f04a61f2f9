//! Paths as text: naming a child of a directory, and rewriting a
//! drive-rooted Windows path into the form an MSYS shell understands.
//!
//! The rewriting is deliberately narrow. It knows one thing about Windows
//! paths: a colon followed by a backslash marks the drive. A path that holds
//! a colon anywhere else is still rewritten, without failing, but the result
//! names nothing useful.

use vstd::prelude::*;
use vstd::string::*;

verus! {

/// The path of the entry `name` inside the directory `dir`. The two are
/// joined by a forward slash, which both path conventions accept.
pub open spec fn child(dir: Seq<char>, name: Seq<char>) -> Seq<char> {
    dir.push('/') + name
}

/// `s` with each colon that a backslash follows replaced, together with that
/// backslash, by one forward slash.
pub open spec fn drive_markers_replaced(s: Seq<char>) -> Seq<char>
    decreases s.len(),
{
    if s.len() == 0 {
        s
    } else if s.len() >= 2 && s[0] == ':' && s[1] == '\\' {
        seq!['/'] + drive_markers_replaced(s.skip(2))
    } else {
        seq![s[0]] + drive_markers_replaced(s.skip(1))
    }
}

/// `c`, or a forward slash where `c` is a backslash.
pub open spec fn forward(c: char) -> char {
    if c == '\\' {
        '/'
    } else {
        c
    }
}

/// `s` with each backslash replaced by a forward slash.
pub open spec fn separators_replaced(s: Seq<char>) -> Seq<char> {
    s.map_values(|c: char| forward(c))
}

/// The MSYS form of a Windows path: drive markers first, then the remaining
/// backslashes, become forward slashes, and a forward slash is put in front.
pub open spec fn msys_path(path: Seq<char>) -> Seq<char> {
    seq!['/'] + separators_replaced(drive_markers_replaced(path))
}

/// Whether `c` can name a drive.
pub open spec fn is_drive_letter(c: char) -> bool {
    ('a' <= c && c <= 'z') || ('A' <= c && c <= 'Z')
}

/// Whether `path` starts with a drive letter, a colon and a backslash, and
/// holds no other colon. These are the paths that the MSYS form is meant
/// for.
pub open spec fn is_drive_rooted(path: Seq<char>) -> bool {
    &&& path.len() >= 3
    &&& is_drive_letter(path[0])
    &&& path[1] == ':'
    &&& path[2] == '\\'
    &&& forall|i: int| 3 <= i < path.len() ==> path[i] != ':'
}

/// The Windows path that an MSYS path stands for: the character after the
/// leading slash is the drive, and every later forward slash is a
/// backslash.
pub open spec fn windows_path(msys: Seq<char>) -> Seq<char>
    recommends
        msys.len() >= 3,
{
    seq![msys[1], ':'] + msys.skip(2).map_values(
        |c: char|
            if c == '/' {
                '\\'
            } else {
                c
            },
    )
}

/// Names the entry `name` inside the directory `dir`.
pub fn join(dir: &str, name: &str) -> (path: String)
    ensures
        path@ == child(dir@, name@),
{
    let mut path = String::from_str(dir);
    path.push('/');
    path.append(name);
    path
}

/// Unfolds `drive_markers_replaced` once at a position inside `s`.
proof fn lemma_drive_markers_step(s: Seq<char>, at: int)
    requires
        0 <= at < s.len(),
    ensures
        at + 1 < s.len() && s[at] == ':' && s[at + 1] == '\\' ==> drive_markers_replaced(
            s.skip(at),
        ) == seq!['/'] + drive_markers_replaced(s.skip(at + 2)),
        !(at + 1 < s.len() && s[at] == ':' && s[at + 1] == '\\') ==> drive_markers_replaced(
            s.skip(at),
        ) == seq![s[at]] + drive_markers_replaced(s.skip(at + 1)),
{
    let rest = s.skip(at);
    assert(rest.skip(1) == s.skip(at + 1));
    if at + 1 < s.len() {
        assert(rest.skip(2) == s.skip(at + 2));
    }
}

/// Replaces drive markers, keeping one character of lookahead.
fn replace_drive_markers(path: &str) -> (replaced: String)
    ensures
        replaced@ == drive_markers_replaced(path@),
{
    broadcast use group_string_axioms;

    let mut replaced = String::new();
    let mut colon_held = false;
    assert(path@.skip(0) == path@);
    for c in it: path.chars()
        invariant
            it.seq() == path@,
            colon_held ==> it.index() > 0 && path@[it.index() - 1] == ':',
            replaced@ + drive_markers_replaced(
                path@.skip(
                    if colon_held {
                        it.index() - 1
                    } else {
                        it.index()
                    },
                ),
            ) == drive_markers_replaced(path@),
    {
        let ghost at = it.index();
        if colon_held {
            proof {
                lemma_drive_markers_step(path@, at - 1);
            }
            if c == '\\' {
                replaced.push('/');
                colon_held = false;
            } else {
                replaced.push(':');
                if c != ':' {
                    proof {
                        lemma_drive_markers_step(path@, at);
                    }
                    replaced.push(c);
                    colon_held = false;
                }
            }
        } else if c == ':' {
            colon_held = true;
        } else {
            proof {
                lemma_drive_markers_step(path@, at);
            }
            replaced.push(c);
        }
    }
    if colon_held {
        proof {
            lemma_drive_markers_step(path@, path@.len() - 1);
        }
        replaced.push(':');
    }
    replaced
}

/// Rewrites a drive-rooted Windows path, such as `C:\out\root`, into the
/// form an MSYS shell expects, `/C/out/root`.
///
/// Best effort: the result is only meaningful for a path whose one colon is
/// the drive marker. Any other input is rewritten by the same rule and never
/// rejected.
pub fn to_msys_path(path: &str) -> (rewritten: String)
    ensures
        rewritten@ == msys_path(path@),
{
    broadcast use group_string_axioms;

    let marked = replace_drive_markers(path);
    let mut rewritten = String::new();
    rewritten.push('/');
    for c in it: marked.as_str().chars()
        invariant
            it.seq() == marked@,
            rewritten@ == seq!['/'] + separators_replaced(marked@.take(it.index())),
    {
        if c == '\\' {
            rewritten.push('/');
        } else {
            rewritten.push(c);
        }
    }
    rewritten
}

/// Text without a colon holds no drive marker, and is left as it is.
proof fn lemma_no_colon_no_marker(s: Seq<char>)
    requires
        forall|i: int| 0 <= i < s.len() ==> s[i] != ':',
    ensures
        drive_markers_replaced(s) == s,
    decreases s.len(),
{
    if s.len() > 0 {
        lemma_no_colon_no_marker(s.skip(1));
    }
}

/// The MSYS form of a drive-rooted path is a slash, the drive letter, a
/// slash, and the rest of the path with forward slashes for backslashes:
/// `C:\out\root` becomes `/C/out/root`.
pub proof fn lemma_msys_path_of_drive_rooted(path: Seq<char>)
    requires
        is_drive_rooted(path),
    ensures
        msys_path(path) == seq!['/', path[0], '/'] + separators_replaced(path.skip(3)),
{
    let rest = path.skip(3);
    lemma_drive_markers_step(path, 0);
    lemma_drive_markers_step(path, 1);
    lemma_no_colon_no_marker(rest);
}

/// On drive-rooted paths without a forward slash the MSYS form loses
/// nothing: the Windows path it stands for is the path it was made from.
pub proof fn lemma_msys_path_round_trip(path: Seq<char>)
    requires
        is_drive_rooted(path),
        forall|i: int| 0 <= i < path.len() ==> path[i] != '/',
    ensures
        windows_path(msys_path(path)) == path,
{
    lemma_msys_path_of_drive_rooted(path);
}

} // verus!
