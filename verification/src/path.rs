//! Directory paths as text, and the rules by which `cd` picks its target.
//!
//! A directory is held in canonical form: absolute, without empty, `.` or
//! `..` components and without a separator at its end (the root alone ends
//! in one). On such paths `parent_path` and `joined` agree with the path
//! functions of the standard library.

use vstd::prelude::*;
use vstd::string::StringExecFns;
use crate::text::chars_of;

verus! {

/// Whether `c` separates the components of a path: `/`, and on the
/// alternate platform `\` as well.
pub open spec fn is_separator(c: char, windows: bool) -> bool {
    c == '/' || (windows && c == '\\')
}

/// The separator that `joined` puts between a directory and a name.
pub open spec fn main_separator(windows: bool) -> char {
    if windows {
        '\\'
    } else {
        '/'
    }
}

/// The index of the last separator of `path`, or -1 where it has none.
pub open spec fn last_separator(path: Seq<char>, windows: bool) -> int
    decreases path.len(),
{
    if path.len() == 0 {
        -1
    } else if is_separator(path.last(), windows) {
        path.len() - 1
    } else {
        last_separator(path.drop_last(), windows)
    }
}

/// The directory that holds `path`: `path` without its last component.
/// `None` for the empty path and for one that ends in a separator, which is
/// a root. The separator that closes a root, or follows a drive letter's
/// colon, stays.
pub open spec fn parent_path(path: Seq<char>, windows: bool) -> Option<Seq<char>> {
    let k = last_separator(path, windows);
    if path.len() == 0 || is_separator(path.last(), windows) {
        None
    } else if k < 0 {
        Some(Seq::empty())
    } else if k == 0 || (windows && path[k - 1] == ':') {
        Some(path.subrange(0, k + 1))
    } else {
        Some(path.subrange(0, k))
    }
}

/// `name` below the directory `base`: the two with one separator between
/// them, which `base` may bring itself.
pub open spec fn joined(base: Seq<char>, name: Seq<char>, windows: bool) -> Seq<char> {
    if base.len() == 0 || is_separator(base.last(), windows) {
        base + name
    } else {
        base + seq![main_separator(windows)] + name
    }
}

/// Whether `target` has the form of an absolute path: it begins with `/`, or,
/// on the alternate platform, its second character is the colon of a drive
/// letter.
pub open spec fn absolute_form(target: Seq<char>, windows: bool) -> bool {
    (target.len() > 0 && target[0] == '/') || (windows && target.len() > 1 && target[1] == ':')
}

/// The home directory: the first of `home` and `profile` that is set, else
/// the root.
pub open spec fn home_of(home: Option<Seq<char>>, profile: Option<Seq<char>>) -> Seq<char> {
    match home {
        Some(h) => h,
        None => match profile {
            Some(p) => p,
            None => seq!['/'],
        },
    }
}

/// The path that `cd` with the argument `arg` asks for, from the directory
/// `cwd`: the home directory for no argument, `cwd` for `.`, its parent for
/// `..` (`cwd` itself where it has none), `arg` itself where it has the form
/// of an absolute path, and else `arg` below `cwd`.
pub open spec fn cd_target(
    cwd: Seq<char>,
    arg: Seq<char>,
    home: Seq<char>,
    windows: bool,
) -> Seq<char> {
    if arg.len() == 0 {
        home
    } else if arg == seq!['.'] {
        cwd
    } else if arg == seq!['.', '.'] {
        match parent_path(cwd, windows) {
            Some(p) => p,
            None => cwd,
        }
    } else if absolute_form(arg, windows) {
        arg
    } else {
        joined(cwd, arg, windows)
    }
}

/// Tells whether `c` separates the components of a path.
pub fn separates(c: char, windows: bool) -> (b: bool)
    ensures
        b == is_separator(c, windows),
{
    c == '/' || (windows && c == '\\')
}

/// The last separator of a path lies in it, is a separator, and none
/// follows it.
pub proof fn lemma_last_separator(path: Seq<char>, windows: bool)
    ensures
        -1 <= last_separator(path, windows) < path.len(),
        last_separator(path, windows) >= 0 ==> is_separator(
            path[last_separator(path, windows)],
            windows,
        ),
        forall|k: int|
            last_separator(path, windows) < k < path.len() ==> !is_separator(
                #[trigger] path[k],
                windows,
            ),
    decreases path.len(),
{
    if path.len() > 0 && !is_separator(path.last(), windows) {
        let shorter = path.drop_last();
        lemma_last_separator(shorter, windows);
        assert forall|k: int| last_separator(path, windows) < k < path.len() implies !is_separator(
            #[trigger] path[k],
            windows,
        ) by {
            if k < path.len() - 1 {
                assert(shorter[k] == path[k]);
            }
        }
        if last_separator(path, windows) >= 0 {
            assert(shorter[last_separator(path, windows)] == path[last_separator(path, windows)]);
        }
    }
}

/// An index that holds a separator, with none after it, is the last
/// separator.
pub proof fn lemma_last_separator_is(path: Seq<char>, windows: bool, k: int)
    requires
        -1 <= k < path.len(),
        k >= 0 ==> is_separator(path[k], windows),
        forall|j: int| k < j < path.len() ==> !is_separator(#[trigger] path[j], windows),
    ensures
        last_separator(path, windows) == k,
{
    lemma_last_separator(path, windows);
    let l = last_separator(path, windows);
    if l < k {
        assert(!is_separator(path[k], windows));
    } else if l > k {
        assert(!is_separator(path[l], windows));
    }
}

/// On the plain platform, the parent of a name below a directory is that
/// directory: `parent_path` undoes `joined`, for a directory that is the
/// root or does not end in a separator, and a name that is not empty and
/// holds no separator.
pub proof fn law_parent_of_child(base: Seq<char>, name: Seq<char>)
    requires
        base == seq!['/'] || (base.len() > 0 && !is_separator(base.last(), false)),
        name.len() > 0,
        forall|k: int| 0 <= k < name.len() ==> !is_separator(#[trigger] name[k], false),
    ensures
        parent_path(joined(base, name, false), false) == Some(base),
{
    let path = joined(base, name, false);
    if base == seq!['/'] {
        assert(path =~= seq!['/'] + name);
        lemma_last_separator_is(path, false, 0);
        assert(path.subrange(0, 1) =~= base);
    } else {
        assert(path =~= base + seq!['/'] + name);
        let k = base.len() as int;
        assert(path[k] == '/');
        assert forall|j: int| k < j < path.len() implies !is_separator(
            #[trigger] path[j],
            false,
        ) by {
            assert(path[j] == name[j - k - 1]);
        }
        lemma_last_separator_is(path, false, k);
        assert(path.subrange(0, k) =~= base);
    }
    assert(path.last() == name.last());
}

/// The directory that holds `path`, where it has one.
pub fn parent(path: &str, windows: bool) -> (r: Option<String>)
    ensures
        r.is_some() == parent_path(path@, windows).is_some(),
        r.is_some() ==> r.unwrap()@ == parent_path(path@, windows).unwrap(),
{
    let v = chars_of(path);
    let n: usize = v.len();
    if n == 0 || separates(v[n - 1], windows) {
        return None;
    }
    let mut i: usize = n;
    while i > 0 && !separates(v[i - 1], windows)
        invariant
            i <= n,
            n == v.len(),
            v@ == path@,
            forall|j: int| i <= j < n ==> !is_separator(#[trigger] path@[j], windows),
        decreases i,
    {
        i -= 1;
    }
    proof {
        lemma_last_separator_is(path@, windows, i as int - 1);
    }
    if i == 0 {
        Some(String::new())
    } else if i == 1 || (windows && v[i - 2] == ':') {
        Some(path.substring_char(0, i).to_owned())
    } else {
        Some(path.substring_char(0, i - 1).to_owned())
    }
}

/// `name` below the directory `base`.
pub fn join(base: &str, name: &str, windows: bool) -> (r: String)
    ensures
        r@ == joined(base@, name@, windows),
{
    let v = chars_of(base);
    let n: usize = v.len();
    let mut r = base.to_owned();
    if !(n == 0 || separates(v[n - 1], windows)) {
        proof {
            reveal_strlit("\\");
            reveal_strlit("/");
        }
        if windows {
            r.append("\\");
        } else {
            r.append("/");
        }
        assert(r@ =~= base@ + seq![main_separator(windows)]);
    }
    r.append(name);
    r
}

/// Tells whether `target` has the form of an absolute path.
pub fn is_absolute_form(target: &str, windows: bool) -> (b: bool)
    ensures
        b == absolute_form(target@, windows),
{
    let v = chars_of(target);
    (v.len() > 0 && v[0] == '/') || (windows && v.len() > 1 && v[1] == ':')
}

/// The home directory, from what the variables `HOME` and `USERPROFILE`
/// hold.
pub fn home_directory(home: Option<String>, profile: Option<String>) -> (r: String)
    ensures
        r@ == home_of(
            match home {
                Some(h) => Some(h@),
                None => None,
            },
            match profile {
                Some(p) => Some(p@),
                None => None,
            },
        ),
{
    match home {
        Some(h) => h,
        None => match profile {
            Some(p) => p,
            None => {
                proof {
                    reveal_strlit("/");
                }
                let r = "/".to_owned();
                assert(r@ =~= seq!['/']);
                r
            },
        },
    }
}

/// The directory in which sessions start: the directory `current` in which
/// the server runs, or the root where that is not known.
pub fn start_directory(current: Option<String>) -> (r: String)
    ensures
        r@ == match current {
            Some(c) => c@,
            None => seq!['/'],
        },
{
    match current {
        Some(c) => c,
        None => {
            proof {
                reveal_strlit("/");
            }
            let r = "/".to_owned();
            assert(r@ =~= seq!['/']);
            r
        },
    }
}

/// The path that `cd` with the argument `arg` asks for, from the directory
/// `cwd`.
pub fn target_of(cwd: &str, arg: &str, home: &str, windows: bool) -> (r: String)
    ensures
        r@ == cd_target(cwd@, arg@, home@, windows),
{
    let a = chars_of(arg);
    if a.len() == 0 {
        home.to_owned()
    } else if a.len() == 1 && a[0] == '.' {
        assert(arg@ =~= seq!['.']);
        cwd.to_owned()
    } else if a.len() == 2 && a[0] == '.' && a[1] == '.' {
        assert(arg@ =~= seq!['.', '.']);
        match parent(cwd, windows) {
            Some(p) => p,
            None => cwd.to_owned(),
        }
    } else if is_absolute_form(arg, windows) {
        assert(arg@ != seq!['.']) by {
            if arg@ == seq!['.'] {
                assert(arg@.len() == 1 && arg@[0] == '.');
            }
        }
        assert(arg@ != seq!['.', '.']) by {
            if arg@ == seq!['.', '.'] {
                assert(arg@.len() == 2 && arg@[0] == '.' && arg@[1] == '.');
            }
        }
        arg.to_owned()
    } else {
        assert(arg@ != seq!['.']) by {
            if arg@ == seq!['.'] {
                assert(arg@.len() == 1 && arg@[0] == '.');
            }
        }
        assert(arg@ != seq!['.', '.']) by {
            if arg@ == seq!['.', '.'] {
                assert(arg@.len() == 2 && arg@[0] == '.' && arg@[1] == '.');
            }
        }
        join(cwd, arg, windows)
    }
}

} // verus!
