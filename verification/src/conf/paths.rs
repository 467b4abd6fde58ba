//! A plain model of file paths: a path is its string of characters, with
//! `'/'` as the directory separator. The model gives the two operations the
//! pipeline needs — the parent directory of a path, and joining a relative
//! suffix under a directory — and the single step of the upward walk that
//! looks for the configuration file.

use vstd::prelude::*;

verus! {

/// The index of the last `'/'` in `s`, or `-1` if there is none.
pub open spec fn last_slash_at(s: Seq<char>) -> int
    decreases s.len(),
{
    if s.len() == 0 {
        -1
    } else if s[s.len() - 1] == '/' {
        s.len() - 1
    } else {
        last_slash_at(s.drop_last())
    }
}

/// The parent directory of a path: the prefix before the last `'/'`, or
/// `"/"` itself when the last `'/'` is the leading one. The root `"/"`, a
/// path without any `'/'`, and the empty path have no parent.
pub open spec fn parent_of(s: Seq<char>) -> Option<Seq<char>> {
    let i = last_slash_at(s);
    if i < 0 {
        None
    } else if i == 0 {
        if s.len() == 1 {
            None
        } else {
            Some(s.subrange(0, 1))
        }
    } else {
        Some(s.subrange(0, i))
    }
}

/// Joining a relative suffix under a directory: a `'/'` is inserted unless
/// the directory is empty or already ends in one.
pub open spec fn join_paths(dir: Seq<char>, suffix: Seq<char>) -> Seq<char> {
    if dir.len() == 0 {
        suffix
    } else if dir[dir.len() - 1] == '/' {
        dir + suffix
    } else {
        dir + "/"@ + suffix
    }
}

/// The fixed relative path of the configuration file.
pub fn config_rel_path() -> (r: &'static str)
    ensures
        r@ == "config/application.toml"@,
{
    "config/application.toml"
}

/// The parent directory of `path`, or `None` where the model gives it none.
pub fn parent_dir(path: &str) -> (r: Option<String>)
    ensures
        match r {
            Some(p) => parent_of(path@) == Some(p@),
            None => parent_of(path@) is None,
        },
{
    let n = path.unicode_len();
    proof {
        assert(path@.take(n as int) =~= path@);
    }
    let mut j: usize = n;
    let mut found = false;
    while !found && j > 0
        invariant
            j <= n,
            n == path@.len(),
            !found ==> last_slash_at(path@) == last_slash_at(path@.take(j as int)),
            found ==> j > 0 && last_slash_at(path@) == j - 1,
        decreases j + (if found {
            0int
        } else {
            1int
        }),
    {
        if path.get_char(j - 1) == '/' {
            proof {
                assert(path@.take(j as int)[j as int - 1] == path@[j as int - 1]);
                assert(last_slash_at(path@.take(j as int)) == j - 1);
            }
            found = true;
        } else {
            proof {
                assert(path@.take(j as int).drop_last() =~= path@.take(j as int - 1));
            }
            j -= 1;
        }
    }
    proof {
        if !found {
            assert(path@.take(0int) =~= Seq::<char>::empty());
            assert(last_slash_at(path@) == -1);
        }
    }
    if !found {
        None
    } else if j - 1 == 0 {
        if n == 1 {
            None
        } else {
            Some(path.substring_char(0, 1).to_owned())
        }
    } else {
        Some(path.substring_char(0, j - 1).to_owned())
    }
}

/// Joins a relative suffix under a directory.
pub fn join_under(dir: &str, suffix: &str) -> (r: String)
    ensures
        r@ == join_paths(dir@, suffix@),
{
    let n = dir.unicode_len();
    if n == 0 {
        return suffix.to_owned();
    }
    let mut s = dir.to_owned();
    if dir.get_char(n - 1) != '/' {
        s.append("/");
    }
    s.append(suffix);
    s
}

/// The candidate location of the configuration file under `dir`.
pub fn candidate_path(dir: &str) -> (r: String)
    ensures
        r@ == join_paths(dir@, "config/application.toml"@),
{
    join_under(dir, config_rel_path())
}

/// The outcome of one step of the upward walk.
pub enum LocateStep {
    /// The candidate path exists: the search ends with it.
    Found(String),
    /// The candidate path does not exist: the search continues from the
    /// parent directory.
    Ascend(String),
    /// The candidate path does not exist and the directory has no parent:
    /// the search is exhausted.
    Exhausted,
}

/// One step of the upward walk that looks for the configuration file:
/// `dir` is the directory under inspection and `candidate_exists` says
/// whether `candidate_path(dir)` names an existing file. The walk that
/// repeats this step is bounded, since a parent is strictly shorter than
/// its child.
pub fn locate_step(dir: &str, candidate_exists: bool) -> (r: LocateStep)
    ensures
        candidate_exists ==> (r matches LocateStep::Found(p) && p@ == join_paths(
            dir@,
            "config/application.toml"@,
        )),
        !candidate_exists ==> match parent_of(dir@) {
            Some(par) => (r matches LocateStep::Ascend(d) && d@ == par),
            None => r is Exhausted,
        },
{
    if candidate_exists {
        LocateStep::Found(candidate_path(dir))
    } else {
        match parent_dir(dir) {
            Some(par) => LocateStep::Ascend(par),
            None => LocateStep::Exhausted,
        }
    }
}

/// A parent is strictly shorter than its path, so the upward walk that
/// replaces a directory by its parent terminates.
pub proof fn lemma_parent_shorter(s: Seq<char>)
    ensures
        parent_of(s) matches Some(p) ==> p.len() < s.len(),
{
    lemma_last_slash_bounds(s);
}

proof fn lemma_last_slash_bounds(s: Seq<char>)
    ensures
        -1 <= last_slash_at(s) < s.len(),
    decreases s.len(),
{
    if s.len() > 0 && s[s.len() - 1] != '/' {
        lemma_last_slash_bounds(s.drop_last());
    }
}

} // verus!
