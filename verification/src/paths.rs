//! A plain-string model of file-system paths.
//!
//! Paths are UTF-8 strings, components are separated by `/`, and a path is
//! absolute exactly when it starts with `/`. Joining follows the platform
//! rule: joining an absolute right-hand side replaces the base, and a
//! separator is inserted only when the base does not already end in one.
//! No normalization (of `.`, `..` or repeated separators) is performed.

use vstd::prelude::*;
use vstd::string::*;

verus! {

/// A path is absolute when it starts with the root separator.
pub open spec fn is_absolute_path(s: Seq<char>) -> bool {
    s.len() > 0 && s[0] == '/'
}

/// What joining `rel` onto `base` yields: `rel` itself when `rel` is
/// absolute, otherwise the concatenation with exactly one separator between.
pub open spec fn spec_join(base: Seq<char>, rel: Seq<char>) -> Seq<char> {
    if is_absolute_path(rel) {
        rel
    } else if base.len() > 0 && base[base.len() - 1] == '/' {
        base + rel
    } else {
        base + "/"@ + rel
    }
}

/// A relative path is anchored under `cwd`; an absolute one stands as it is.
pub open spec fn spec_absolutize(p: Seq<char>, cwd: Seq<char>) -> Seq<char> {
    if is_absolute_path(p) {
        p
    } else {
        spec_join(cwd, p)
    }
}

/// The prefix of `s` before its last separator: the parent directory of a
/// path whose final component holds no separator. Empty when `s` holds no
/// separator at all.
pub open spec fn parent_of(s: Seq<char>) -> Seq<char>
    decreases s.len(),
{
    if s.len() == 0 {
        s
    } else if s[s.len() - 1] == '/' {
        s.subrange(0, s.len() - 1)
    } else {
        parent_of(s.subrange(0, s.len() - 1))
    }
}

/// Whether `s` starts with the root separator.
pub fn path_is_absolute(s: &str) -> (b: bool)
    ensures
        b == is_absolute_path(s@),
{
    let n = s.unicode_len();
    if n == 0 {
        false
    } else {
        s.get_char(0) == '/'
    }
}

/// Whether `s` ends with the separator.
fn ends_with_separator(s: &str) -> (b: bool)
    ensures
        b == (s@.len() > 0 && s@[s@.len() - 1] == '/'),
{
    let n = s.unicode_len();
    if n == 0 {
        false
    } else {
        s.get_char(n - 1) == '/'
    }
}

/// Joins `rel` onto `base` as [`spec_join`] says.
pub fn join_path(base: &str, rel: &str) -> (r: String)
    ensures
        r@ == spec_join(base@, rel@),
{
    if path_is_absolute(rel) {
        rel.to_owned()
    } else {
        let mut out = String::from_str(base);
        if !ends_with_separator(base) {
            out.append("/");
        }
        out.append(rel);
        out
    }
}

/// Anchors `p` under `cwd` when `p` is relative, as [`spec_absolutize`] says.
pub fn absolutize_path(p: &str, cwd: &str) -> (r: String)
    ensures
        r@ == spec_absolutize(p@, cwd@),
{
    if path_is_absolute(p) {
        p.to_owned()
    } else {
        join_path(cwd, p)
    }
}

/// Peeling a separator-free final component off `dir + "/" + name` lands
/// back on `dir`: the parent of such a path is the directory it was built
/// from.
pub proof fn lemma_parent_of_join(dir: Seq<char>, name: Seq<char>)
    requires
        forall|i: int| 0 <= i < name.len() ==> name[i] != '/',
    ensures
        parent_of(dir + "/"@ + name) == dir,
    decreases name.len(),
{
    reveal_strlit("/");
    let s = dir + "/"@ + name;
    if name.len() == 0 {
        assert(s[s.len() - 1] == '/');
        assert(parent_of(s) == s.subrange(0, s.len() - 1));
        assert(s.subrange(0, s.len() - 1) =~= dir);
    } else {
        assert(s[s.len() - 1] == name[name.len() - 1]);
        assert(s[s.len() - 1] != '/');
        assert(parent_of(s) == parent_of(s.subrange(0, s.len() - 1)));
        assert(s.subrange(0, s.len() - 1) =~= dir + "/"@ + name.subrange(
            0,
            name.len() - 1,
        ));
        lemma_parent_of_join(dir, name.subrange(0, name.len() - 1));
    }
}

} // verus!
