//! Lexical path rules, on strings, following the POSIX conventions: `/` is
//! the separator and a path is absolute when it begins with one.

use vstd::prelude::*;
use vstd::string::*;

verus! {

/// The character that introduces a command-line flag.
pub const FLAG_PREFIX: char = '-';

/// The path separator.
pub const SEPARATOR: char = '/';

/// A token is a flag when it begins with the flag prefix.
pub open spec fn is_flag_spec(token: Seq<char>) -> bool {
    token.len() > 0 && token[0] == FLAG_PREFIX
}

/// A path is absolute when it begins with the separator.
pub open spec fn is_absolute_spec(path: Seq<char>) -> bool {
    path.len() > 0 && path[0] == SEPARATOR
}

/// The lexical join of `base` and `path`: an absolute `path` replaces
/// `base`; a relative one is appended to it, after a separator unless `base`
/// is empty or already ends in one. Nothing is normalised.
pub open spec fn join_spec(base: Seq<char>, path: Seq<char>) -> Seq<char> {
    if is_absolute_spec(path) {
        path
    } else if base.len() == 0 || base.last() == SEPARATOR {
        base + path
    } else {
        base + seq![SEPARATOR] + path
    }
}

/// Whether `token` is a flag rather than a path.
pub fn is_flag(token: &str) -> (flag: bool)
    ensures
        flag == is_flag_spec(token@),
{
    !token.is_empty() && token.get_char(0) == FLAG_PREFIX
}

/// Whether `path` is absolute.
pub fn is_absolute(path: &str) -> (absolute: bool)
    ensures
        absolute == is_absolute_spec(path@),
{
    !path.is_empty() && path.get_char(0) == SEPARATOR
}

/// Joins `path` onto `base` without consulting the filesystem.
pub fn join(base: &str, path: &str) -> (joined: String)
    ensures
        joined@ == join_spec(base@, path@),
{
    if is_absolute(path) {
        return path.to_owned();
    }
    let mut joined = base.to_owned();
    let n: usize = base.unicode_len();
    if n > 0 && base.get_char(n - 1) != SEPARATOR {
        proof {
            reveal_strlit("/");
        }
        joined.append("/");
        assert(joined@ =~= base@ + seq![SEPARATOR]);
    }
    joined.append(path);
    joined
}

} // verus!
