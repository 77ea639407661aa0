//! Expansion of a leading `~` in a path typed by the user.
//!
//! Paths are handled as text with `/` as the separator.

use crate::error::RemoteError;
use vstd::prelude::*;
use vstd::string::StrSliceExecFns;
use vstd::string::StringExecFns;

verus! {

/// The path names the home directory or something below it: it is `~`
/// alone, or starts with `~/`.
pub open spec fn is_tilde_path(path: Seq<char>) -> bool {
    &&& path.len() >= 1
    &&& path[0] == '~'
    &&& (path.len() == 1 || path[1] == '/')
}

/// The text without the slashes it starts with.
pub open spec fn strip_slashes(text: Seq<char>) -> Seq<char>
    decreases text.len(),
{
    if text.len() > 0 && text[0] == '/' {
        strip_slashes(text.skip(1))
    } else {
        text
    }
}

/// The relative path `rest` below the directory `base`: the two joined by
/// one separator, which is left out where `base` already ends in one or is
/// empty.
pub open spec fn joined(base: Seq<char>, rest: Seq<char>) -> Seq<char> {
    if base.len() == 0 || base.last() == '/' {
        base + rest
    } else {
        base + seq!['/'] + rest
    }
}

/// What a path expands to, given the home directory if one is known.
///
/// A path that is not a tilde path stays as it is. A tilde path needs the
/// home directory: `~` (with or without slashes behind it) is the home
/// directory itself, and `~/rest` is `rest` below it. Where the home
/// directory is the root `/`, `~/rest` is the relative path `rest`.
pub open spec fn expanded(path: Seq<char>, home: Option<Seq<char>>) -> Option<Seq<char>> {
    if !is_tilde_path(path) {
        Some(path)
    } else {
        let rest = strip_slashes(path.skip(1));
        match home {
            None => None,
            Some(base) => if rest.len() == 0 {
                Some(base)
            } else if base == seq!['/'] {
                Some(rest)
            } else {
                Some(joined(base, rest))
            },
        }
    }
}

/// The text of an optional string.
pub open spec fn text_of(value: Option<String>) -> Option<Seq<char>> {
    match value {
        Some(text) => Some(text@),
        None => None,
    }
}

/// Whether the path is a tilde path.
pub fn starts_with_tilde(path: &str) -> (result: bool)
    ensures
        result == is_tilde_path(path@),
{
    let len = path.unicode_len();
    if len == 0 {
        false
    } else if path.get_char(0) != '~' {
        false
    } else {
        len == 1 || path.get_char(1) == '/'
    }
}

proof fn strip_slashes_step(text: Seq<char>, k: int)
    requires
        0 <= k < text.len(),
        text[k] == '/',
    ensures
        strip_slashes(text.skip(k)) == strip_slashes(text.skip(k + 1)),
{
    assert(text.skip(k).skip(1) == text.skip(k + 1));
}

/// Expands a leading `~` against the given home directory.
pub fn expand_tilde_in(path: &str, home: Option<String>) -> (result: Option<String>)
    ensures
        text_of(result) == expanded(path@, text_of(home)),
{
    if !starts_with_tilde(path) {
        return Some(path.to_owned());
    }
    let base = match home {
        Some(base) => base,
        None => {
            return None;
        },
    };
    let len = path.unicode_len();
    let mut k: usize = 1;
    while k < len && path.get_char(k) == '/'
        invariant
            1 <= k <= len,
            len == path@.len(),
            strip_slashes(path@.skip(1)) == strip_slashes(path@.skip(k as int)),
        decreases len - k,
    {
        proof {
            strip_slashes_step(path@, k as int);
        }
        k += 1;
    }
    let rest = path.substring_char(k, len);
    let base_len = base.as_str().unicode_len();
    if k == len {
        Some(base)
    } else if base_len == 1 && base.as_str().get_char(0) == '/' {
        proof {
            assert(base@ == seq!['/']);
        }
        Some(rest.to_owned())
    } else {
        Some(join_path(base, rest))
    }
}

/// Appends the relative path `rest` to the directory `base`, as `joined`
/// says.
pub fn join_path(base: String, rest: &str) -> (path: String)
    ensures
        path@ == joined(base@, rest@),
{
    proof {
        reveal_strlit("/");
    }
    let base_len = base.as_str().unicode_len();
    let mut path = base;
    if base_len > 0 && path.as_str().get_char(base_len - 1) != '/' {
        path.append("/");
    }
    path.append(rest);
    path
}

/// Calls `dirs::home_dir` and hands the directory back as text, or `None`
/// where the crate finds none or its name is not valid UTF-8. Nothing is
/// claimed of the result: it depends on the environment of the process.
#[verifier::external_body]
pub(crate) fn home_directory() -> (home: Option<String>) {
    match dirs::home_dir() {
        Some(dir) => dir.into_os_string().into_string().ok(),
        None => None,
    }
}

/// Expands a leading `~` against the home directory of the current user.
///
/// A path that is not a tilde path is returned as it is, whatever the
/// environment. A tilde path expands as `expanded` says for the home
/// directory found, and to `None` where none is found.
pub fn expand_tilde(path: &str) -> (result: Option<String>)
    ensures
        !is_tilde_path(path@) ==> text_of(result) == Some(path@),
        exists|home: Option<Seq<char>>| text_of(result) == expanded(path@, home),
{
    let home = if starts_with_tilde(path) {
        home_directory()
    } else {
        None
    };
    expand_tilde_in(path, home)
}

/// The directory of the profile store below a home directory.
pub open spec fn config_dir(home: Seq<char>) -> Seq<char> {
    joined(home, ".config/remote"@)
}

/// The file of the profile store below a home directory.
pub open spec fn config_file(home: Seq<char>) -> Seq<char> {
    joined(config_dir(home), "profiles.yaml"@)
}

/// Where the profile store lives below the given home directory: the
/// directory that has to exist, and the file in it.
pub fn config_path_in(home: String) -> (place: (String, String))
    ensures
        place.0@ == config_dir(home@),
        place.1@ == config_file(home@),
{
    let dir = join_path(home, ".config/remote");
    let file = join_path(dir.clone(), "profiles.yaml");
    (dir, file)
}

/// Where the profile store of the current user lives: directory and file
/// are those of `config_dir` and `config_file` for the home directory
/// found. Where none is found the result is a `FileSystemError` that says
/// so.
pub fn get_config_path() -> (place: Result<(String, String), RemoteError>)
    ensures
        place matches Ok(found) ==> exists|home: Seq<char>|
            found.0@ == #[trigger] config_dir(home) && found.1@ == config_file(home),
        place matches Err(error) ==> (error matches RemoteError::FileSystemError { message }
            && message@ == "Could not find home directory"@),
{
    match home_directory() {
        Some(home) => {
            Ok(config_path_in(home))
        },
        None => Err(
            RemoteError::FileSystemError {
                message: String::from_str("Could not find home directory"),
            },
        ),
    }
}

/// A path that does not start with `~` or `~/` expands to itself, with or
/// without a home directory.
pub proof fn lemma_plain_path_unchanged(path: Seq<char>, home: Option<Seq<char>>)
    requires
        !is_tilde_path(path),
    ensures
        expanded(path, home) == Some(path),
{
}

/// A bare `~` expands to the home directory itself.
pub proof fn lemma_bare_tilde_is_home(home: Seq<char>)
    ensures
        expanded(seq!['~'], Some(home)) == Some(home),
{
}

/// Without a home directory no tilde path expands.
pub proof fn lemma_tilde_needs_home(path: Seq<char>)
    requires
        is_tilde_path(path),
    ensures
        expanded(path, None) is None,
{
}

/// `~/rest` expands to `rest` below the home directory, joined by one
/// slash, where `rest` is not empty and starts with no slash and the home
/// directory is not empty and ends in none.
pub proof fn lemma_tilde_below_home(rest: Seq<char>, home: Seq<char>)
    requires
        rest.len() > 0,
        rest[0] != '/',
        home.len() > 0,
        home.last() != '/',
    ensures
        expanded(seq!['~', '/'] + rest, Some(home)) == Some(home + seq!['/'] + rest),
{
    let path = seq!['~', '/'] + rest;
    assert(path.skip(1).skip(1) =~= rest);
    assert(strip_slashes(rest) == rest);
}

} // verus!
