//! History path resolution: derive the path of the command-history file from
//! the value of the user's home-directory environment variable.
//!
//! The resolver takes the variable's value as a parameter instead of reading
//! the process environment itself: the caller supplies a snapshot, which
//! keeps the computation pure and deterministic. Resolution fails exactly
//! when the variable is absent; it never checks that the resulting path
//! exists or is writable.

use vstd::prelude::*;

verus! {

/// The history file path derived from home directory `home`: the home value,
/// a path separator, and the fixed file name `.nebula_history`.
pub open spec fn history_path(home: Seq<char>) -> Seq<char> {
    home + "/.nebula_history"@
}

/// The diagnostic reported when the home-directory variable is absent.
pub open spec fn missing_home_message() -> Seq<char> {
    "HOME environment variable not set"@
}

/// Resolve the command-history file path from the value of the `HOME`
/// environment variable, `None` standing for an unset variable.
///
/// Returns the home value joined with the fixed file name when the variable
/// is set, and fails with a message naming the variable exactly when it is
/// not. This is the only fallible operation of the crate.
pub fn _get_command_history_linux(home: Option<String>) -> (r: Result<String, String>)
    ensures
        home matches Some(h) ==> (r matches Ok(p) && p@ == history_path(h@)),
        home is None ==> (r matches Err(m) && m@ == missing_home_message()),
{
    match home {
        Some(home_dir) => {
            let mut path = home_dir;
            path.append("/.nebula_history");
            Ok(path)
        },
        None => Err(String::from_str("HOME environment variable not set")),
    }
}

/// What resolution yields on a given environment snapshot, as a single
/// value: the resolved path, or the diagnostic for an unset variable.
pub open spec fn resolved_path(home: Option<Seq<char>>) -> Result<Seq<char>, Seq<char>> {
    match home {
        Some(h) => Ok(history_path(h)),
        None => Err(missing_home_message()),
    }
}

/// Resolution is deterministic: two results both obtained from the same
/// environment snapshot agree, on the success path and on the failure path
/// alike, since the contract of `_get_command_history_linux` pins each to a
/// function of the snapshot alone. There is no hidden state.
pub proof fn lemma_resolution_deterministic(
    home: Option<Seq<char>>,
    r1: Result<Seq<char>, Seq<char>>,
    r2: Result<Seq<char>, Seq<char>>,
)
    requires
        r1 == resolved_path(home),
        r2 == resolved_path(home),
    ensures
        r1 == r2,
{
}

} // verus!
