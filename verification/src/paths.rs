//! Where files live: below the XDG base directories. A path is the sequence of
//! its bytes.

use vstd::prelude::*;

verus! {

/// What the environment says about the user's directories.
pub struct Environment {
    /// `XDG_CONFIG_HOME`, where it is set to Unicode text.
    pub xdg_config_home: Option<Vec<u8>>,
    /// `XDG_STATE_HOME`, where it is set to Unicode text.
    pub xdg_state_home: Option<Vec<u8>>,
    /// `HOME`, where it is set.
    pub home: Option<Vec<u8>>,
}

/// The byte that separates the components of a path.
pub open spec fn separator() -> u8 {
    47
}

/// The path `part` seen from `base`.
pub open spec fn joined(base: Seq<u8>, part: Seq<u8>) -> Seq<u8> {
    if part.len() > 0 && part.first() == separator() {
        part
    } else if base.len() == 0 || base.last() == separator() {
        base + part
    } else {
        base.push(separator()) + part
    }
}

/// The path `part` seen from `base`.
pub fn join(base: &Vec<u8>, part: &str) -> (path: Vec<u8>)
    ensures
        path@ == joined(base@, vstd::utf8::encode_utf8(part@)),
{
    let part = part.as_bytes();
    let mut path: Vec<u8> = Vec::new();
    if part.len() > 0 && part[0] == 47 {
        path.extend_from_slice(part);
        return path;
    }
    path.extend_from_slice(base.as_slice());
    if base.len() > 0 && base[base.len() - 1] != 47 {
        path.push(47);
    }
    path.extend_from_slice(part);
    path
}

/// A directory that a variable names, or else a fallback below the home
/// directory. A variable that is empty names nothing.
pub open spec fn xdg_root(
    variable: Option<Vec<u8>>,
    home: Option<Vec<u8>>,
    fallback: Seq<char>,
) -> Option<Seq<u8>> {
    match (variable, home) {
        (Some(path), _) if path@.len() > 0 => Some(path@),
        (_, Some(home)) => Some(joined(home@, vstd::utf8::encode_utf8(fallback))),
        _ => None,
    }
}

/// The path was found, or the home directory is not known.
pub open spec fn found(path: Result<Vec<u8>, String>, expected: Option<Seq<u8>>) -> bool {
    match expected {
        Some(expected) => path matches Ok(path) && path@ == expected,
        None => path matches Err(error) && error@ == "could not resolve home directory"@,
    }
}

fn xdg_dir(variable: &Option<Vec<u8>>, home: &Option<Vec<u8>>, fallback: &str) -> (path: Result<
    Vec<u8>,
    String,
>)
    ensures
        found(path, xdg_root(*variable, *home, fallback@)),
{
    if let Some(path) = variable {
        if path.len() > 0 {
            let mut copy: Vec<u8> = Vec::new();
            copy.extend_from_slice(path.as_slice());
            assert(copy@ == path@);
            return Ok(copy);
        }
    }
    match home {
        Some(home) => Ok(join(home, fallback)),
        None => Err("could not resolve home directory".to_string()),
    }
}

/// The root of the user's configuration.
pub open spec fn config_root(env: Environment) -> Option<Seq<u8>> {
    xdg_root(env.xdg_config_home, env.home, ".config"@)
}

/// The root of the user's state.
pub open spec fn state_root(env: Environment) -> Option<Seq<u8>> {
    xdg_root(env.xdg_state_home, env.home, ".local/state"@)
}

/// The root of the user's configuration.
pub fn config_dir(env: &Environment) -> (path: Result<Vec<u8>, String>)
    ensures
        found(path, config_root(*env)),
{
    xdg_dir(&env.xdg_config_home, &env.home, ".config")
}

/// The root of the user's state.
pub fn state_dir(env: &Environment) -> (path: Result<Vec<u8>, String>)
    ensures
        found(path, state_root(*env)),
{
    xdg_dir(&env.xdg_state_home, &env.home, ".local/state")
}

/// Two components below a root, where there is a root.
pub open spec fn two_below(
    root: Option<Seq<u8>>,
    outer: Seq<char>,
    inner: Seq<char>,
) -> Option<Seq<u8>> {
    match root {
        Some(root) => Some(
            joined(
                joined(root, vstd::utf8::encode_utf8(outer)),
                vstd::utf8::encode_utf8(inner),
            ),
        ),
        None => None,
    }
}

/// Two components below a root, where there is a root.
pub(crate) fn below(root: Result<Vec<u8>, String>, outer: &str, inner: &str) -> (path: Result<
    Vec<u8>,
    String,
>)
    ensures
        match root {
            Ok(root) => path matches Ok(path) && path@ == two_below(
                Some(root@),
                outer@,
                inner@,
            )->0,
            Err(error) => path matches Err(same) && same@ == error@,
        },
{
    match root {
        Ok(root) => Ok(join(&join(&root, outer), inner)),
        Err(error) => Err(error),
    }
}

/// Joining puts a relative part behind the base with exactly one separator
/// between them, where the base is not empty, and lets an absolute part stand
/// by itself.
pub proof fn joining_separates_once(base: Seq<u8>, part: Seq<u8>)
    ensures
        part.len() > 0 && part[0] == 47 ==> joined(base, part) == part,
        !(part.len() > 0 && part[0] == 47) ==> {
            &&& base.len() == 0 ==> joined(base, part) == part
            &&& base.len() > 0 && base.last() == 47 ==> joined(base, part) == base + part
            &&& base.len() > 0 && base.last() != 47 ==> joined(base, part) == base + seq![47u8]
                + part
        },
{
    if base.len() == 0 {
        assert(base + part == part);
    }
    assert(base.push(47) == base + seq![47u8]);
}

/// A variable that is set and not empty names the root, whatever the home
/// directory is; else the root lies below the home directory, and without one
/// there is no root. Configuration and state have their own variables.
pub proof fn variables_come_before_home(env: Environment)
    ensures
        env.xdg_config_home matches Some(path) ==> path@.len() > 0 ==> config_root(env)
            == Some(path@),
        env.xdg_state_home matches Some(path) ==> path@.len() > 0 ==> state_root(env) == Some(
            path@,
        ),
        !(env.xdg_config_home matches Some(path) && path@.len() > 0) ==> match env.home {
            Some(home) => config_root(env) == Some(
                joined(home@, vstd::utf8::encode_utf8(".config"@)),
            ),
            None => config_root(env) is None,
        },
        !(env.xdg_state_home matches Some(path) && path@.len() > 0) ==> match env.home {
            Some(home) => state_root(env) == Some(
                joined(home@, vstd::utf8::encode_utf8(".local/state"@)),
            ),
            None => state_root(env) is None,
        },
{
}

} // verus!
