//! Where the standard per-user base directories lie: the XDG variable when it
//! is set, and otherwise the platform's conventional place.
//!
//! Reading the environment and the home directory belongs to the program; the
//! choice among what was read is made here.
use vstd::prelude::*;

verus! {

/// How the base directories are laid out on macOS.
#[derive(Debug, Clone, Copy, Hash, PartialEq, Eq, Structural)]
pub enum MacOSBehaviour {
    /// Under `~/Library`.
    UseLibrary,
    /// As on Linux, under `~/.config` and the like.
    LinuxFallback,
}

/// One of the base directories.
#[derive(Debug, Clone, Copy, Hash, PartialEq, Eq, Structural)]
pub enum BaseDir {
    /// `XDG_CONFIG_HOME`.
    Config,
    /// `XDG_DATA_HOME`.
    Data,
    /// `XDG_CACHE_HOME`.
    Cache,
    /// `XDG_STATE_HOME`.
    State,
}

/// The platform families whose conventions differ.
#[derive(Debug, Clone, Copy, Hash, PartialEq, Eq, Structural)]
pub enum Platform {
    Windows,
    MacOs,
    Other,
}

/// The path components of `dir` when its XDG variable is not set: under
/// `%LOCALAPPDATA%` on Windows, under the home directory elsewhere.
pub open spec fn fallback_path(
    dir: BaseDir,
    platform: Platform,
    behaviour: MacOSBehaviour,
    local_app_data: Option<Seq<char>>,
    home: Option<Seq<char>>,
) -> Option<Seq<Seq<char>>> {
    if platform == Platform::Windows {
        match local_app_data {
            Some(root) => Some(
                if dir == BaseDir::Cache {
                    seq![root, "caches"@]
                } else {
                    seq![root]
                },
            ),
            None => None,
        }
    } else {
        match home {
            Some(root) => Some(
                if platform == Platform::MacOs && behaviour == MacOSBehaviour::UseLibrary {
                    match dir {
                        BaseDir::Cache => seq![root, "Library"@, "Caches"@],
                        _ => seq![root, "Library"@, "Application Support"@],
                    }
                } else {
                    match dir {
                        BaseDir::Config => seq![root, ".config"@],
                        BaseDir::Cache => seq![root, ".cache"@],
                        BaseDir::Data => seq![root, ".local"@, ".share"@],
                        BaseDir::State => seq![root, ".local"@, ".state"@],
                    }
                },
            ),
            None => None,
        }
    }
}

/// The path components of `dir`: the value of its XDG variable when that is
/// set, its fallback otherwise.
pub open spec fn base_dir_path(
    dir: BaseDir,
    platform: Platform,
    behaviour: MacOSBehaviour,
    variable: Option<Seq<char>>,
    local_app_data: Option<Seq<char>>,
    home: Option<Seq<char>>,
) -> Option<Seq<Seq<char>>> {
    match variable {
        Some(value) => Some(seq![value]),
        None => fallback_path(dir, platform, behaviour, local_app_data, home),
    }
}

/// The characters of each string.
pub open spec fn text_of(parts: Seq<String>) -> Seq<Seq<char>> {
    parts.map_values(|part: String| part@)
}

/// The characters of a string that may be absent.
pub open spec fn opt_text(s: Option<String>) -> Option<Seq<char>> {
    match s {
        Some(v) => Some(v@),
        None => None,
    }
}

/// A path of the given components, first the root.
fn components(root: String, rest: &[&str]) -> (r: Vec<String>)
    ensures
        text_of(r@) == seq![root@] + rest@.map_values(|part: &str| part@),
{
    let mut r: Vec<String> = Vec::new();
    r.push(root);
    let mut i: usize = 0;
    while i < rest.len()
        invariant
            0 <= i <= rest@.len(),
            text_of(r@) == seq![root@] + rest@.subrange(0, i as int).map_values(|part: &str| part@),
        decreases rest@.len() - i,
    {
        let part = rest[i].to_owned();
        let ghost before = r@;
        r.push(part);
        proof {
            assert(rest@.subrange(0, i + 1) == rest@.subrange(0, i as int).push(rest@[i as int]));
            assert(text_of(r@) =~= text_of(before).push(part@));
        }
        i = i + 1;
    }
    proof {
        assert(rest@.subrange(0, rest@.len() as int) == rest@);
    }
    r
}

/// The path components where `dir` lies, given the value of its XDG
/// variable, that of `LOCALAPPDATA` and the home directory, each where it is
/// set and valid text; `None` where the one needed is missing.
pub fn resolve(
    dir: BaseDir,
    platform: Platform,
    behaviour: MacOSBehaviour,
    variable: Option<String>,
    local_app_data: Option<String>,
    home: Option<String>,
) -> (r: Option<Vec<String>>)
    ensures
        match r {
            Some(parts) => base_dir_path(
                dir,
                platform,
                behaviour,
                opt_text(variable),
                opt_text(local_app_data),
                opt_text(home),
            ) == Some(text_of(parts@)),
            None => base_dir_path(
                dir,
                platform,
                behaviour,
                opt_text(variable),
                opt_text(local_app_data),
                opt_text(home),
            ) == None::<Seq<Seq<char>>>,
        },
{
    if let Some(value) = variable {
        let r = components(value, &[]);
        assert(text_of(r@) =~= seq![value@]);
        return Some(r);
    }
    if platform == Platform::Windows {
        match local_app_data {
            Some(root) => {
                let r = if dir == BaseDir::Cache {
                    components(root, &["caches"])
                } else {
                    components(root, &[])
                };
                proof {
                    assert(text_of(r@) =~= fallback_path(dir, platform, behaviour, Some(root@), opt_text(home)).unwrap());
                }
                Some(r)
            },
            None => None,
        }
    } else {
        match home {
            Some(root) => {
                let r = if platform == Platform::MacOs && behaviour == MacOSBehaviour::UseLibrary {
                    match dir {
                        BaseDir::Cache => components(root, &["Library", "Caches"]),
                        _ => components(root, &["Library", "Application Support"]),
                    }
                } else {
                    match dir {
                        BaseDir::Config => components(root, &[".config"]),
                        BaseDir::Cache => components(root, &[".cache"]),
                        BaseDir::Data => components(root, &[".local", ".share"]),
                        BaseDir::State => components(root, &[".local", ".state"]),
                    }
                };
                proof {
                    assert(text_of(r@) =~= fallback_path(dir, platform, behaviour, opt_text(local_app_data), Some(root@)).unwrap());
                }
                Some(r)
            },
            None => None,
        }
    }
}

} // verus!
