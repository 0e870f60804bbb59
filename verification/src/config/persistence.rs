//! Whether, where and how often the list is written out.

use vstd::prelude::*;
use vstd::string::*;

verus! {

/// Whether, where and how often the list is written out.
#[derive(Debug, Clone, PartialEq, Eq)]
pub struct PersistenceConfig {
    pub enable: bool,
    /// The file the list is kept in.
    pub path: Option<String>,
    pub interval_milliseconds: u64,
}

fn default_enable() -> (b: bool)
    ensures
        b,
{
    true
}

fn default_interval() -> (millis: u64)
    ensures
        millis == 3000,
{
    3000
}

/// The name of the file in which the list of the working directory `path`
/// is kept: on Windows the path in quotes, elsewhere the path with `_` for
/// each `/`.
pub open spec fn spec_escaped_path(path: Seq<char>, windows: bool) -> Seq<char> {
    if windows {
        seq!['"'] + path + seq!['"']
    } else {
        Seq::new(path.len(), |i: int| if path[i] == '/' {
            '_'
        } else {
            path[i]
        })
    }
}

/// The name of the file in which the list of the working directory `path`
/// is kept: the path in quotes on Windows, with `_` for each `/` elsewhere.
pub fn escaped_path(path: &str, windows: bool) -> (name: String)
    ensures
        name@ == spec_escaped_path(path@, windows),
{
    if windows {
        proof {
            reveal_strlit("\"");
        }
        String::from_str("\"").concat(path).concat("\"")
    } else {
        let n = path.unicode_len();
        let mut name = String::new();
        let mut i: usize = 0;
        while i < n
            invariant
                i <= n,
                n == path@.len(),
                name@ == spec_escaped_path(path@.subrange(0, i as int), false),
            decreases n - i,
        {
            if path.get_char(i) == '/' {
                proof {
                    reveal_strlit("_");
                }
                name.append("_");
            } else {
                name.append(path.substring_char(i, i + 1));
            }
            i += 1;
        }
        name
    }
}

impl PersistenceConfig {
    /// Whether the default place to keep the list is needed: the list is to
    /// be kept and the user has named no place.
    pub fn needs_default_path(enable: Option<bool>, path_given: bool) -> (b: bool)
        ensures
            b == (enable != Some(false) && !path_given),
    {
        let enable = match enable {
            Some(e) => e,
            None => default_enable(),
        };
        enable && !path_given
    }

    /// The configuration made of what the user has set, with the default for
    /// what is not set; `default_path` is the default place, if it could be
    /// had. There is none where the list is to be kept and no place for it
    /// is known.
    pub fn resolve(
        enable: Option<bool>,
        path: Option<String>,
        interval_milliseconds: Option<u64>,
        default_path: Option<String>,
    ) -> (r: Option<Self>)
        ensures
            r is Some == !(enable != Some(false) && path is None && default_path is None),
            r matches Some(conf) ==> {
                &&& conf.enable == (enable != Some(false))
                &&& conf.path == if conf.enable && path is None {
                    default_path
                } else {
                    path
                }
                &&& conf.interval_milliseconds == match interval_milliseconds {
                    Some(i) => i,
                    None => 3000,
                }
            },
    {
        let enable = match enable {
            Some(e) => e,
            None => default_enable(),
        };
        let path = if enable {
            match path {
                Some(p) => Some(p),
                None => match default_path {
                    Some(p) => Some(p),
                    None => return None,
                },
            }
        } else {
            path
        };
        let interval_milliseconds = match interval_milliseconds {
            Some(i) => i,
            None => default_interval(),
        };
        Some(Self { enable, path, interval_milliseconds })
    }
}

} // verus!
