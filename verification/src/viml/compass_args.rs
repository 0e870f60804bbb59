//! A user command taken apart: the command, its subcommands and its
//! arguments of the form `key=value`.

use crate::common_types::text::str_eq;
use crate::error::{Error, InputError, VimlError};
use vstd::prelude::*;
use vstd::string::*;

verus! {

/// The index of the first `=` in `w` at or after `from`, or the length of `w`
/// where there is none.
pub open spec fn spec_eq_idx_from(w: Seq<char>, from: int) -> int
    decreases w.len() - from,
{
    if from < 0 || from >= w.len() || w[from] == '=' {
        from
    } else {
        spec_eq_idx_from(w, from + 1)
    }
}

/// The index of the first `=` in `w`, or the length of `w` where it has none.
pub open spec fn spec_eq_idx(w: Seq<char>) -> int {
    spec_eq_idx_from(w, 0)
}

/// Whether the word is an argument: it has a `=` in it.
pub open spec fn spec_is_arg(w: Seq<char>) -> bool {
    spec_eq_idx(w) < w.len()
}

/// An argument cut at its first `=`: what stands before it and what stands
/// behind it.
pub open spec fn spec_pair(w: Seq<char>) -> (Seq<char>, Seq<char>) {
    (w.subrange(0, spec_eq_idx(w)), w.subrange(spec_eq_idx(w) + 1, w.len() as int))
}

/// The index of the first argument among the words from `from` on, or the
/// number of words where there is none.
pub open spec fn spec_first_arg(words: Seq<&str>, from: int) -> int
    decreases words.len() - from,
{
    if from < 0 || from >= words.len() || spec_is_arg(words[from]@) {
        from
    } else {
        spec_first_arg(words, from + 1)
    }
}

/// Whether the words are a command: there is a first word, and behind the
/// first word with a `=` all words have one.
pub open spec fn spec_parses(words: Seq<&str>) -> bool {
    words.len() > 0 && forall|k: int|
        spec_first_arg(words, 1) <= k < words.len() ==> spec_is_arg((#[trigger] words[k])@)
}

/// The first subcommand among the words of a command, if there is one.
pub open spec fn spec_first_sub_of(words: Seq<&str>) -> Option<Seq<char>> {
    if spec_first_arg(words, 1) > 1 {
        Some(words[1]@)
    } else {
        None
    }
}

/// The value of `key` among the first `n` pairs: that of the last pair with
/// that key.
pub open spec fn spec_lookup(pairs: Seq<(&str, &str)>, key: Seq<char>, n: int) -> Option<
    Seq<char>,
>
    decreases n,
{
    if n <= 0 {
        None
    } else if pairs[n - 1].0@ == key {
        Some(pairs[n - 1].1@)
    } else {
        spec_lookup(pairs, key, n - 1)
    }
}

/// How a list of words is shown to the user.
pub uninterp spec fn spec_debug_words(words: Seq<Seq<char>>) -> Seq<char>;

/// The words as sequences of characters.
pub open spec fn spec_words(words: Seq<&str>) -> Seq<Seq<char>> {
    Seq::new(words.len(), |i: int| words[i]@)
}

/// `format!` with `{:?}` on a list of words: the list as `Debug` shows it,
/// which depends on the words alone.
#[verifier::external_body]
fn debug_words(words: &Vec<&str>) -> (s: String)
    ensures
        s@ == spec_debug_words(spec_words(words@)),
{
    format!("{:?}", words)
}

/// The index of the first `=` in `s`, counted in characters, or the length of
/// `s` where it has none.
fn eq_idx(s: &str, n: usize) -> (i: usize)
    requires
        n == s@.len(),
    ensures
        i == spec_eq_idx(s@),
        i <= n,
{
    let mut i: usize = 0;
    while i < n
        invariant
            i <= n,
            n == s@.len(),
            spec_eq_idx(s@) == spec_eq_idx_from(s@, i as int),
        decreases n - i,
    {
        if s.get_char(i) == '=' {
            return i;
        }
        i += 1;
    }
    i
}

fn is_arg(s: &str) -> (b: bool)
    ensures
        b == spec_is_arg(s@),
{
    let n = s.unicode_len();
    eq_idx(s, n) < n
}

/// A user command taken apart.
#[derive(Debug, Clone, PartialEq, Eq)]
pub struct CompassArgs<'a> {
    pub main_cmd: &'a str,
    pub sub_cmds: Vec<&'a str>,
    /// The arguments as pairs of key and value, in the order given. Of two
    /// arguments with one key the later one counts.
    pub map_args: Vec<(&'a str, &'a str)>,
}

impl<'a> CompassArgs<'a> {
    /// Takes the words of a command apart: the first is the command, those
    /// behind it up to the first with a `=` are subcommands, and all from
    /// there on must be arguments `key=value`, cut at their first `=`.
    pub fn try_from(value: Vec<&'a str>) -> (r: Result<Self, Error>)
        ensures
            r is Ok == spec_parses(value@),
            match r {
                Ok(args) => {
                    let first_arg = spec_first_arg(value@, 1);
                    &&& args.main_cmd == value@[0]
                    &&& args.sub_cmds@ == value@.subrange(1, first_arg)
                    &&& args.spec_first_sub_cmd() == spec_first_sub_of(value@)
                    &&& args.map_args@.len() == value@.len() - first_arg
                    &&& forall|k: int|
                        0 <= k < args.map_args@.len() ==> ((#[trigger] args.map_args@[k]).0@, args.map_args@[k].1@)
                            == spec_pair(value@[first_arg + k]@)
                },
                Err(Error::Input(InputError::Viml(VimlError::InvalidCommand(m)))) => m@ == (
                if value@.len() == 0 {
                    "no main command specified in: "@
                } else {
                    "nothing found after = sign in: "@
                }) + spec_debug_words(spec_words(value@)),
                Err(_) => false,
            },
    {
        let n = value.len();
        if n == 0 {
            let shown = debug_words(&value);
            return Err(
                Error::Input(
                    InputError::Viml(
                        VimlError::InvalidCommand(
                            String::from_str("no main command specified in: ").concat(
                                shown.as_str(),
                            ),
                        ),
                    ),
                ),
            );
        }
        let main_cmd = value[0];
        let mut sub_cmds: Vec<&'a str> = Vec::new();
        let mut i: usize = 1;
        while i < n && !is_arg(value[i])
            invariant
                1 <= i <= n,
                n == value@.len(),
                spec_first_arg(value@, 1) == spec_first_arg(value@, i as int),
                sub_cmds@ == value@.subrange(1, i as int),
            decreases n - i,
        {
            sub_cmds.push(value[i]);
            i += 1;
        }
        let first_arg = i;
        let mut map_args: Vec<(&'a str, &'a str)> = Vec::new();
        while i < n
            invariant
                1 <= first_arg <= i <= n,
                n == value@.len(),
                first_arg == spec_first_arg(value@, 1),
                forall|k: int| first_arg <= k < i ==> spec_is_arg((#[trigger] value@[k])@),
                map_args@.len() == i - first_arg,
                forall|k: int|
                    0 <= k < map_args@.len() ==> ((#[trigger] map_args@[k]).0@, map_args@[k].1@)
                        == spec_pair(value@[first_arg + k]@),
            decreases n - i,
        {
            let w = value[i];
            let len = w.unicode_len();
            let at = eq_idx(w, len);
            if at >= len {
                let shown = debug_words(&value);
                return Err(
                    Error::Input(
                        InputError::Viml(
                            VimlError::InvalidCommand(
                                String::from_str("nothing found after = sign in: ").concat(
                                    shown.as_str(),
                                ),
                            ),
                        ),
                    ),
                );
            }
            let key = w.substring_char(0, at);
            let val = w.substring_char(at + 1, len);
            map_args.push((key, val));
            i += 1;
        }
        Ok(Self { main_cmd, sub_cmds, map_args })
    }

    /// The value of the argument `key`, if it was given.
    pub open spec fn spec_get(self, key: Seq<char>) -> Option<Seq<char>> {
        spec_lookup(self.map_args@, key, self.map_args@.len() as int)
    }

    /// The first subcommand, if there is one.
    pub open spec fn spec_first_sub_cmd(self) -> Option<Seq<char>> {
        if self.sub_cmds@.len() > 0 {
            Some(self.sub_cmds@[0]@)
        } else {
            None
        }
    }

    /// The value of the argument `key`, if it was given: that of the last
    /// argument with that key.
    pub fn get(&self, key: &str) -> (r: Option<&'a str>)
        ensures
            r is Some == self.spec_get(key@) is Some,
            r matches Some(v) ==> Some(v@) == self.spec_get(key@),
    {
        let mut i: usize = self.map_args.len();
        while i > 0
            invariant
                i <= self.map_args@.len(),
                spec_lookup(self.map_args@, key@, self.map_args@.len() as int) == spec_lookup(
                    self.map_args@,
                    key@,
                    i as int,
                ),
            decreases i,
        {
            i -= 1;
            if str_eq(self.map_args[i].0, key) {
                return Some(self.map_args[i].1);
            }
        }
        None
    }

    /// The first subcommand, if there is one.
    pub fn first_sub_cmd(&self) -> (r: Option<&'a str>)
        ensures
            r == if self.sub_cmds@.len() > 0 {
                Some(self.sub_cmds@[0])
            } else {
                None
            },
    {
        if self.sub_cmds.len() > 0 {
            Some(self.sub_cmds[0])
        } else {
            None
        }
    }
}

} // verus!
