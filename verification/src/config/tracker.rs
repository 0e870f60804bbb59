//! When changes are tracked and which files are left alone.

use globset::GlobSet;
use vstd::prelude::*;
use vstd::string::*;

verus! {

/// A set of glob patterns, compiled for matching.
#[verifier::external_type_specification]
#[verifier::external_body]
pub struct ExGlobSet(GlobSet);

/// The patterns that a set was made of.
pub uninterp spec fn spec_glob_patterns(set: GlobSet) -> Seq<Seq<char>>;

/// `GlobSet::empty`: the set of no patterns.
#[verifier::external_body]
fn empty_glob_set() -> (set: GlobSet)
    ensures
        spec_glob_patterns(set) == Seq::<Seq<char>>::empty(),
{
    GlobSet::empty()
}

/// `Glob::new` on each pattern and `GlobSet::new` on the globs: the set of
/// the patterns, or `None` where one of them is no glob or the set cannot be
/// built. Of no patterns `GlobSet::new` always makes the empty set.
#[verifier::external_body]
fn glob_set_of(patterns: &Vec<String>) -> (r: Option<GlobSet>)
    ensures
        r matches Some(set) ==> spec_glob_patterns(set) == spec_pattern_texts(patterns@),
        patterns@.len() == 0 ==> r is Some,
{
    let globs: Option<Vec<globset::Glob>> = patterns.iter().map(
        |p| globset::Glob::new(p).ok(),
    ).collect();
    GlobSet::new(globs?).ok()
}

/// The patterns as sequences of characters.
pub open spec fn spec_pattern_texts(patterns: Seq<String>) -> Seq<Seq<char>> {
    Seq::new(patterns.len(), |i: int| patterns[i]@)
}

/// `GlobSet::is_match`: whether one of the patterns of the set matches
/// `path`. How a path is read depends on the system, so all that is claimed
/// is that a set of no patterns matches nothing.
#[verifier::external_body]
fn glob_set_is_match(set: &GlobSet, path: &str) -> (r: bool)
    ensures
        spec_glob_patterns(*set).len() == 0 ==> !r,
{
    set.is_match(path)
}

/// How long each of the background jobs waits between two runs, in
/// milliseconds.
#[derive(Debug, Clone, Copy, PartialEq, Eq, Structural)]
pub struct Debounce {
    pub run: u64,
    pub maintenance: u64,
    pub activate: u64,
}

/// When changes are tracked and which files are left alone.
#[derive(Debug)]
pub struct TrackerConfig {
    pub enable: bool,
    pub debounce_milliseconds: Debounce,
    /// Changes to files that match one of these are not tracked.
    pub ignored_patterns: GlobSet,
}

fn default_enable() -> (b: bool)
    ensures
        b,
{
    true
}

/// The set of the patterns, or the set of no patterns where they cannot be
/// made a set.
fn glob_set_or_empty(patterns: &Vec<String>) -> (set: GlobSet)
    ensures
        spec_glob_patterns(set) == spec_pattern_texts(patterns@) || spec_glob_patterns(set).len()
            == 0,
{
    match glob_set_of(patterns) {
        Some(set) => set,
        None => empty_glob_set(),
    }
}

fn default_ignored_patterns() -> (set: GlobSet)
    ensures
        spec_glob_patterns(set) == seq!["**/.git/**"@] || spec_glob_patterns(set).len() == 0,
{
    let mut patterns: Vec<String> = Vec::new();
    patterns.push(String::from_str("**/.git/**"));
    glob_set_or_empty(&patterns)
}

fn default_run() -> (millis: u64)
    ensures
        millis == 200,
{
    200
}

fn default_maintenance() -> (millis: u64)
    ensures
        millis == 500,
{
    500
}

fn default_activate() -> (millis: u64)
    ensures
        millis == 3000,
{
    3000
}

impl Default for Debounce {
    fn default() -> (d: Self)
        ensures
            d == (Debounce { run: 200, maintenance: 500, activate: 3000 }),
    {
        Self { run: default_run(), maintenance: default_maintenance(), activate: default_activate() }
    }
}

impl Debounce {
    /// The shortest of the three waits: how long the background loop sleeps.
    pub fn min(&self) -> (millis: u64)
        ensures
            millis <= self.run,
            millis <= self.maintenance,
            millis <= self.activate,
            millis == self.run || millis == self.maintenance || millis == self.activate,
    {
        let mut millis = self.activate;
        if self.maintenance < millis {
            millis = self.maintenance;
        }
        if self.run < millis {
            millis = self.run;
        }
        millis
    }
}

impl Default for TrackerConfig {
    fn default() -> (conf: Self)
        ensures
            conf.enable,
            conf.debounce_milliseconds == (Debounce { run: 200, maintenance: 500, activate: 3000 }),
            spec_glob_patterns(conf.ignored_patterns) == seq!["**/.git/**"@] || spec_glob_patterns(
                conf.ignored_patterns,
            ).len() == 0,
    {
        Self {
            enable: default_enable(),
            debounce_milliseconds: Debounce::default(),
            ignored_patterns: default_ignored_patterns(),
        }
    }
}

impl TrackerConfig {
    /// The configuration that leaves alone the files matching a pattern of
    /// the set `ignored_patterns`, where there is such a set.
    pub fn with_glob_set(
        enable: bool,
        debounce_milliseconds: Debounce,
        ignored_patterns: Option<GlobSet>,
    ) -> (r: Option<Self>)
        ensures
            r is Some == ignored_patterns is Some,
            r matches Some(conf) ==> {
                &&& conf.enable == enable
                &&& conf.debounce_milliseconds == debounce_milliseconds
                &&& Some(conf.ignored_patterns) == ignored_patterns
            },
    {
        match ignored_patterns {
            Some(ignored_patterns) => Some(Self { enable, debounce_milliseconds, ignored_patterns }),
            None => None,
        }
    }

    /// The configuration that leaves alone the files matching one of
    /// `patterns`, or `None` where the patterns cannot be made a set. With no
    /// patterns there always is one, and it leaves no file alone.
    pub fn with_patterns(enable: bool, debounce_milliseconds: Debounce, patterns: &Vec<String>) -> (r:
        Option<Self>)
        ensures
            patterns@.len() == 0 ==> r is Some,
            r matches Some(conf) ==> {
                &&& conf.enable == enable
                &&& conf.debounce_milliseconds == debounce_milliseconds
                &&& spec_glob_patterns(conf.ignored_patterns) == spec_pattern_texts(patterns@)
            },
    {
        Self::with_glob_set(enable, debounce_milliseconds, glob_set_of(patterns))
    }

    /// Whether changes to the file at `path` are left alone: whether one of
    /// the ignored patterns matches the path. With no patterns no file is
    /// left alone.
    pub fn is_ignored(&self, path: &str) -> (b: bool)
        ensures
            spec_glob_patterns(self.ignored_patterns).len() == 0 ==> !b,
    {
        glob_set_is_match(&self.ignored_patterns, path)
    }
}

} // verus!
