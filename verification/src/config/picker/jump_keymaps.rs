//! The keys that jump from the picker to a record.

use std::slice::Iter;
use vstd::prelude::*;
use vstd::std_specs::iter::IteratorSpec;
use vstd::string::*;

verus! {

/// The keys of one window of the picker: one to follow the preview to more
/// records of its buffer, one to jump to the record straight away.
#[derive(Debug, Clone, PartialEq, Eq)]
pub struct JumpKeymap {
    pub follow: String,
    pub immediate: String,
}

/// The keys of the windows of the picker, in the order of the windows.
#[derive(Debug, Clone, PartialEq, Eq)]
pub struct JumpKeymapList(Vec<JumpKeymap>);

impl View for JumpKeymapList {
    type V = Seq<JumpKeymap>;

    closed spec fn view(&self) -> Seq<JumpKeymap> {
        self.0@
    }
}

/// The keys a user gets who sets none: the keys of the home row to follow
/// and their capitals to jump.
pub open spec fn spec_default_keys() -> Seq<(Seq<char>, Seq<char>)> {
    seq![
        ("j"@, "J"@),
        ("f"@, "F"@),
        ("k"@, "K"@),
        ("d"@, "D"@),
        ("l"@, "L"@),
        ("s"@, "S"@),
        (";"@, ";"@),
        ("a"@, "A"@),
        ("h"@, "H"@),
        ("g"@, "G"@),
    ]
}

fn keymap(follow: &str, immediate: &str) -> (k: JumpKeymap)
    ensures
        k.follow@ == follow@,
        k.immediate@ == immediate@,
{
    JumpKeymap { follow: String::from_str(follow), immediate: String::from_str(immediate) }
}

impl JumpKeymapList {
    /// The list of the keymaps `keys`.
    pub fn new(keys: Vec<JumpKeymap>) -> (list: Self)
        ensures
            list@ == keys@,
    {
        Self(keys)
    }

    /// The keymap of the window at `idx`, if there is one.
    pub fn get(&self, idx: usize) -> (r: Option<&JumpKeymap>)
        ensures
            r == if idx < self@.len() {
                Some(&self@[idx as int])
            } else {
                None
            },
    {
        if idx < self.0.len() {
            Some(&self.0[idx])
        } else {
            None
        }
    }

    /// The keymaps in the order of the windows.
    pub fn iter(&self) -> (iter: Iter<'_, JumpKeymap>)
        ensures
            IteratorSpec::remaining(&iter) == self@.as_ref(),
    {
        self.0.iter()
    }

    /// The number of keymaps.
    pub fn len(&self) -> (n: usize)
        ensures
            n == self@.len(),
    {
        self.0.len()
    }

    /// The first keymap that is not among `used`.
    pub fn first_unused(&self, used: &Vec<&JumpKeymap>) -> (r: Option<&JumpKeymap>)
        ensures
            r == if spec_first_unused_idx(self@, spec_keymaps(used@), 0) < self@.len() {
                Some(&self@[spec_first_unused_idx(self@, spec_keymaps(used@), 0)])
            } else {
                None
            },
    {
        let mut i: usize = 0;
        while i < self.0.len()
            invariant
                i <= self@.len(),
                spec_first_unused_idx(self@, spec_keymaps(used@), 0) == spec_first_unused_idx(
                    self@,
                    spec_keymaps(used@),
                    i as int,
                ),
            decreases self@.len() - i,
        {
            if !is_used(used, &self.0[i]) {
                return Some(&self.0[i]);
            }
            i += 1;
        }
        None
    }
}

/// The keymaps that the references name.
pub open spec fn spec_keymaps(used: Seq<&JumpKeymap>) -> Seq<JumpKeymap> {
    Seq::new(used.len(), |i: int| *used[i])
}

/// The index of the first keymap at or after `from` that is not among `used`,
/// or the number of keymaps where all are.
pub open spec fn spec_first_unused_idx(keys: Seq<JumpKeymap>, used: Seq<JumpKeymap>, from: int) -> int
    decreases keys.len() - from,
{
    if from < 0 || from >= keys.len() || !spec_is_used(used, keys[from]) {
        from
    } else {
        spec_first_unused_idx(keys, used, from + 1)
    }
}

/// Whether a keymap with the keys of `k` is among `used`.
pub open spec fn spec_is_used(used: Seq<JumpKeymap>, k: JumpKeymap) -> bool {
    exists|i: int|
        0 <= i < used.len() && (#[trigger] used[i]).follow@ == k.follow@ && used[i].immediate@
            == k.immediate@
}

fn is_used(used: &Vec<&JumpKeymap>, k: &JumpKeymap) -> (b: bool)
    ensures
        b == spec_is_used(spec_keymaps(used@), *k),
{
    let mut i: usize = 0;
    while i < used.len()
        invariant
            i <= used@.len(),
            forall|j: int|
                0 <= j < i ==> !((#[trigger] spec_keymaps(used@)[j]).follow@ == k.follow@
                    && spec_keymaps(used@)[j].immediate@ == k.immediate@),
        decreases used@.len() - i,
    {
        if used[i].follow == k.follow && used[i].immediate == k.immediate {
            assert(spec_keymaps(used@)[i as int].follow@ == k.follow@);
            return true;
        }
        i += 1;
    }
    false
}

impl Default for JumpKeymapList {
    fn default() -> (list: Self)
        ensures
            list@.len() == 10,
            forall|i: int|
                0 <= i < 10 ==> ((#[trigger] list@[i]).follow@, list@[i].immediate@)
                    == spec_default_keys()[i],
    {
        let mut keys: Vec<JumpKeymap> = Vec::new();
        keys.push(keymap("j", "J"));
        keys.push(keymap("f", "F"));
        keys.push(keymap("k", "K"));
        keys.push(keymap("d", "D"));
        keys.push(keymap("l", "L"));
        keys.push(keymap("s", "S"));
        keys.push(keymap(";", ";"));
        keys.push(keymap("a", "A"));
        keys.push(keymap("h", "H"));
        keys.push(keymap("g", "G"));
        Self(keys)
    }
}

} // verus!
