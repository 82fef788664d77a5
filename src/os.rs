//! Process-level helpers: the exit status of a process replaced by a command,
//! and the index behind case-insensitive environment lookups.
//!
//! Where the platform offers no way to swap the process image, the program
//! runs the command as a child, waits for it and exits with its status; the
//! status chosen is decided here.
use vstd::prelude::*;

verus! {

/// The status to exit with when the child's own status cannot be had (it was
/// ended by a signal, say).
pub const FALLBACK_EXIT_CODE: i32 = 1;

/// The status that the replaced process exits with: the child's exit code
/// where it has one, the fallback status otherwise.
pub fn replacement_exit_code(child_code: Option<i32>) -> (r: i32)
    ensures
        r == match child_code {
            Some(code) => code,
            None => FALLBACK_EXIT_CODE,
        },
{
    match child_code {
        Some(code) => code,
        None => FALLBACK_EXIT_CODE,
    }
}

/// What `str::to_uppercase` makes of a string.
pub uninterp spec fn upper_of(s: Seq<char>) -> Seq<char>;

/// Relies on str::to_uppercase: the upper-case form of `s`, which depends on
/// its characters alone.
#[verifier::external_body]
fn uppercase(s: &str) -> (r: String)
    ensures
        r@ == upper_of(s@),
{
    s.to_uppercase()
}

/// An index from the upper-case form of environment variable names to the
/// names as they are spelled, for platforms whose variable names ignore case.
pub struct KeyIndex {
    entries: Vec<(String, String)>,
    model: Ghost<Map<Seq<char>, Seq<char>>>,
}

impl View for KeyIndex {
    type V = Map<Seq<char>, Seq<char>>;

    closed spec fn view(&self) -> Map<Seq<char>, Seq<char>> {
        self.model@
    }
}

impl KeyIndex {
    /// The entries hold each normalised name once, and the model maps each to
    /// its spelling.
    #[verifier::type_invariant]
    spec fn wf(&self) -> bool {
        &&& forall|i: int, j: int|
            0 <= i < j < self.entries@.len() ==> self.entries@[i].0@ != self.entries@[j].0@
        &&& forall|i: int|
            0 <= i < self.entries@.len() ==> #[trigger] self.model@.contains_key(
                self.entries@[i].0@,
            ) && self.model@[self.entries@[i].0@] == self.entries@[i].1@
        &&& forall|k: Seq<char>|
            #[trigger] self.model@.contains_key(k) ==> exists|i: int|
                0 <= i < self.entries@.len() && self.entries@[i].0@ == k
    }

    /// An index of no names.
    pub fn new() -> (r: KeyIndex)
        ensures
            r@ == Map::<Seq<char>, Seq<char>>::empty(),
    {
        KeyIndex { entries: Vec::new(), model: Ghost(Map::empty()) }
    }

    fn position(&self, normalised: &String) -> (r: Option<usize>)
        ensures
            match r {
                Some(i) => i < self.entries@.len() && self.entries@[i as int].0@ == normalised@,
                None => !self@.contains_key(normalised@),
            },
    {
        proof {
            use_type_invariant(self);
        }
        let mut i: usize = 0;
        while i < self.entries.len()
            invariant
                self.wf(),
                0 <= i <= self.entries@.len(),
                forall|j: int| 0 <= j < i ==> self.entries@[j].0@ != normalised@,
            decreases self.entries@.len() - i,
        {
            if self.entries[i].0 == *normalised {
                return Some(i);
            }
            i = i + 1;
        }
        None
    }

    /// Records the name spelled `spelled` under its normalised form `normalised`;
    /// a name recorded before under the same normalised form gives way.
    pub fn insert_normalised(&mut self, normalised: String, spelled: String)
        ensures
            final(self)@ == old(self)@.insert(normalised@, spelled@),
    {
        proof {
            use_type_invariant(&*self);
        }
        let ghost key = normalised@;
        let ghost value = spelled@;
        let ghost before = self.entries@;
        let ghost model = self.model@;
        let ghost at: int;
        let found = self.position(&normalised);
        let mut this = KeyIndex::new();
        std::mem::swap(&mut this, self);
        let KeyIndex { mut entries, model: _ } = this;
        match found {
            Some(i) => {
                entries.set(i, (normalised, spelled));
                proof {
                    at = i as int;
                }
            },
            None => {
                entries.push((normalised, spelled));
                proof {
                    at = before.len() as int;
                    assert forall|j: int| 0 <= j < before.len() implies before[j].0@ != key by {
                        assert(model.contains_key(before[j].0@));
                    }
                }
            },
        }
        let ghost new_model = model.insert(key, value);
        proof {
            assert(entries@[at].0@ == key && entries@[at].1@ == value);
            assert forall|j: int| 0 <= j < entries@.len() && j != at implies entries@[j] == before[j]
                && before[j].0@ != key by {}
            assert forall|i: int, j: int| 0 <= i < j < entries@.len() implies entries@[i].0@
                != entries@[j].0@ by {
                if i != at && j != at {
                    assert(entries@[i] == before[i] && entries@[j] == before[j]);
                }
            }
            assert forall|i: int| 0 <= i < entries@.len() implies #[trigger] new_model.contains_key(
                entries@[i].0@,
            ) && new_model[entries@[i].0@] == entries@[i].1@ by {
                if i != at {
                    assert(entries@[i] == before[i]);
                    assert(model.contains_key(before[i].0@));
                }
            }
            assert forall|k: Seq<char>| #[trigger] new_model.contains_key(k) implies exists|i: int|
                0 <= i < entries@.len() && entries@[i].0@ == k by {
                if k != key {
                    let j = choose|j: int| 0 <= j < before.len() && before[j].0@ == k;
                    assert(entries@[j].0@ == k);
                }
            }
        }
        proof {
            let ghost rebuilt = KeyIndex { entries, model: Ghost(new_model) };
            assert(rebuilt.entries@ == entries@ && rebuilt.model@ == new_model);
            assert(rebuilt.wf());
        }
        *self = KeyIndex { entries, model: Ghost(new_model) };
    }

    /// Records the name `key` under its upper-case form.
    pub fn insert(&mut self, key: &str)
        ensures
            final(self)@ == old(self)@.insert(upper_of(key@), key@),
    {
        let normalised = uppercase(key);
        self.insert_normalised(normalised, key.to_owned());
    }

    /// The spelling recorded for the normalised name `normalised`.
    pub fn get_normalised(&self, normalised: &String) -> (r: Option<String>)
        ensures
            match r {
                Some(spelled) => self@.contains_key(normalised@) && spelled@
                    == self@[normalised@],
                None => !self@.contains_key(normalised@),
            },
    {
        proof {
            use_type_invariant(self);
        }
        match self.position(normalised) {
            Some(i) => {
                assert(self.model@.contains_key(self.entries@[i as int].0@));
                Some(self.entries[i].1.clone())
            },
            None => None,
        }
    }

    /// The spelling recorded for a name that is `key` but for case.
    pub fn lookup(&self, key: &str) -> (r: Option<String>)
        ensures
            match r {
                Some(spelled) => self@.contains_key(upper_of(key@)) && spelled@
                    == self@[upper_of(key@)],
                None => !self@.contains_key(upper_of(key@)),
            },
    {
        let normalised = uppercase(key);
        self.get_normalised(&normalised)
    }
}

} // verus!
