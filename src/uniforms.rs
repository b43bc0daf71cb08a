use vstd::prelude::*;

verus! {

/// One remembered uniform location.
pub struct UniformEntry {
    pub program: u32,
    pub name: String,
    pub location: i32,
}

/// Remembers, per program, the location of each uniform looked up by name,
/// so that each name is asked of the graphics driver once per program.
pub struct UniformCache {
    entries: Vec<UniformEntry>,
    known: Ghost<Map<(u32, Seq<char>), i32>>,
}

impl UniformCache {
    /// The locations known, by program and name.
    pub closed spec fn view(self) -> Map<(u32, Seq<char>), i32> {
        self.known@
    }

    /// The entries hold exactly the known locations, each key once.
    pub closed spec fn wf(self) -> bool {
        &&& forall|i: int|
            0 <= i < self.entries@.len() ==> self.known@.contains_key(
                (#[trigger] self.entries@[i].program, self.entries@[i].name@),
            ) && self.known@[(self.entries@[i].program, self.entries@[i].name@)]
                == self.entries@[i].location
        &&& forall|k: (u32, Seq<char>)|
            #[trigger] self.known@.contains_key(k) ==> exists|i: int|
                0 <= i < self.entries@.len() && self.entries@[i].program == k.0
                    && self.entries@[i].name@ == k.1
        &&& forall|i: int, j: int|
            0 <= i < self.entries@.len() && 0 <= j < self.entries@.len() && i != j
                ==> !(#[trigger] self.entries@[i].program == #[trigger] self.entries@[j].program
                && self.entries@[i].name@ == self.entries@[j].name@)
    }

    /// A cache that knows no location.
    pub fn new() -> (r: UniformCache)
        ensures
            r.wf(),
            r.view() == Map::<(u32, Seq<char>), i32>::empty(),
    {
        UniformCache { entries: Vec::new(), known: Ghost(Map::empty()) }
    }

    /// The remembered location of `name` in `program`, if any.
    pub fn lookup(&self, program: u32, name: &str) -> (r: Option<i32>)
        requires
            self.wf(),
        ensures
            r == (if self.view().contains_key((program, name@)) {
                Some(self.view()[(program, name@)])
            } else {
                None::<i32>
            }),
    {
        let key = name.to_owned();
        let mut i: usize = 0;
        while i < self.entries.len()
            invariant
                self.wf(),
                key@ == name@,
                0 <= i <= self.entries@.len(),
                forall|j: int|
                    0 <= j < i ==> !(self.entries@[j].program == program
                        && self.entries@[j].name@ == name@),
            decreases self.entries@.len() - i,
        {
            let e = &self.entries[i];
            if e.program == program && e.name == key {
                assert(self.known@.contains_key((self.entries@[i as int].program, self.entries@[i as int].name@)));
                return Some(e.location);
            }
            i = i + 1;
        }
        assert(!self.known@.contains_key((program, name@))) by {
            if self.known@.contains_key((program, name@)) {
                let k = (program, name@);
                let j = choose|j: int|
                    0 <= j < self.entries@.len() && self.entries@[j].program == k.0
                        && self.entries@[j].name@ == k.1;
            }
        }
        None
    }

    /// Remembers that `name` in `program` is at `location`.
    pub fn insert(&mut self, program: u32, name: &str, location: i32)
        requires
            old(self).wf(),
        ensures
            final(self).wf(),
            final(self).view() == old(self).view().insert((program, name@), location),
    {
        let key = name.to_owned();
        let mut i: usize = 0;
        while i < self.entries.len()
            invariant
                self.wf(),
                key@ == name@,
                self.entries@.len() == old(self).entries@.len(),
                self.known@ == old(self).known@,
                0 <= i <= self.entries@.len(),
                forall|j: int|
                    0 <= j < i ==> !(self.entries@[j].program == program
                        && self.entries@[j].name@ == name@),
            decreases self.entries@.len() - i,
        {
            if self.entries[i].program == program && self.entries[i].name == key {
                let ghost before = self.entries@;
                self.entries.set(i, UniformEntry { program, name: name.to_owned(), location });
                self.known = Ghost(self.known@.insert((program, name@), location));
                assert forall|j: int| 0 <= j < self.entries@.len() implies self.known@.contains_key(
                    (#[trigger] self.entries@[j].program, self.entries@[j].name@),
                ) && self.known@[(self.entries@[j].program, self.entries@[j].name@)]
                    == self.entries@[j].location by {
                    if j != i {
                        assert(self.entries@[j] == before[j]);
                        assert(!(before[j].program == before[i as int].program && before[j].name@ == before[i as int].name@));
                    }
                }
                assert forall|a: int, b: int|
                    0 <= a < self.entries@.len() && 0 <= b < self.entries@.len() && a != b
                        implies !(#[trigger] self.entries@[a].program == #[trigger] self.entries@[b].program
                        && self.entries@[a].name@ == self.entries@[b].name@) by {
                    assert(!(before[a].program == before[b].program && before[a].name@ == before[b].name@));
                }
                assert forall|k: (u32, Seq<char>)|
                    #[trigger] self.known@.contains_key(k) implies exists|j: int|
                        0 <= j < self.entries@.len() && self.entries@[j].program == k.0
                            && self.entries@[j].name@ == k.1 by {
                    if k != (program, name@) {
                        let j = choose|j: int|
                            0 <= j < before.len() && before[j].program == k.0 && before[j].name@
                                == k.1;
                        assert(j != i);
                        assert(self.entries@[j] == before[j]);
                    } else {
                        assert(self.entries@[i as int].program == k.0);
                    }
                }
                return;
            }
            i = i + 1;
        }
        let ghost before = self.entries@;
        self.entries.push(UniformEntry { program, name: name.to_owned(), location });
        self.known = Ghost(self.known@.insert((program, name@), location));
        assert forall|j: int| 0 <= j < self.entries@.len() implies self.known@.contains_key(
            (#[trigger] self.entries@[j].program, self.entries@[j].name@),
        ) && self.known@[(self.entries@[j].program, self.entries@[j].name@)]
            == self.entries@[j].location by {
            if j < before.len() {
                assert(self.entries@[j] == before[j]);
                assert(!(before[j].program == program && before[j].name@ == name@));
            }
        }
        assert forall|a: int, b: int|
            0 <= a < self.entries@.len() && 0 <= b < self.entries@.len() && a != b
                implies !(#[trigger] self.entries@[a].program == #[trigger] self.entries@[b].program
                && self.entries@[a].name@ == self.entries@[b].name@) by {
            if a < before.len() && b < before.len() {
                assert(self.entries@[a] == before[a] && self.entries@[b] == before[b]);
            } else if a < before.len() {
                assert(self.entries@[a] == before[a]);
                assert(!(before[a].program == program && before[a].name@ == name@));
            } else {
                assert(self.entries@[b] == before[b]);
                assert(!(before[b].program == program && before[b].name@ == name@));
            }
        }
        assert forall|k: (u32, Seq<char>)|
            #[trigger] self.known@.contains_key(k) implies exists|j: int|
                0 <= j < self.entries@.len() && self.entries@[j].program == k.0
                    && self.entries@[j].name@ == k.1 by {
            if k != (program, name@) {
                let j = choose|j: int|
                    0 <= j < before.len() && before[j].program == k.0 && before[j].name@ == k.1;
                assert(self.entries@[j] == before[j]);
            } else {
                assert(self.entries@[before.len() as int].program == k.0);
            }
        }
    }
}

} // verus!
