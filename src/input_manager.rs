use vstd::prelude::*;

verus! {

/// `v` held to the range of `i64`.
pub open spec fn clamp_i64(v: int) -> i64 {
    if v > i64::MAX {
        i64::MAX
    } else if v < i64::MIN {
        i64::MIN
    } else {
        v as i64
    }
}

/// The input state that the frame loop polls once per frame: which keys are
/// down, how far the cursor moved since the previous poll, and how far the
/// wheel scrolled since the previous poll.
pub struct InputManager {
    /// The keys that are down, each once.
    keys: Vec<u32>,
    /// The cursor position at the previous poll, if there was one.
    cursor: Option<(i32, i32)>,
    /// The cursor movement between the last two polls.
    movement: (i64, i64),
    /// The wheel movement gathered before the last poll.
    scroll: (i64, i64),
    /// The wheel movement gathered since the last poll.
    pending: (i64, i64),
}

impl InputManager {
    pub closed spec fn spec_keys(self) -> Seq<u32> {
        self.keys@
    }

    pub closed spec fn spec_cursor(self) -> Option<(i32, i32)> {
        self.cursor
    }

    pub closed spec fn spec_movement(self) -> (i64, i64) {
        self.movement
    }

    pub closed spec fn spec_scroll(self) -> (i64, i64) {
        self.scroll
    }

    pub closed spec fn spec_pending(self) -> (i64, i64) {
        self.pending
    }

    /// Each key that is down is held once.
    pub open spec fn wf(self) -> bool {
        self.spec_keys().no_duplicates()
    }

    /// Whether `key` is down.
    pub open spec fn spec_key_down(self, key: u32) -> bool {
        self.spec_keys().contains(key)
    }

    /// No key down, no poll yet, no movement.
    pub fn new() -> (r: InputManager)
        ensures
            r.wf(),
            forall|k: u32| !r.spec_key_down(k),
            r.spec_cursor() is None,
            r.spec_movement() == (0i64, 0i64),
            r.spec_scroll() == (0i64, 0i64),
            r.spec_pending() == (0i64, 0i64),
    {
        InputManager {
            keys: Vec::new(),
            cursor: None,
            movement: (0, 0),
            scroll: (0, 0),
            pending: (0, 0),
        }
    }

    /// Whether `key` is down.
    pub fn key_down(&self, key: u32) -> (r: bool)
        ensures
            r == self.spec_key_down(key),
    {
        let mut i: usize = 0;
        while i < self.keys.len()
            invariant
                0 <= i <= self.keys@.len(),
                forall|j: int| 0 <= j < i ==> self.keys@[j] != key,
            decreases self.keys@.len() - i,
        {
            if self.keys[i] == key {
                return true;
            }
            i = i + 1;
        }
        false
    }

    /// Records that `key` went down (`down`) or up.
    pub fn key_event(&mut self, key: u32, down: bool)
        requires
            old(self).wf(),
        ensures
            final(self).wf(),
            forall|k: u32|
                final(self).spec_key_down(k) == if k == key {
                    down
                } else {
                    old(self).spec_key_down(k)
                },
            final(self).spec_cursor() == old(self).spec_cursor(),
            final(self).spec_movement() == old(self).spec_movement(),
            final(self).spec_scroll() == old(self).spec_scroll(),
            final(self).spec_pending() == old(self).spec_pending(),
    {
        let held = self.key_down(key);
        if down {
            if !held {
                self.keys.push(key);
                assert forall|k: u32| #[trigger] self.keys@.contains(k) == (k == key || old(self).keys@.contains(k)) by {
                    if k == key {
                        assert(self.keys@[self.keys@.len() - 1] == key);
                    }
                    if old(self).keys@.contains(k) {
                        let j = choose|j: int| 0 <= j < old(self).keys@.len() && old(self).keys@[j] == k;
                        assert(self.keys@[j] == k);
                    }
                }
            }
        } else if held {
            let mut kept: Vec<u32> = Vec::new();
            let mut i: usize = 0;
            while i < self.keys.len()
                invariant
                    0 <= i <= self.keys@.len(),
                    self.keys@.no_duplicates(),
                    kept@.no_duplicates(),
                    forall|k: u32| #[trigger] kept@.contains(k) <==> (k != key && exists|j: int| 0 <= j < i && self.keys@[j] == k),
                decreases self.keys@.len() - i,
            {
                let k = self.keys[i];
                if k != key {
                    assert(!kept@.contains(k)) by {
                        if kept@.contains(k) {
                            let j = choose|j: int| 0 <= j < i && self.keys@[j] == k;
                            assert(self.keys@[j] == self.keys@[i as int]);
                        }
                    }
                    let ghost prev = kept@;
                    kept.push(k);
                    assert forall|k2: u32| #[trigger] kept@.contains(k2) <==> (prev.contains(k2) || k2 == k) by {
                        if kept@.contains(k2) {
                            let m = choose|m: int| 0 <= m < kept@.len() && kept@[m] == k2;
                            if m < prev.len() {
                                assert(prev[m] == k2);
                            }
                        }
                        if prev.contains(k2) {
                            let m = choose|m: int| 0 <= m < prev.len() && prev[m] == k2;
                            assert(kept@[m] == k2);
                        }
                        if k2 == k {
                            assert(kept@[prev.len() as int] == k2);
                        }
                    }
                    assert(kept@.no_duplicates()) by {
                        assert forall|a: int, b: int| 0 <= a < kept@.len() && 0 <= b < kept@.len() && a != b implies kept@[a] != kept@[b] by {
                            if a < prev.len() && b < prev.len() {
                                assert(prev[a] == kept@[a] && prev[b] == kept@[b]);
                            } else if a < prev.len() {
                                assert(prev.contains(kept@[a]));
                            } else {
                                assert(prev.contains(kept@[b]));
                            }
                        }
                    }
                    assert forall|k2: u32| #[trigger] kept@.contains(k2) <==> (k2 != key && exists|j: int| 0 <= j < i + 1 && self.keys@[j] == k2) by {
                        if k2 != key && exists|j: int| 0 <= j < i + 1 && self.keys@[j] == k2 {
                            let j = choose|j: int| 0 <= j < i + 1 && self.keys@[j] == k2;
                            if j < i {
                                assert(prev.contains(k2));
                            }
                        }
                        if prev.contains(k2) {
                            let j = choose|j: int| 0 <= j < i && self.keys@[j] == k2;
                            assert(0 <= j < i + 1 && self.keys@[j] == k2);
                        }
                        if k2 == k {
                            assert(self.keys@[i as int] == k2);
                        }
                    }
                } else {
                    assert forall|k2: u32| #[trigger] kept@.contains(k2) <==> (k2 != key && exists|j: int| 0 <= j < i + 1 && self.keys@[j] == k2) by {
                        if k2 != key && exists|j: int| 0 <= j < i + 1 && self.keys@[j] == k2 {
                            let j = choose|j: int| 0 <= j < i + 1 && self.keys@[j] == k2;
                            assert(j != i);
                            assert(0 <= j < i && self.keys@[j] == k2);
                        }
                        if kept@.contains(k2) {
                            let j = choose|j: int| 0 <= j < i && self.keys@[j] == k2;
                            assert(0 <= j < i + 1 && self.keys@[j] == k2);
                        }
                    }
                }
                i = i + 1;
            }
            assert forall|k: u32| #[trigger] kept@.contains(k) <==> (k != key && self.keys@.contains(k)) by {
                if k != key && self.keys@.contains(k) {
                    let j = choose|j: int| 0 <= j < self.keys@.len() && self.keys@[j] == k;
                    assert(exists|j: int| 0 <= j < i && self.keys@[j] == k);
                }
                if kept@.contains(k) {
                    let j = choose|j: int| 0 <= j < i && self.keys@[j] == k;
                    assert(self.keys@.contains(k));
                }
            }
            self.keys = kept;
        }
    }

    /// Gathers a wheel movement into what the next poll reports.
    pub fn wheel_event(&mut self, dx: i32, dy: i32)
        requires
            old(self).wf(),
        ensures
            final(self).wf(),
            final(self).spec_pending() == (
                clamp_i64(old(self).spec_pending().0 + dx),
                clamp_i64(old(self).spec_pending().1 + dy),
            ),
            final(self).spec_keys() == old(self).spec_keys(),
            final(self).spec_cursor() == old(self).spec_cursor(),
            final(self).spec_movement() == old(self).spec_movement(),
            final(self).spec_scroll() == old(self).spec_scroll(),
    {
        self.pending = (Self::add_clamped(self.pending.0, dx), Self::add_clamped(self.pending.1, dy));
    }

    fn add_clamped(a: i64, b: i32) -> (r: i64)
        ensures
            r == clamp_i64(a + b),
    {
        let s: i128 = a as i128 + b as i128;
        if s > i64::MAX as i128 {
            i64::MAX
        } else if s < i64::MIN as i128 {
            i64::MIN
        } else {
            s as i64
        }
    }

    /// Takes the cursor position of this frame: the movement becomes the
    /// distance from the position at the previous poll (none at the first
    /// poll), and the scroll becomes what the wheel gathered since then.
    pub fn poll(&mut self, x: i32, y: i32)
        requires
            old(self).wf(),
        ensures
            final(self).wf(),
            final(self).spec_movement() == match old(self).spec_cursor() {
                Some(c) => ((x - c.0) as i64, (y - c.1) as i64),
                None => (0i64, 0i64),
            },
            final(self).spec_scroll() == old(self).spec_pending(),
            final(self).spec_pending() == (0i64, 0i64),
            final(self).spec_cursor() == Some((x, y)),
            final(self).spec_keys() == old(self).spec_keys(),
    {
        self.movement = match self.cursor {
            Some((px, py)) => (x as i64 - px as i64, y as i64 - py as i64),
            None => (0, 0),
        };
        self.scroll = self.pending;
        self.pending = (0, 0);
        self.cursor = Some((x, y));
    }

    /// How far the cursor moved between the last two polls.
    pub fn mouse_movement(&self) -> (r: (i64, i64))
        ensures
            r == self.spec_movement(),
    {
        self.movement
    }

    /// How far the wheel scrolled before the last poll, since the one before.
    pub fn scroll(&self) -> (r: (i64, i64))
        ensures
            r == self.spec_scroll(),
    {
        self.scroll
    }
}

} // verus!
