//! A dense map from player ids to values, with one slot per possible player.

use vstd::prelude::*;

verus! {

/// The number of player slots in a game.
pub const MAX_PLAYERS: usize = 8;

/// Identifies one player of a game. Ids below `MAX_PLAYERS` name a slot.
#[derive(Clone, Copy, Debug, PartialEq, Eq, Structural)]
pub struct PlayerId(pub u8);

impl PlayerId {
    /// Whether this id names one of the slots.
    pub open spec fn in_range(self) -> bool {
        self.0 < MAX_PLAYERS
    }
}

/// A value per player slot; a slot is either empty or holds a `T`.
#[derive(Clone, Copy, Debug)]
pub struct PlayerIdMap<T: Copy> {
    pub inner: [Option<T>; 8],
}

impl<T: Copy> PlayerIdMap<T> {
    /// What the map holds for `id`: nothing for an id out of range.
    pub open spec fn spec_get(self, id: PlayerId) -> Option<T> {
        if id.0 < MAX_PLAYERS {
            self.inner[id.0 as int]
        } else {
            None
        }
    }

    /// The slot with index `i`, for `0 <= i < MAX_PLAYERS`.
    pub open spec fn slot(self, i: int) -> Option<T> {
        self.inner[i]
    }

    /// The map that agrees with `self` except that `id` holds `v`.
    pub open spec fn spec_set(self, id: PlayerId, v: T) -> Self {
        if id.0 < MAX_PLAYERS {
            PlayerIdMap { inner: vstd::array::spec_array_update(self.inner, id.0 as int, Some(v)) }
        } else {
            self
        }
    }

    /// The map that agrees with `self` except that `id` is empty.
    pub open spec fn spec_remove(self, id: PlayerId) -> Self {
        if id.0 < MAX_PLAYERS {
            PlayerIdMap { inner: vstd::array::spec_array_update(self.inner, id.0 as int, None) }
        } else {
            self
        }
    }

    /// The map that agrees with `self` except that slot `i` holds `v`.
    pub open spec fn spec_with_slot(self, i: int, v: Option<T>) -> Self {
        if 0 <= i < MAX_PLAYERS {
            PlayerIdMap { inner: vstd::array::spec_array_update(self.inner, i, v) }
        } else {
            self
        }
    }

    /// The number of occupied slots among the first `n`.
    pub open spec fn count_below(self, n: int) -> int
        decreases n,
    {
        if n <= 0 {
            0
        } else {
            self.count_below(n - 1) + if self.inner[n - 1] is Some { 1int } else { 0int }
        }
    }

    /// The number of occupied slots.
    pub open spec fn spec_count_populated(self) -> int {
        self.count_below(MAX_PLAYERS as int)
    }

    /// The lowest empty slot at or above `from`, if any.
    pub open spec fn first_free_from(self, from: int) -> Option<PlayerId>
        decreases MAX_PLAYERS - from,
    {
        if from < 0 || from >= MAX_PLAYERS {
            None
        } else if self.inner[from] is None {
            Some(PlayerId(from as u8))
        } else {
            self.first_free_from(from + 1)
        }
    }

    /// Two maps with the same slots are the same map.
    pub proof fn lemma_ext_equal(self, other: Self)
        requires
            forall|i: int| 0 <= i < MAX_PLAYERS ==> self.inner[i] == other.inner[i],
        ensures
            self == other,
    {
        assert(self.inner =~= other.inner);
    }

    /// The map with every slot empty.
    pub fn new() -> (r: Self)
        ensures
            forall|i: int| 0 <= i < MAX_PLAYERS ==> r.inner[i] is None,
            forall|id: PlayerId| r.spec_get(id) is None,
            r.spec_count_populated() == 0,
    {
        let r = PlayerIdMap { inner: [None; 8] };
        proof {
            reveal_with_fuel(PlayerIdMap::count_below, 9);
        }
        r
    }

    /// Stores `v` for `id`. An id out of range is ignored.
    pub fn set(&mut self, id: PlayerId, v: T)
        ensures
            *final(self) == old(self).spec_set(id, v),
    {
        if (id.0 as usize) < MAX_PLAYERS {
            self.inner[id.0 as usize] = Some(v);
            proof {
                self.lemma_ext_equal(old(self).spec_set(id, v));
            }
        }
    }

    /// Empties the slot of `id`. An id out of range is ignored.
    pub fn remove(&mut self, id: PlayerId)
        ensures
            *final(self) == old(self).spec_remove(id),
    {
        if (id.0 as usize) < MAX_PLAYERS {
            self.inner[id.0 as usize] = None;
            proof {
                self.lemma_ext_equal(old(self).spec_remove(id));
            }
        }
    }

    /// Puts `v` into slot `i`. An index out of range is ignored.
    pub fn set_slot(&mut self, i: usize, v: Option<T>)
        ensures
            *final(self) == old(self).spec_with_slot(i as int, v),
    {
        if i < MAX_PLAYERS {
            self.inner[i] = v;
            proof {
                self.lemma_ext_equal(old(self).spec_with_slot(i as int, v));
            }
        }
    }

    /// What slot `i` holds; nothing for an index out of range.
    pub fn get_slot(&self, i: usize) -> (r: Option<T>)
        ensures
            r == if i < MAX_PLAYERS {
                self.inner[i as int]
            } else {
                None
            },
    {
        if i < MAX_PLAYERS {
            self.inner[i]
        } else {
            None
        }
    }

    /// The value stored for `id`, if any.
    pub fn get(&self, id: PlayerId) -> (r: Option<T>)
        ensures
            r == self.spec_get(id),
    {
        if (id.0 as usize) < MAX_PLAYERS {
            self.inner[id.0 as usize]
        } else {
            None
        }
    }

    /// Whether a value is stored for `id`.
    pub fn contains(&self, id: PlayerId) -> (r: bool)
        ensures
            r == (self.spec_get(id) is Some),
    {
        self.get(id).is_some()
    }

    /// The number of occupied slots.
    pub fn count_populated(&self) -> (r: usize)
        ensures
            r == self.spec_count_populated(),
            r <= MAX_PLAYERS,
    {
        let mut n: usize = 0;
        let mut i: usize = 0;
        while i < MAX_PLAYERS
            invariant
                i <= MAX_PLAYERS,
                n == self.count_below(i as int),
                n <= i,
            decreases MAX_PLAYERS - i,
        {
            if self.inner[i].is_some() {
                n = n + 1;
            }
            i = i + 1;
        }
        n
    }

    /// The lowest id whose slot is empty, or `None` when the map is full.
    pub fn next_free(&self) -> (r: Option<PlayerId>)
        ensures
            r == self.first_free_from(0),
            r matches Some(id) ==> id.0 < MAX_PLAYERS && self.spec_get(id) is None,
    {
        let mut i: usize = 0;
        while i < MAX_PLAYERS
            invariant
                i <= MAX_PLAYERS,
                self.first_free_from(0) == self.first_free_from(i as int),
            decreases MAX_PLAYERS - i,
        {
            if self.inner[i].is_none() {
                return Some(PlayerId(i as u8));
            }
            i = i + 1;
        }
        None
    }
}

} // verus!
