//! Fixed-capacity, generation-stamped slot table.
//!
//! Handles are `(index, generation)` pairs. A handle dereferences only while
//! the slot it names is occupied and still carries the handle's generation;
//! freeing a slot and reusing it bumps the generation, so a stale handle to
//! a reused slot never matches again.

use vstd::prelude::*;

verus! {

/// The generation a slot carries after it is reused once more.
pub open spec fn bump(g: u32) -> u32 {
    if g == 0xFFFF_FFFFu32 {
        0u32
    } else {
        (g + 1) as u32
    }
}

fn bump_exec(g: u32) -> (r: u32)
    ensures
        r == bump(g),
{
    if g == 0xFFFF_FFFF {
        0
    } else {
        g + 1
    }
}

/// A slot table with a capacity fixed at construction.
pub struct Arena<T> {
    generations: Vec<u32>,
    values: Vec<Option<T>>,
}

impl<T> Arena<T> {
    /// The two columns of the table stay aligned and indexable by `u32`.
    pub closed spec fn wf(self) -> bool {
        &&& self.generations.len() == self.values.len()
        &&& self.values.len() <= 0xFFFF_FFFF
    }

    /// How many slots the table was built with.
    pub closed spec fn capacity(self) -> int {
        self.values.len() as int
    }

    /// The generation currently stamped on a slot.
    pub closed spec fn gen_at(self, i: int) -> u32 {
        self.generations[i]
    }

    /// What a slot holds.
    pub closed spec fn slot_at(self, i: int) -> Option<T> {
        self.values[i]
    }

    /// Whether a slot holds a value.
    pub open spec fn occupied(self, i: int) -> bool {
        self.slot_at(i) is Some
    }

    /// Whether a handle currently dereferences.
    pub open spec fn live(self, index: u32, generation: u32) -> bool {
        &&& (index as int) < self.capacity()
        &&& self.occupied(index as int)
        &&& self.gen_at(index as int) == generation
    }

    /// The number of occupied slots among the first `n`.
    pub open spec fn count_up_to(self, n: int) -> int
        decreases n,
    {
        if n <= 0 {
            0
        } else {
            self.count_up_to(n - 1) + if self.occupied(n - 1) {
                1int
            } else {
                0int
            }
        }
    }

    /// The number of occupied slots.
    pub open spec fn count(self) -> int {
        self.count_up_to(self.capacity())
    }

    /// However the table is driven, it never holds more values than its
    /// configured capacity.
    pub proof fn lemma_count_within_capacity(self)
        ensures
            0 <= self.count() <= self.capacity(),
    {
        self.lemma_count_up_to_bounds(self.capacity());
    }

    proof fn lemma_count_up_to_bounds(self, n: int)
        ensures
            0 <= self.count_up_to(n) <= if n <= 0 {
                0int
            } else {
                n
            },
        decreases n,
    {
        if n > 0 {
            self.lemma_count_up_to_bounds(n - 1);
        }
    }

    /// Build a table of `capacity` vacant slots.
    pub fn new(capacity: usize) -> (arena: Arena<T>)
        requires
            capacity <= 0xFFFF_FFFF,
        ensures
            arena.wf(),
            arena.capacity() == capacity,
            forall|i: int| 0 <= i < capacity ==> !arena.occupied(i),
            forall|i: int| 0 <= i < capacity ==> arena.gen_at(i) == 0u32,
    {
        let mut generations: Vec<u32> = Vec::new();
        let mut values: Vec<Option<T>> = Vec::new();
        let mut i: usize = 0;
        while i < capacity
            invariant
                i <= capacity,
                generations.len() == i,
                values.len() == i,
                forall|j: int| 0 <= j < i ==> generations[j] == 0u32,
                forall|j: int| 0 <= j < i ==> values[j] is None,
            decreases capacity - i,
        {
            generations.push(0);
            values.push(None);
            i = i + 1;
        }
        Arena { generations, values }
    }

    /// Store a value in the first vacant slot, stamping it with a fresh
    /// generation, and hand back the new handle; fail exactly when the
    /// table is full.
    pub fn allocate(&mut self, value: T) -> (r: Option<(u32, u32)>)
        requires
            old(self).wf(),
        ensures
            final(self).wf(),
            final(self).capacity() == old(self).capacity(),
            match r {
                Some((index, generation)) => {
                    &&& (index as int) < old(self).capacity()
                    &&& !old(self).occupied(index as int)
                    &&& generation == bump(old(self).gen_at(index as int))
                    &&& final(self).gen_at(index as int) == generation
                    &&& final(self).slot_at(index as int) == Some(value)
                    &&& forall|j: int|
                        0 <= j < old(self).capacity() && j != index as int ==> final(self).gen_at(j)
                            == old(self).gen_at(j) && final(self).slot_at(j) == old(self).slot_at(
                            j,
                        )
                },
                None => {
                    &&& *final(self) == *old(self)
                    &&& forall|j: int| 0 <= j < old(self).capacity() ==> old(self).occupied(j)
                },
            },
    {
        let n = self.values.len();
        let mut i: usize = 0;
        while i < n
            invariant
                self.wf(),
                n == self.values.len(),
                i <= n,
                *self == *old(self),
                forall|j: int| 0 <= j < i ==> self.occupied(j),
            decreases n - i,
        {
            let vacant = match &self.values[i] {
                Option::None => true,
                Option::Some(_) => false,
            };
            if vacant {
                let generation = bump_exec(self.generations[i]);
                self.generations[i] = generation;
                self.values[i] = Some(value);
                return Some((i as u32, generation));
            }
            i = i + 1;
        }
        None
    }

    /// Store a value under a handle whose index and generation the
    /// controller side chose, replacing whatever the slot held; fails only
    /// when the index lies outside the table.
    pub fn insert_at(&mut self, index: u32, generation: u32, value: T) -> (ok: bool)
        requires
            old(self).wf(),
        ensures
            final(self).wf(),
            final(self).capacity() == old(self).capacity(),
            ok <==> (index as int) < old(self).capacity(),
            ok ==> final(self).gen_at(index as int) == generation && final(self).slot_at(
                index as int,
            ) == Some(value) && forall|j: int|
                0 <= j < old(self).capacity() && j != index as int ==> final(self).gen_at(j)
                    == old(self).gen_at(j) && final(self).slot_at(j) == old(self).slot_at(j),
            !ok ==> *final(self) == *old(self),
    {
        let i = index as usize;
        if i < self.generations.len() {
            self.generations[i] = generation;
            self.values[i] = Some(value);
            true
        } else {
            false
        }
    }

    /// Fetch the value a handle names, or nothing when the handle is stale
    /// or the slot is vacant.
    pub fn get(&self, index: u32, generation: u32) -> (r: Option<&T>)
        requires
            self.wf(),
        ensures
            match r {
                Some(v) => self.live(index, generation) && self.slot_at(index as int) == Some(*v),
                None => !self.live(index, generation),
            },
    {
        let i = index as usize;
        if i < self.generations.len() && self.generations[i] == generation {
            match &self.values[i] {
                Option::Some(v) => Some(v),
                Option::None => None,
            }
        } else {
            None
        }
    }

    /// Vacate the slot a handle names, keeping its generation stamp, and
    /// hand the value back; stale handles change nothing.
    pub fn remove(&mut self, index: u32, generation: u32) -> (r: Option<T>)
        requires
            old(self).wf(),
        ensures
            final(self).wf(),
            final(self).capacity() == old(self).capacity(),
            forall|j: int|
                0 <= j < old(self).capacity() ==> final(self).gen_at(j) == old(self).gen_at(j),
            if old(self).live(index, generation) {
                &&& r == old(self).slot_at(index as int)
                &&& r is Some
                &&& !final(self).occupied(index as int)
                &&& forall|j: int|
                    0 <= j < old(self).capacity() && j != index as int ==> final(self).slot_at(j)
                        == old(self).slot_at(j)
            } else {
                &&& r is None
                &&& forall|j: int|
                    0 <= j < old(self).capacity() ==> final(self).slot_at(j) == old(self).slot_at(
                        j,
                    )
            },
    {
        let i = index as usize;
        if i < self.generations.len() && self.generations[i] == generation {
            self.take_at(i)
        } else {
            None
        }
    }

    /// Pull the value out of a slot by bare index, leaving the generation
    /// stamp in place.
    pub fn take_at(&mut self, index: usize) -> (r: Option<T>)
        requires
            old(self).wf(),
            (index as int) < old(self).capacity(),
        ensures
            final(self).wf(),
            final(self).capacity() == old(self).capacity(),
            r == old(self).slot_at(index as int),
            !final(self).occupied(index as int),
            forall|j: int|
                0 <= j < old(self).capacity() ==> final(self).gen_at(j) == old(self).gen_at(j),
            forall|j: int|
                0 <= j < old(self).capacity() && j != index as int ==> final(self).slot_at(j)
                    == old(self).slot_at(j),
    {
        self.values.push(None);
        let taken = self.values.swap_remove(index);
        taken
    }

    /// Refill a vacated slot by bare index without touching its generation
    /// stamp.
    pub fn put_at(&mut self, index: usize, value: T)
        requires
            old(self).wf(),
            (index as int) < old(self).capacity(),
            !old(self).occupied(index as int),
        ensures
            final(self).wf(),
            final(self).capacity() == old(self).capacity(),
            final(self).slot_at(index as int) == Some(value),
            forall|j: int|
                0 <= j < old(self).capacity() ==> final(self).gen_at(j) == old(self).gen_at(j),
            forall|j: int|
                0 <= j < old(self).capacity() && j != index as int ==> final(self).slot_at(j)
                    == old(self).slot_at(j),
    {
        self.values[index] = Some(value);
    }

    /// The value a slot holds, by bare index.
    pub fn get_at_index(&self, index: usize) -> (r: Option<&T>)
        requires
            self.wf(),
            (index as int) < self.capacity(),
        ensures
            match r {
                Some(v) => self.slot_at(index as int) == Some(*v),
                None => !self.occupied(index as int),
            },
    {
        match &self.values[index] {
            Option::Some(v) => Some(v),
            Option::None => None,
        }
    }

    /// How many slots the table was built with, as a machine word.
    pub fn capacity_exec(&self) -> (n: usize)
        requires
            self.wf(),
        ensures
            n as int == self.capacity(),
    {
        self.values.len()
    }

    /// The generation currently stamped on a slot, by bare index.
    pub fn generation_at(&self, index: usize) -> (g: u32)
        requires
            self.wf(),
            (index as int) < self.capacity(),
        ensures
            g == self.gen_at(index as int),
    {
        self.generations[index]
    }

    /// Whether a slot holds a value, by bare index.
    pub fn occupied_at(&self, index: usize) -> (b: bool)
        requires
            self.wf(),
            (index as int) < self.capacity(),
        ensures
            b == self.occupied(index as int),
    {
        match &self.values[index] {
            Option::Some(_) => true,
            Option::None => false,
        }
    }
}

/// A slot freed and then reused never revives a stale handle: the slot is
/// vacant after the free, and after the reuse it carries the bumped
/// generation, which never equals the stale one.
pub proof fn lemma_stale_handle_stays_dead<T>(
    freed: Arena<T>,
    reused: Arena<T>,
    index: u32,
    generation: u32,
)
    requires
        (index as int) < freed.capacity(),
        !freed.occupied(index as int),
        freed.gen_at(index as int) == generation,
        reused.gen_at(index as int) == bump(generation),
    ensures
        !freed.live(index, generation),
        !reused.live(index, generation),
{
}

} // verus!
