//! Descriptor sets, taken from pools that grow.

use vstd::prelude::*;

verus! {

/// The size of the first pool.
pub const START_DESCRIPTOR_COUNT: u32 = 256;

/// The result code of a pool with free sets that are too scattered.
pub const ERROR_FRAGMENTED_POOL: i32 = -12;

/// The result code of a pool without free sets.
pub const ERROR_OUT_OF_POOL_MEMORY: i32 = -1000069000;

/// Why no descriptor set could be had.
#[derive(Clone, Copy, Debug, PartialEq, Eq, Structural)]
pub enum Error {
    /// The device was destroyed.
    LostDevice,
    /// A set could not be allocated.
    AllocError(i32),
    /// A pool could not be created.
    DescriptorPool(i32),
}

/// A pool of descriptor sets.
#[derive(Clone, Copy, Debug, PartialEq, Eq, Structural)]
pub struct Pool {
    pub len: usize,
    pub capacity: usize,
}

/// What is to be done next for a descriptor set.
#[derive(Clone, Copy, Debug, PartialEq, Eq, Structural)]
pub enum AllocAction {
    /// A set is allocated from the pool at the position.
    TryPool(usize),
    /// A pool of the size is created.
    CreatePool(u32),
}

/// The first pool from `from` on that is not full, or the length if there is none.
pub open spec fn open_pool(pools: Seq<Pool>, from: int) -> int
    decreases pools.len() - from,
{
    if from >= pools.len() {
        pools.len() as int
    } else if pools[from].len < pools[from].capacity {
        from
    } else {
        open_pool(pools, from + 1)
    }
}

/// The size of the next pool: twice that of the last.
pub open spec fn next_size(pools: Seq<Pool>) -> int {
    if pools.len() == 0 {
        START_DESCRIPTOR_COUNT as int
    } else {
        pools.last().capacity * 2
    }
}

/// No pool is overfull, and each is twice as large as the one before.
pub open spec fn pools_valid(pools: Seq<Pool>) -> bool {
    &&& forall|i: int|
        0 <= i < pools.len() ==> (#[trigger] pools[i]).len <= pools[i].capacity && pools[i].capacity
            <= u32::MAX
    &&& pools.len() > 0 ==> pools[0].capacity == START_DESCRIPTOR_COUNT
    &&& forall|i: int, j: int|
        0 <= i && j == i + 1 && j < pools.len() ==> #[trigger] pools[j].capacity
            == (#[trigger] pools[i]).capacity * 2
}

/// The pools from which descriptor sets of one layout are allocated.
#[derive(Debug)]
pub struct DescriptorAllocator {
    pub pools: Vec<Pool>,
}

impl DescriptorAllocator {
    pub fn new() -> (allocator: DescriptorAllocator)
        ensures
            allocator.pools@ == Seq::<Pool>::empty(),
            pools_valid(allocator.pools@),
    {
        DescriptorAllocator { pools: Vec::new() }
    }

    /// What is to be done for a set, once the pools before `from` were tried: the next pool
    /// that is not full, or else a new one. Nothing can be done once the device is gone.
    pub fn alloc_descriptor_set(&self, device_exists: bool, from: usize) -> (r: Result<
        AllocAction,
        Error,
    >)
        requires
            open_pool(self.pools@, from as int) >= self.pools@.len() ==> next_size(self.pools@)
                <= u32::MAX,
        ensures
            r == (if !device_exists {
                Err::<AllocAction, Error>(Error::LostDevice)
            } else if open_pool(self.pools@, from as int) < self.pools@.len() {
                Ok(AllocAction::TryPool(open_pool(self.pools@, from as int) as usize))
            } else {
                Ok(AllocAction::CreatePool(next_size(self.pools@) as u32))
            }),
    {
        if !device_exists {
            return Err(Error::LostDevice);
        }
        let mut i: usize = from;
        while i < self.pools.len()
            invariant
                open_pool(self.pools@, from as int) == open_pool(self.pools@, i as int),
                device_exists,
            decreases self.pools@.len() - i,
        {
            if self.pools[i].len < self.pools[i].capacity {
                return Ok(AllocAction::TryPool(i));
            }
            i = i + 1;
        }
        if self.pools.len() == 0 {
            Ok(AllocAction::CreatePool(START_DESCRIPTOR_COUNT))
        } else {
            let last: usize = self.pools[self.pools.len() - 1].capacity;
            Ok(AllocAction::CreatePool((last * 2) as u32))
        }
    }

    /// Takes the outcome of allocating from a pool that was not full: a set counts, a pool
    /// that turns out unusable is passed over (`false`), every other error ends the search.
    pub fn tried(&mut self, pool: usize, outcome: Result<(), i32>) -> (r: Result<bool, Error>)
        requires
            pools_valid(old(self).pools@),
            pool < old(self).pools@.len(),
            old(self).pools@[pool as int].len < old(self).pools@[pool as int].capacity,
        ensures
            pools_valid(final(self).pools@),
            match outcome {
                Ok(_) => r == Ok::<bool, Error>(true) && final(self).pools@
                    == old(self).pools@.update(
                    pool as int,
                    Pool {
                        len: (old(self).pools@[pool as int].len + 1) as usize,
                        capacity: old(self).pools@[pool as int].capacity,
                    },
                ),
                Err(e) => final(self).pools@ == old(self).pools@ && r == (if e
                    == ERROR_FRAGMENTED_POOL || e == ERROR_OUT_OF_POOL_MEMORY {
                    Ok(false)
                } else {
                    Err(Error::AllocError(e))
                }),
            },
    {
        match outcome {
            Ok(_) => {
                let used = self.pools[pool];
                self.pools.set(pool, Pool { len: used.len + 1, capacity: used.capacity });
                proof {
                    let (a, b) = (old(self).pools@, self.pools@);
                    assert forall|i: int, j: int|
                        0 <= i && j == i + 1 && j < b.len() implies #[trigger] b[j].capacity == (
                    #[trigger] b[i]).capacity * 2 by {
                        assert(a[j].capacity == a[i].capacity * 2);
                    }
                }
                Ok(true)
            },
            Err(e) => if e == ERROR_FRAGMENTED_POOL || e == ERROR_OUT_OF_POOL_MEMORY {
                Ok(false)
            } else {
                Err(Error::AllocError(e))
            },
        }
    }

    /// Takes the outcome of creating a pool of the next size.
    pub fn created(&mut self, outcome: Result<(), i32>) -> (r: Result<usize, Error>)
        requires
            pools_valid(old(self).pools@),
            next_size(old(self).pools@) <= u32::MAX,
        ensures
            pools_valid(final(self).pools@),
            match outcome {
                Ok(_) => {
                    &&& r == Ok::<usize, Error>(old(self).pools@.len() as usize)
                    &&& final(self).pools@ == old(self).pools@.push(
                        Pool { len: 0, capacity: next_size(old(self).pools@) as usize },
                    )
                },
                Err(e) => r == Err::<usize, Error>(Error::DescriptorPool(e)) && final(self).pools@
                    == old(self).pools@,
            },
    {
        match outcome {
            Ok(_) => {
                let at: usize = self.pools.len();
                let capacity: usize = if at == 0 {
                    START_DESCRIPTOR_COUNT as usize
                } else {
                    self.pools[at - 1].capacity * 2
                };
                self.pools.push(Pool { len: 0, capacity });
                proof {
                    let (a, b) = (old(self).pools@, self.pools@);
                    assert forall|i: int, j: int|
                        0 <= i && j == i + 1 && j < b.len() implies #[trigger] b[j].capacity == (
                    #[trigger] b[i]).capacity * 2 by {
                        if j < a.len() {
                            assert(a[j].capacity == a[i].capacity * 2);
                        }
                    }
                }
                Ok(at)
            },
            Err(e) => Err(Error::DescriptorPool(e)),
        }
    }

    /// Takes the outcome of allocating from a pool that was just created; here every error
    /// ends the search.
    pub fn tried_new(&mut self, outcome: Result<(), i32>) -> (r: Result<(), Error>)
        requires
            pools_valid(old(self).pools@),
            old(self).pools@.len() > 0,
            old(self).pools@.last().len < old(self).pools@.last().capacity,
        ensures
            pools_valid(final(self).pools@),
            match outcome {
                Ok(_) => r == Ok::<(), Error>(()) && final(self).pools@ == old(self).pools@.update(
                    old(self).pools@.len() - 1,
                    Pool {
                        len: (old(self).pools@.last().len + 1) as usize,
                        capacity: old(self).pools@.last().capacity,
                    },
                ),
                Err(e) => r == Err::<(), Error>(Error::AllocError(e)) && final(self).pools@
                    == old(self).pools@,
            },
    {
        match outcome {
            Ok(_) => {
                let at: usize = self.pools.len() - 1;
                match self.tried(at, Ok(())) {
                    Ok(_) => Ok(()),
                    Err(e) => Err(e),
                }
            },
            Err(e) => Err(Error::AllocError(e)),
        }
    }
}

/// The search passes over full pools only, and ends with a new pool exactly if all that were
/// not tried yet are full.
pub proof fn search_is_complete(pools: Seq<Pool>, from: int)
    requires
        0 <= from <= pools.len(),
    ensures
        from <= open_pool(pools, from) <= pools.len(),
        forall|i: int|
            from <= i < open_pool(pools, from) ==> (#[trigger] pools[i]).len >= pools[i].capacity,
        open_pool(pools, from) < pools.len() ==> pools[open_pool(pools, from)].len
            < pools[open_pool(pools, from)].capacity,
    decreases pools.len() - from,
{
    if from < pools.len() && pools[from].len >= pools[from].capacity {
        search_is_complete(pools, from + 1);
    }
}

} // verus!
