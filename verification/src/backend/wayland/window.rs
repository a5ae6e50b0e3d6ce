//! Windows and their buffers.

use vstd::prelude::*;

use super::dmabuf::{entry_position, find_entry, BufferEntry};
use super::AllocateBuffersError;

verus! {

/// The id of a window.
#[derive(Clone, Copy, Debug, PartialEq, Eq, PartialOrd, Ord, Hash, Structural)]
pub struct WindowId(pub usize);

/// The size of a window.
#[derive(Clone, Copy, Debug, PartialEq, Eq, Structural)]
pub struct WindowSize {
    pub w: u32,
    pub h: u32,
}

/// A slot of the swapchain that was acquired.
#[derive(Clone, Copy, Debug, PartialEq, Eq, Structural)]
pub struct Slot {
    pub id: u64,
    /// How many frames ago the contents were shown.
    pub age: u8,
    /// The buffer of the compositor, if one was created for the slot.
    pub wl_buffer: Option<u64>,
    /// The size of the slot, unless its device is gone.
    pub size: Option<WindowSize>,
}

/// The buffers of a window.
#[derive(Debug)]
pub struct Data {
    pub current_size: WindowSize,
    /// The size that the swapchain has yet to get.
    pub new_size: Option<WindowSize>,
    /// The slot that is drawn next.
    pub buffer: Option<Slot>,
    /// Whether the slot was handed out to be drawn.
    pub handed_out: bool,
    /// The buffers of the current swapchain.
    pub current_buffers: Vec<u64>,
    /// Buffers that are destroyed once they are free.
    pub pending_destruction: Vec<u64>,
}

/// What is done before a buffer is handed out.
#[derive(Debug)]
pub struct BufferPlan {
    /// The new size of the swapchain.
    pub resize: Option<WindowSize>,
    /// The buffers that are destroyed.
    pub destroy: Vec<u64>,
    /// Whether a slot has to be acquired.
    pub acquire: bool,
}

/// Whether a buffer is still in use.
pub open spec fn in_use(entries: Seq<BufferEntry>, buffer: u64) -> bool {
    let at = entry_position(entries, buffer);
    at < entries.len() && !entries[at].free
}

/// Whether a buffer can be destroyed: one that is known and free.
pub open spec fn is_free(entries: Seq<BufferEntry>, buffer: u64) -> bool {
    let at = entry_position(entries, buffer);
    at < entries.len() && entries[at].free
}

/// The buffers that have to wait.
pub open spec fn waiting(buffers: Seq<u64>, entries: Seq<BufferEntry>) -> Seq<u64>
    decreases buffers.len(),
{
    if buffers.len() == 0 {
        Seq::empty()
    } else if in_use(entries, buffers.last()) {
        waiting(buffers.drop_last(), entries).push(buffers.last())
    } else {
        waiting(buffers.drop_last(), entries)
    }
}

/// The buffers that can be destroyed.
pub open spec fn destroyable(buffers: Seq<u64>, entries: Seq<BufferEntry>) -> Seq<u64>
    decreases buffers.len(),
{
    if buffers.len() == 0 {
        Seq::empty()
    } else if is_free(entries, buffers.last()) {
        destroyable(buffers.drop_last(), entries).push(buffers.last())
    } else {
        destroyable(buffers.drop_last(), entries)
    }
}

fn append(to: &mut Vec<u64>, from: &mut Vec<u64>)
    ensures
        final(to)@ == old(to)@ + old(from)@,
        final(from)@ == Seq::<u64>::empty(),
{
    to.append(from);
}

impl Data {
    /// A window without buffers.
    pub fn new() -> (data: Data)
        ensures
            data.current_size == (WindowSize { w: 0, h: 0 }),
            data.new_size is None,
            data.buffer is None,
            !data.handed_out,
            data.current_buffers@ == Seq::<u64>::empty(),
            data.pending_destruction@ == Seq::<u64>::empty(),
    {
        Data {
            current_size: WindowSize { w: 0, h: 0 },
            new_size: None,
            buffer: None,
            handed_out: false,
            current_buffers: Vec::new(),
            pending_destruction: Vec::new(),
        }
    }

    /// The compositor gave the window a size; tells whether it is a new one.
    pub fn configure(&mut self, size: WindowSize) -> (resized: bool)
        ensures
            resized == (old(self).current_size != size),
            *final(self) == (if resized {
                Data { current_size: size, new_size: Some(size), ..*old(self) }
            } else {
                *old(self)
            }),
            old(self).keeps_handed(*final(self)),
    {
        if self.current_size == size {
            return false;
        }
        self.current_size = size;
        self.new_size = Some(size);
        true
    }

    /// The slot that was handed out, until it is submitted or all buffers are given up.
    pub open spec fn handed(self) -> Option<u64> {
        match self.buffer {
            Some(slot) if self.handed_out => Some(slot.id),
            _ => None,
        }
    }

    /// Whether a slot that was handed out still is in the other state.
    pub open spec fn keeps_handed(self, after: Data) -> bool {
        self.handed() is Some ==> after.handed() == self.handed()
    }

    /// Whether the swapchain gets its new size. That has to wait while a buffer is handed out.
    pub open spec fn resizes(self) -> bool {
        self.new_size is Some && !self.handed_out
    }

    /// The buffers that may be destroyed, once the old swapchain is given up for a new size.
    pub open spec fn retired(self) -> Seq<u64> {
        if self.resizes() {
            self.pending_destruction@ + self.current_buffers@
        } else {
            self.pending_destruction@
        }
    }

    /// Gets ready to hand out a buffer: a new size gives up all buffers, unless one of them is
    /// handed out, and buffers that were given up are destroyed as far as they are free.
    pub fn prepare_buffer(&mut self, entries: &Vec<BufferEntry>) -> (plan: BufferPlan)
        ensures
            plan.resize == (if old(self).resizes() {
                old(self).new_size
            } else {
                None
            }),
            plan.destroy@ == destroyable(old(self).retired(), entries@),
            plan.acquire == final(self).buffer.is_none(),
            final(self).pending_destruction@ == waiting(old(self).retired(), entries@),
            final(self).new_size == (if old(self).resizes() {
                None
            } else {
                old(self).new_size
            }),
            final(self).current_size == old(self).current_size,
            final(self).handed_out == old(self).handed_out,
            old(self).keeps_handed(*final(self)),
            final(self).buffer == (if old(self).resizes() {
                None
            } else {
                old(self).buffer
            }),
            final(self).current_buffers@ == (if old(self).resizes() {
                Seq::empty()
            } else {
                old(self).current_buffers@
            }),
    {
        let resize: Option<WindowSize> = if self.handed_out {
            None
        } else {
            self.new_size
        };
        if resize.is_some() {
            self.new_size = None;
            self.buffer = None;
            append(&mut self.pending_destruction, &mut self.current_buffers);
        }
        let ghost all = self.pending_destruction@;
        assert(all == old(self).retired());
        let mut destroy: Vec<u64> = Vec::new();
        let mut keep: Vec<u64> = Vec::new();
        assert(all.take(0) =~= Seq::<u64>::empty());
        for i in 0..self.pending_destruction.len()
            invariant
                all == self.pending_destruction@,
                destroy@ == destroyable(all.take(i as int), entries@),
                keep@ == waiting(all.take(i as int), entries@),
        {
            assert(all.take(i as int + 1).drop_last() =~= all.take(i as int));
            let buffer: u64 = self.pending_destruction[i];
            if let Some(at) = find_entry(entries, buffer) {
                if entries[at].free {
                    destroy.push(buffer);
                } else {
                    keep.push(buffer);
                }
            }
        }
        assert(all.take(all.len() as int) =~= all);
        self.pending_destruction = keep;
        BufferPlan { resize, destroy, acquire: self.buffer.is_none() }
    }

    /// Takes a slot of the swapchain where none is at hand.
    pub fn acquired(&mut self, outcome: Result<Option<Slot>, i32>) -> (r: Result<
        (),
        AllocateBuffersError,
    >)
        requires
            old(self).buffer is None,
        ensures
            final(self).handed_out == old(self).handed_out,
            old(self).keeps_handed(*final(self)),
            final(self).current_size == old(self).current_size,
            final(self).new_size == old(self).new_size,
            final(self).current_buffers == old(self).current_buffers,
            final(self).pending_destruction == old(self).pending_destruction,
            match outcome {
                Ok(Some(slot)) => r == Ok::<(), AllocateBuffersError>(()) && final(self).buffer
                    == Some(slot),
                Ok(None) => r == Err::<(), AllocateBuffersError>(
                    AllocateBuffersError::NoFreeSlots,
                ) && final(self).buffer == old(self).buffer,
                Err(code) => r == Err::<(), AllocateBuffersError>(
                    AllocateBuffersError::Open(code),
                ) && final(self).buffer == old(self).buffer,
            },
    {
        match outcome {
            Ok(Some(slot)) => {
                self.buffer = Some(slot);
                Ok(())
            },
            Ok(None) => Err(AllocateBuffersError::NoFreeSlots),
            Err(code) => Err(AllocateBuffersError::Open(code)),
        }
    }

    /// A buffer of the compositor was created for the slot that is handed out; it is kept from
    /// being freed.
    pub fn created(&mut self, wl_buffer: u64)
        requires
            old(self).buffer is Some,
        ensures
            final(self).buffer == Some(
                Slot { wl_buffer: Some(wl_buffer), ..old(self).buffer->0 },
            ),
            final(self).handed_out == old(self).handed_out,
            old(self).keeps_handed(*final(self)),
            final(self).current_buffers@ == old(self).current_buffers@.push(wl_buffer),
            final(self).pending_destruction == old(self).pending_destruction,
            final(self).current_size == old(self).current_size,
            final(self).new_size == old(self).new_size,
    {
        if let Some(slot) = self.buffer {
            self.buffer = Some(
                Slot {
                    id: slot.id,
                    age: slot.age,
                    wl_buffer: Some(wl_buffer),
                    size: slot.size,
                },
            );
        }
        self.current_buffers.push(wl_buffer);
    }

    /// Hands out the slot at hand. It stays the one that is handed out until it is submitted or
    /// all buffers are given up.
    pub fn hand_out(&mut self) -> (slot: Slot)
        requires
            old(self).buffer is Some,
        ensures
            old(self).buffer == Some(slot),
            *final(self) == (Data { handed_out: true, ..*old(self) }),
            final(self).handed() == Some(slot.id),
            old(self).keeps_handed(*final(self)),
    {
        self.handed_out = true;
        match self.buffer {
            Some(slot) => slot,
            None => Slot { id: 0, age: 0, wl_buffer: None, size: None },
        }
    }

    /// The slot that is shown when the next one was acquired: the one that was drawn, or else
    /// the next one itself.
    pub open spec fn submitted(self, next: Slot) -> Slot {
        match self.buffer {
            Some(current) => current,
            None => next,
        }
    }

    /// Shows the buffer that was drawn, and goes on with the next one. Gives the slot that is
    /// shown, with its buffer, which is marked as used, and its size.
    pub fn submit(&mut self, outcome: Result<Option<Slot>, i32>, entries: &mut Vec<BufferEntry>) -> (r:
        Result<(Slot, u64, WindowSize), AllocateBuffersError>)
        requires
            outcome matches Ok(Some(next)) ==> {
                let shown = old(self).submitted(next);
                shown.wl_buffer is Some && entry_position(old(entries)@, shown.wl_buffer->0)
                    < old(entries)@.len()
            },
        ensures
            final(self).current_size == old(self).current_size,
            final(self).new_size == old(self).new_size,
            final(self).current_buffers == old(self).current_buffers,
            final(self).pending_destruction == old(self).pending_destruction,
            !(outcome matches Ok(Some(_))) ==> old(self).keeps_handed(*final(self)),
            match outcome {
                Ok(Some(next)) => {
                    let shown = old(self).submitted(next);
                    let at = entry_position(old(entries)@, shown.wl_buffer->0);
                    &&& final(self).buffer == (if old(self).buffer is Some {
                        Some(next)
                    } else {
                        None
                    })
                    &&& !final(self).handed_out
                    &&& final(entries)@ == old(entries)@.update(
                        at,
                        BufferEntry { buffer: old(entries)@[at].buffer, free: false },
                    )
                    &&& r == (match shown.size {
                        Some(size) => Ok::<(Slot, u64, WindowSize), AllocateBuffersError>(
                            (shown, shown.wl_buffer->0, size),
                        ),
                        None => Err(AllocateBuffersError::DeviceDestroyed),
                    })
                },
                Ok(None) => r == Err::<(Slot, u64, WindowSize), AllocateBuffersError>(
                    AllocateBuffersError::NoFreeSlots,
                ) && final(self).buffer == old(self).buffer && final(self).handed_out
                    == old(self).handed_out && final(entries)@ == old(entries)@,
                Err(code) => r == Err::<(Slot, u64, WindowSize), AllocateBuffersError>(
                    AllocateBuffersError::Open(code),
                ) && final(self).buffer == old(self).buffer && final(self).handed_out
                    == old(self).handed_out && final(entries)@ == old(entries)@,
            },
    {
        let next: Slot = match outcome {
            Ok(Some(next)) => next,
            Ok(None) => {
                return Err(AllocateBuffersError::NoFreeSlots);
            },
            Err(code) => {
                return Err(AllocateBuffersError::Open(code));
            },
        };
        self.handed_out = false;
        let shown: Slot = match self.buffer {
            Some(current) => {
                self.buffer = Some(next);
                current
            },
            None => next,
        };
        let buffer: u64 = match shown.wl_buffer {
            Some(buffer) => buffer,
            None => 0,
        };
        if let Some(at) = find_entry(entries, buffer) {
            let known: u64 = entries[at].buffer;
            entries.set(at, BufferEntry { buffer: known, free: false });
        }
        match shown.size {
            Some(size) => Ok((shown, buffer, size)),
            None => Err(AllocateBuffersError::DeviceDestroyed),
        }
    }

    /// Gives up all buffers.
    pub fn reset_buffers(&mut self)
        ensures
            final(self).current_size == old(self).current_size,
            final(self).new_size == old(self).new_size,
            final(self).buffer is None,
            !final(self).handed_out,
            final(self).current_buffers@ == Seq::<u64>::empty(),
            final(self).pending_destruction@ == old(self).pending_destruction@
                + old(self).current_buffers@,
    {
        self.buffer = None;
        self.handed_out = false;
        append(&mut self.pending_destruction, &mut self.current_buffers);
    }
}

/// The same buffer is handed out until one is submitted or all are given up: every other
/// operation keeps what is handed out, so whatever comes between, the slot at hand stays the same
/// and none is acquired in its place.
pub proof fn same_buffer_until_submitted(states: Seq<Data>, i: int, j: int)
    requires
        0 <= i <= j < states.len(),
        states[i].handed() is Some,
        forall|k: int| i <= k < j ==> (#[trigger] states[k]).keeps_handed(states[k + 1]),
    ensures
        states[j].handed() == states[i].handed(),
        states[j].buffer is Some,
        Some(states[j].buffer->0.id) == states[i].handed(),
        !states[j].resizes(),
    decreases j,
{
    if i < j {
        same_buffer_until_submitted(states, i, j - 1);
        assert(states[j - 1].keeps_handed(states[j - 1 + 1]));
    }
}

/// No buffer that the compositor still uses is destroyed, and none of them is forgotten.
pub proof fn used_buffers_are_kept(buffers: Seq<u64>, entries: Seq<BufferEntry>, buffer: u64)
    requires
        in_use(entries, buffer),
    ensures
        !destroyable(buffers, entries).contains(buffer),
        buffers.contains(buffer) ==> waiting(buffers, entries).contains(buffer),
    decreases buffers.len(),
{
    if buffers.len() > 0 {
        let head = buffers.drop_last();
        used_buffers_are_kept(head, entries, buffer);
        let (s, t) = (waiting(head, entries), waiting(buffers, entries));
        if buffers.contains(buffer) {
            let j = choose|j: int| 0 <= j < buffers.len() && buffers[j] == buffer;
            if j < head.len() {
                assert(head[j] == buffer);
                let i = choose|i: int| 0 <= i < s.len() && s[i] == buffer;
                assert(t[i] == buffer);
            } else {
                assert(t[t.len() - 1] == buffer);
            }
        }
        let d = destroyable(buffers, entries);
        if d.contains(buffer) {
            let i = choose|i: int| 0 <= i < d.len() && d[i] == buffer;
            assert(i < destroyable(head, entries).len());
            assert(destroyable(head, entries)[i] == buffer);
        }
    }
}

/// The swapchain gets a new size exactly if there is one and no buffer is handed out. Then all
/// buffers may be destroyed, those that wait already before those of the old swapchain; otherwise
/// only those that wait already.
pub proof fn resize_waits_for_the_buffer(data: Data, buffer: u64)
    ensures
        data.resizes() <==> data.new_size is Some && !data.handed_out,
        data.handed() is Some ==> !data.resizes(),
        data.pending_destruction@.contains(buffer) ==> data.retired().contains(buffer),
        data.resizes() && data.current_buffers@.contains(buffer) ==> data.retired().contains(buffer),
        !data.resizes() ==> data.retired() == data.pending_destruction@,
        data.retired().contains(buffer) ==> data.pending_destruction@.contains(buffer)
            || data.current_buffers@.contains(buffer),
{
    let (p, c, all) = (data.pending_destruction@, data.current_buffers@, data.retired());
    if p.contains(buffer) {
        let i = choose|i: int| 0 <= i < p.len() && p[i] == buffer;
        assert(all[i] == buffer);
    }
    if data.resizes() && c.contains(buffer) {
        let i = choose|i: int| 0 <= i < c.len() && c[i] == buffer;
        assert(all[p.len() + i] == buffer);
    }
    if all.contains(buffer) {
        let i = choose|i: int| 0 <= i < all.len() && all[i] == buffer;
        if i < p.len() {
            assert(p[i] == buffer);
        } else {
            assert(c[i - p.len()] == buffer);
        }
    }
}

/// The slot that was drawn is shown, and only without one the slot that comes next. What is handed
/// out is the slot at hand.
pub proof fn drawn_slot_is_shown(data: Data, next: Slot)
    ensures
        data.buffer matches Some(slot) ==> data.submitted(next) == slot,
        data.buffer is None ==> data.submitted(next) == next,
        data.handed() is Some <==> data.handed_out && data.buffer is Some,
        data.handed() matches Some(id) ==> id == data.buffer->0.id,
{
}

} // verus!
