//! Command buffers that were submitted and may still be in use.

use std::collections::VecDeque;

use vstd::prelude::*;

use super::Error;

verus! {

/// A submitted command buffer.
#[derive(Clone, Copy, Debug, PartialEq, Eq, Structural)]
pub struct PendingBuffer {
    /// The number of the submission.
    pub seq: u64,
    pub buffer: u64,
    /// The descriptor set that the buffer uses.
    pub descriptor: Option<u64>,
}

/// The number of leading submissions that are not after `seq`.
pub open spec fn finished(pending: Seq<PendingBuffer>, seq: u64) -> int
    decreases pending.len(),
{
    if pending.len() == 0 || pending.first().seq > seq {
        0
    } else {
        1 + finished(pending.drop_first(), seq)
    }
}

/// The submissions come in the order of their numbers.
pub open spec fn in_order(pending: Seq<PendingBuffer>) -> bool {
    forall|i: int, j: int|
        0 <= i < j < pending.len() ==> (#[trigger] pending[i]).seq < (#[trigger] pending[j]).seq
}

/// The submitted command buffers of a renderer.
#[derive(Debug)]
pub struct CommandPool {
    pub pending_buffers: VecDeque<PendingBuffer>,
}

impl CommandPool {
    pub fn new() -> (pool: CommandPool)
        ensures
            pool.pending_buffers@ == Seq::<PendingBuffer>::empty(),
    {
        CommandPool { pending_buffers: VecDeque::new() }
    }

    /// A new command buffer, which is allocated and then begun, as long as the device exists.
    pub fn create_and_begin_buffer(
        device_exists: bool,
        allocated: Result<u64, i32>,
        begun: Result<(), i32>,
    ) -> (r: Result<u64, Error>)
        ensures
            r == (if !device_exists {
                Err::<u64, Error>(Error::DeadDevice)
            } else {
                match (allocated, begun) {
                    (Err(code), _) => Err(Error::CommandBufferError(code)),
                    (Ok(_), Err(code)) => Err(Error::CommandBufferError(code)),
                    (Ok(buffer), Ok(_)) => Ok(buffer),
                }
            }),
    {
        if !device_exists {
            return Err(Error::DeadDevice);
        }
        match allocated {
            Err(code) => Err(Error::CommandBufferError(code)),
            Ok(buffer) => match begun {
                Err(code) => Err(Error::CommandBufferError(code)),
                Ok(_) => Ok(buffer),
            },
        }
    }

    /// Keeps a buffer until its submission is through.
    pub fn store_pending_buffer(&mut self, buffer: u64, seq: u64, descriptor: Option<u64>)
        ensures
            final(self).pending_buffers@ == old(self).pending_buffers@.push(
                PendingBuffer { seq, buffer, descriptor },
            ),
    {
        self.pending_buffers.push_back(PendingBuffer { seq, buffer, descriptor });
    }

    /// Gives up the buffers at the front whose submissions are through, that is not after
    /// `seq`; returns them to be freed.
    pub fn clean_old_buffers(&mut self, seq: u64) -> (done: Vec<PendingBuffer>)
        ensures
            done@ == old(self).pending_buffers@.take(finished(old(self).pending_buffers@, seq)),
            final(self).pending_buffers@ == old(self).pending_buffers@.skip(
                finished(old(self).pending_buffers@, seq),
            ),
    {
        let ghost all = self.pending_buffers@;
        proof {
            finished_is_prefix(all, seq);
        }
        let mut done: Vec<PendingBuffer> = Vec::new();
        let mut through: bool = self.pending_buffers.len() > 0 && self.pending_buffers[0].seq
            <= seq;
        assert(all.skip(0) =~= all);
        assert(all.take(0) =~= Seq::<PendingBuffer>::empty());
        while through
            invariant
                done@.len() <= all.len(),
                done@ == all.take(done@.len() as int),
                self.pending_buffers@ == all.skip(done@.len() as int),
                finished(all, seq) == done@.len() + finished(self.pending_buffers@, seq),
                through == (self.pending_buffers@.len() > 0 && self.pending_buffers@[0].seq <= seq),
            decreases self.pending_buffers@.len(),
        {
            let ghost before = self.pending_buffers@;
            if let Some(first) = self.pending_buffers.pop_front() {
                done.push(first);
                proof {
                    assert(self.pending_buffers@ =~= before.drop_first());
                    assert(self.pending_buffers@ =~= all.skip(done@.len() as int));
                    assert(done@ =~= all.take(done@.len() as int));
                }
            }
            through = self.pending_buffers.len() > 0 && self.pending_buffers[0].seq <= seq;
        }
        done
    }
}

/// The finished submissions are a prefix: all of it is through, and what follows it is not.
pub proof fn finished_is_prefix(pending: Seq<PendingBuffer>, seq: u64)
    ensures
        0 <= finished(pending, seq) <= pending.len(),
        forall|i: int| 0 <= i < finished(pending, seq) ==> (#[trigger] pending[i]).seq <= seq,
        finished(pending, seq) < pending.len() ==> pending[finished(pending, seq)].seq > seq,
    decreases pending.len(),
{
    if pending.len() > 0 && pending.first().seq <= seq {
        let tail = pending.drop_first();
        finished_is_prefix(tail, seq);
        assert forall|i: int| 0 <= i < finished(pending, seq) implies (#[trigger] pending[i]).seq
            <= seq by {
            if i > 0 {
                assert(tail[i - 1] == pending[i]);
            }
        }
    }
}

/// Of submissions in order, exactly those that are through are given up.
pub proof fn cleaning_is_exact(pending: Seq<PendingBuffer>, seq: u64, i: int)
    requires
        in_order(pending),
        0 <= i < pending.len(),
    ensures
        i < finished(pending, seq) <==> pending[i].seq <= seq,
        in_order(pending.skip(finished(pending, seq))),
{
    finished_is_prefix(pending, seq);
    let k = finished(pending, seq);
    if i >= k {
        if i > k {
            assert(pending[k].seq < pending[i].seq);
        }
    }
    let rest = pending.skip(k);
    assert forall|a: int, b: int| 0 <= a < b < rest.len() implies (#[trigger] rest[a]).seq < (
    #[trigger] rest[b]).seq by {
        assert(pending[a + k].seq < pending[b + k].seq);
    }
}

/// A newer submission behind those in order keeps them in order.
pub proof fn newer_submission_keeps_order(pending: Seq<PendingBuffer>, newer: PendingBuffer)
    requires
        in_order(pending),
        forall|i: int| 0 <= i < pending.len() ==> (#[trigger] pending[i]).seq < newer.seq,
    ensures
        in_order(pending.push(newer)),
{
}

} // verus!
