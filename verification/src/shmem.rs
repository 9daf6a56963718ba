//! The shared memory region and the mutual-exclusion primitive over its lock
//! word.
//!
//! The region is one fixed-size byte buffer, jointly visible to the host
//! (owner) side and the spawned peer side: bytes `[0, 4)` hold the lock word,
//! a little-endian 32-bit value (signed on the wire, but the three protocol
//! values below make the signed and unsigned readings agree), and bytes
//! `[4, 4 + dataSize)` hold the opaque payload. The lock word is `UNLOCKED`, or the identity value of the
//! side currently holding it — the identity is purely informational, both
//! sides run the identical algorithm.
//!
//! Acquisition is one atomic compare-and-swap of `UNLOCKED` to the caller's
//! own identity. The blocking form repeats the swap, between attempts
//! performing an atomic block-until-notified wait conditioned on the word
//! still equaling the value it observed; [`lock_attempt`] is one iteration of
//! that loop, and the wait itself belongs to the runtime that runs it.
//! Release unconditionally stores `UNLOCKED` and issues exactly one wake
//! signal, on every exit path.
//!
//! This module is the verified model of that algorithm over an owned buffer;
//! the runtime mirrors each operation one-to-one onto a genuinely shared
//! buffer with true atomics.
//!
//! [`lock_attempt`]: PluginSharedMemoryRunner::lock_attempt

use vstd::prelude::*;
use vstd::bytes::{lemma_auto_spec_u32_to_from_le_bytes, spec_u32_from_le_bytes, u32_from_le_bytes,
    u32_to_le_bytes};

verus! {

/// Lock word value: nobody holds the region.
pub const UNLOCKED: u32 = 0;

/// Lock word value: the owner (host) side holds the region.
pub const LOCKED_BY_OWNER: u32 = 1;

/// Lock word value: the peer side holds the region.
pub const LOCKED_BY_PEER: u32 = 2;

/// The data payload starts past the 4-byte lock word.
pub const DATA_OFFSET: usize = 4;

/// A scoped capability for the data region: it exists only between a
/// successful acquisition and the release that consumes it, stamped with the
/// identity value of the side that acquired.
pub struct MemoryGuard {
    side: u32,
}

impl MemoryGuard {
    /// The identity value this guard's acquisition stamped on the lock word.
    pub closed spec fn side(self) -> u32 {
        self.side
    }
}

/// The guard is live on this region: the lock word still carries its stamp.
pub open spec fn holds(r: PluginSharedMemoryRunner, g: MemoryGuard) -> bool {
    &&& r.lock_word() == g.side()
    &&& (g.side() == LOCKED_BY_OWNER || g.side() == LOCKED_BY_PEER)
}

/// One side's view of the shared memory region and its lock word, together
/// with the count of wake signals issued so far.
///
/// The supervisor that owns this region also owns exactly one peer execution
/// context (created by the runtime, handed the endpoint and the region in one
/// atomic handoff, and unconditionally terminated on disposal).
pub struct PluginSharedMemoryRunner {
    bytes: Vec<u8>,
    notifies: u64,
}

impl PluginSharedMemoryRunner {
    /// The region holds at least its lock word.
    pub closed spec fn wf(self) -> bool {
        self.bytes@.len() >= 4
    }

    /// The lock word: bytes `[0, 4)`, little-endian.
    pub closed spec fn lock_word(self) -> u32 {
        spec_u32_from_le_bytes(self.bytes@.subrange(0, 4))
    }

    /// The data payload: bytes `[4, 4 + dataSize)`.
    pub closed spec fn data(self) -> Seq<u8> {
        self.bytes@.skip(4)
    }

    /// The payload size chosen at spawn time.
    pub open spec fn data_size(self) -> nat {
        self.data().len()
    }

    /// How many wake signals have been issued on this region.
    pub closed spec fn notify_count(self) -> u64 {
        self.notifies
    }

    /// The wake signals issued so far, observably.
    pub fn notifies(&self) -> (r: u64)
        ensures
            r == self.notify_count(),
    {
        self.notifies
    }

    /// The payload size, observably.
    pub fn data_len(&self) -> (r: usize)
        requires
            self.wf(),
        ensures
            r == self.data_size(),
    {
        self.bytes.len() - 4
    }

    /// Allocate the zero-initialized region for a fresh spawn: lock word
    /// `UNLOCKED`, `memory_size` payload bytes, all zero, no wake signal
    /// issued yet. The runtime then creates the isolated peer context and
    /// transfers the endpoint and this region to it in one atomic handoff.
    pub fn spawn(memory_size: u32) -> (r: PluginSharedMemoryRunner)
        requires
            memory_size + 4 <= usize::MAX,
        ensures
            r.wf(),
            r.data_size() == memory_size,
            r.lock_word() == UNLOCKED,
            r.notify_count() == 0,
            forall|i: int| 0 <= i < memory_size ==> r.data()[i] == 0,
    {
        let n: usize = (memory_size as usize) + 4;
        let mut bytes: Vec<u8> = Vec::new();
        while bytes.len() < n
            invariant
                bytes@.len() <= n,
                forall|i: int| 0 <= i < bytes@.len() ==> bytes@[i] == 0,
            decreases n - bytes@.len(),
        {
            bytes.push(0u8);
        }
        let mut r = PluginSharedMemoryRunner { bytes, notifies: 0 };
        r.store_lock(UNLOCKED);
        r
    }

    /// Read the lock word.
    fn load_lock(&self) -> (r: u32)
        requires
            self.wf(),
        ensures
            r == self.lock_word(),
    {
        let mut w: Vec<u8> = Vec::new();
        w.push(self.bytes[0]);
        w.push(self.bytes[1]);
        w.push(self.bytes[2]);
        w.push(self.bytes[3]);
        proof {
            assert(w@ =~= self.bytes@.subrange(0, 4));
        }
        u32_from_le_bytes(w.as_slice())
    }

    /// Store the lock word, leaving the payload untouched.
    fn store_lock(&mut self, v: u32)
        requires
            old(self).wf(),
        ensures
            final(self).wf(),
            final(self).lock_word() == v,
            final(self).data() == old(self).data(),
            final(self).data_size() == old(self).data_size(),
            final(self).notify_count() == old(self).notify_count(),
    {
        let b = u32_to_le_bytes(v);
        self.bytes[0] = b[0];
        self.bytes[1] = b[1];
        self.bytes[2] = b[2];
        self.bytes[3] = b[3];
        proof {
            lemma_auto_spec_u32_to_from_le_bytes();
            assert(self.bytes@.subrange(0, 4) =~= b@);
            assert(self.bytes@.skip(4) =~= old(self).bytes@.skip(4));
        }
    }

    /// Atomic compare-and-swap on the lock word: if it equals `expected`,
    /// replace it with `new`; either way return the value it had.
    fn compare_exchange(&mut self, expected: u32, new: u32) -> (prev: u32)
        requires
            old(self).wf(),
        ensures
            final(self).wf(),
            prev == old(self).lock_word(),
            prev == expected ==> final(self).lock_word() == new,
            prev != expected ==> final(self).lock_word() == old(self).lock_word(),
            final(self).data() == old(self).data(),
            final(self).data_size() == old(self).data_size(),
            final(self).notify_count() == old(self).notify_count(),
    {
        let prev = self.load_lock();
        if prev == expected {
            self.store_lock(new);
        }
        prev
    }

    /// One iteration of the blocking acquire, for the side whose identity
    /// value is `side`: a single compare-and-swap of `UNLOCKED` to `side`.
    ///
    /// On success the caller gets the guard. On contention the caller gets
    /// the value it observed; it then performs an atomic block-until-notified
    /// wait, conditioned on the word still equaling that value at park time
    /// (if the word already changed, the wait returns immediately), and tries
    /// again. No backoff, no fairness: whichever waiter observes `UNLOCKED`
    /// first wins.
    pub fn lock_attempt(&mut self, side: u32) -> (r: LockAttempt)
        requires
            old(self).wf(),
            side == LOCKED_BY_OWNER || side == LOCKED_BY_PEER,
        ensures
            final(self).wf(),
            old(self).lock_word() == UNLOCKED ==> (r matches LockAttempt::Acquired(g) && g.side()
                == side && final(self).lock_word() == side && holds(*final(self), g)),
            old(self).lock_word() != UNLOCKED ==> r == (LockAttempt::Contended {
                observed: old(self).lock_word(),
            }) && final(self).lock_word() == old(self).lock_word(),
            final(self).data() == old(self).data(),
            final(self).data_size() == old(self).data_size(),
            final(self).notify_count() == old(self).notify_count(),
    {
        let prev = self.compare_exchange(UNLOCKED, side);
        if prev == UNLOCKED {
            LockAttempt::Acquired(MemoryGuard { side })
        } else {
            LockAttempt::Contended { observed: prev }
        }
    }

    /// Try to acquire without blocking: exactly one compare-and-swap attempt,
    /// never a wait. Succeeds if and only if nobody held the lock; in
    /// particular it reports failure whenever the other side currently holds
    /// it.
    pub fn try_lock(&mut self, side: u32) -> (r: Option<MemoryGuard>)
        requires
            old(self).wf(),
            side == LOCKED_BY_OWNER || side == LOCKED_BY_PEER,
        ensures
            final(self).wf(),
            r is Some <==> old(self).lock_word() == UNLOCKED,
            r matches Some(g) ==> g.side() == side && final(self).lock_word() == side && holds(
                *final(self),
                g,
            ),
            r is None ==> final(self).lock_word() == old(self).lock_word(),
            final(self).data() == old(self).data(),
            final(self).data_size() == old(self).data_size(),
            final(self).notify_count() == old(self).notify_count(),
    {
        match self.lock_attempt(side) {
            LockAttempt::Acquired(g) => Some(g),
            LockAttempt::Contended { observed: _ } => None,
        }
    }

    /// Release: unconditionally store `UNLOCKED`, then issue exactly one wake
    /// signal (one parked waiter wakes, choice unspecified), regardless of
    /// the word's prior value. Consuming the guard ends the capability; this
    /// runs on every exit path of a critical section, normal or error.
    pub fn release(&mut self, guard: MemoryGuard)
        requires
            old(self).wf(),
            old(self).notify_count() < u64::MAX,
        ensures
            final(self).wf(),
            final(self).lock_word() == UNLOCKED,
            final(self).notify_count() == old(self).notify_count() + 1,
            final(self).data() == old(self).data(),
            final(self).data_size() == old(self).data_size(),
    {
        let _ = guard;
        self.store_lock(UNLOCKED);
        self.notifies = self.notifies + 1;
    }

    /// Read one payload byte. Well-defined only while the guard is live.
    pub fn read_data(&self, guard: &MemoryGuard, i: usize) -> (r: u8)
        requires
            self.wf(),
            holds(*self, *guard),
            i < self.data_size(),
        ensures
            r == self.data()[i as int],
    {
        let l = self.bytes.len();
        assert(DATA_OFFSET + i < l);
        self.bytes[DATA_OFFSET + i]
    }

    /// Write one payload byte, leaving the lock word and the rest of the
    /// payload untouched. Well-defined only while the guard is live.
    pub fn write_data(&mut self, guard: &MemoryGuard, i: usize, v: u8)
        requires
            old(self).wf(),
            holds(*old(self), *guard),
            i < old(self).data_size(),
        ensures
            final(self).wf(),
            final(self).data() == old(self).data().update(i as int, v),
            final(self).data_size() == old(self).data_size(),
            final(self).lock_word() == old(self).lock_word(),
            final(self).notify_count() == old(self).notify_count(),
            holds(*final(self), *guard),
    {
        let l = self.bytes.len();
        assert(DATA_OFFSET + i < l);
        self.bytes[DATA_OFFSET + i] = v;
        proof {
            assert(self.bytes@.subrange(0, 4) =~= old(self).bytes@.subrange(0, 4));
            assert(self.bytes@.skip(4) =~= old(self).bytes@.skip(4).update(i as int, v));
        }
    }
}

/// The outcome of one acquisition attempt.
pub enum LockAttempt {
    /// The compare-and-swap won: the caller now holds the region.
    Acquired(MemoryGuard),
    /// The word was not `UNLOCKED`; `observed` is the value the swap saw,
    /// the condition for the caller's block-until-notified wait.
    Contended { observed: u32 },
}

impl MemoryGuard {
    /// A copy of the data region (the view excludes the lock bytes).
    /// Well-defined only while this guard is live: a captured copy must not
    /// be mistaken for the region after release.
    pub fn data_view(&self, runner: &PluginSharedMemoryRunner) -> (r: Vec<u8>)
        requires
            runner.wf(),
            holds(*runner, *self),
        ensures
            r@ == runner.data(),
    {
        let n = runner.data_len();
        let mut out: Vec<u8> = Vec::new();
        while out.len() < n
            invariant
                runner.wf(),
                holds(*runner, *self),
                n == runner.data_size(),
                out@.len() <= n,
                forall|i: int| 0 <= i < out@.len() ==> out@[i] == runner.data()[i],
            decreases n - out@.len(),
        {
            let b = runner.read_data(self, out.len());
            out.push(b);
        }
        proof {
            assert(out@ =~= runner.data());
        }
        out
    }
}

/// Mutual exclusion: two live guards on one region carry the same stamp —
/// the lock word cannot carry the owner's and the peer's identity at once,
/// so the two sides never both hold the region.
pub proof fn lemma_mutual_exclusion(
    r: PluginSharedMemoryRunner,
    a: MemoryGuard,
    b: MemoryGuard,
)
    requires
        holds(r, a),
        holds(r, b),
    ensures
        a.side() == b.side(),
{
}

} // verus!
