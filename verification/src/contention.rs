//! Two contexts contending for one region: the owner and the peer each
//! repeatedly acquire the lock, increment a shared counter in the data
//! region, and release.
//!
//! This model makes the concurrency properties of the mutex both provable
//! and executable: for any interleaving of the two sides' steps, the two
//! never hold the region at once, a `try_lock` fails exactly while the other
//! side holds it, and the counter in the region always equals the number of
//! completed critical sections — no update is ever lost.

use vstd::prelude::*;
use crate::shmem::{LOCKED_BY_OWNER, LOCKED_BY_PEER, MemoryGuard, PluginSharedMemoryRunner,
    UNLOCKED, holds};

verus! {

/// The shared counter: the first four payload bytes, little-endian.
pub open spec fn counter_of(data: Seq<u8>) -> u32 {
    (data[0] as u32) | (data[1] as u32) << 8 | (data[2] as u32) << 16 | (data[3] as u32) << 24
}

/// One region, two contending sides, and the count of critical sections the
/// two have completed between them.
pub struct LockContention {
    region: PluginSharedMemoryRunner,
    owner_guard: Option<MemoryGuard>,
    peer_guard: Option<MemoryGuard>,
    sections: u64,
}

impl LockContention {
    /// The counter currently stored in the region.
    pub closed spec fn counter(self) -> u32 {
        counter_of(self.region.data())
    }

    /// Critical sections completed so far, across both sides.
    pub closed spec fn sections_done(self) -> u64 {
        self.sections
    }

    pub closed spec fn owner_holds(self) -> bool {
        self.owner_guard is Some
    }

    pub closed spec fn peer_holds(self) -> bool {
        self.peer_guard is Some
    }

    pub closed spec fn lock_word(self) -> u32 {
        self.region.lock_word()
    }

    pub closed spec fn notifies_issued(self) -> u64 {
        self.region.notify_count()
    }

    /// The model's invariant, maintained by every step from [`Self::new`] on:
    /// a live guard means the lock word carries that side's stamp, and the
    /// counter equals the completed sections.
    pub closed spec fn inv(self) -> bool {
        &&& self.region.wf()
        &&& self.region.data_size() >= 4
        &&& (self.owner_guard matches Some(g) ==> holds(self.region, g) && g.side()
            == LOCKED_BY_OWNER)
        &&& (self.peer_guard matches Some(g) ==> holds(self.region, g) && g.side()
            == LOCKED_BY_PEER)
        &&& counter_of(self.region.data()) == self.sections
        &&& self.sections <= u32::MAX
    }

    /// A fresh zero-initialized region, nobody holding, counter zero.
    pub fn new(data_size: u32) -> (r: LockContention)
        requires
            data_size >= 4,
            data_size + 4 <= usize::MAX,
        ensures
            r.inv(),
            r.sections_done() == 0,
            r.counter() == 0,
            !r.owner_holds(),
            !r.peer_holds(),
            r.lock_word() == UNLOCKED,
    {
        let region = PluginSharedMemoryRunner::spawn(data_size);
        proof {
            assert((0u8 as u32) | (0u8 as u32) << 8 | (0u8 as u32) << 16 | (0u8 as u32) << 24
                == 0u32) by (bit_vector);
        }
        LockContention { region, owner_guard: None, peer_guard: None, sections: 0 }
    }

    /// One side attempts acquisition: a single compare-and-swap, never a
    /// wait. It succeeds exactly when nobody held the lock — in particular,
    /// never while the other side is inside its critical section.
    pub fn step_acquire(&mut self, owner: bool) -> (r: bool)
        requires
            old(self).inv(),
        ensures
            final(self).inv(),
            r <==> old(self).lock_word() == UNLOCKED,
            final(self).sections_done() == old(self).sections_done(),
            final(self).counter() == old(self).counter(),
            r && owner ==> final(self).owner_holds() && final(self).lock_word()
                == LOCKED_BY_OWNER,
            r && !owner ==> final(self).peer_holds() && final(self).lock_word()
                == LOCKED_BY_PEER,
            !r ==> final(self).lock_word() == old(self).lock_word() && final(self).owner_holds()
                == old(self).owner_holds() && final(self).peer_holds() == old(self).peer_holds(),
            final(self).notifies_issued() == old(self).notifies_issued(),
    {
        let side = if owner {
            LOCKED_BY_OWNER
        } else {
            LOCKED_BY_PEER
        };
        match self.region.try_lock(side) {
            Some(g) => {
                if owner {
                    self.owner_guard = Some(g);
                } else {
                    self.peer_guard = Some(g);
                }
                true
            },
            None => false,
        }
    }

    /// One side finishes its critical section: increment the shared counter,
    /// then release (which stores `UNLOCKED` and issues exactly one wake
    /// signal). Does nothing if that side does not hold the region.
    pub fn step_finish(&mut self, owner: bool) -> (r: bool)
        requires
            old(self).inv(),
            old(self).sections_done() < u32::MAX,
            old(self).notifies_issued() < u64::MAX,
        ensures
            final(self).inv(),
            r <==> (if owner {
                old(self).owner_holds()
            } else {
                old(self).peer_holds()
            }),
            r ==> final(self).sections_done() == old(self).sections_done() + 1,
            r ==> final(self).counter() == old(self).counter() + 1,
            r ==> final(self).lock_word() == UNLOCKED,
            r ==> final(self).notifies_issued() == old(self).notifies_issued() + 1,
            !r ==> final(self).sections_done() == old(self).sections_done(),
            !r ==> final(self).counter() == old(self).counter(),
            !r ==> final(self).lock_word() == old(self).lock_word(),
            owner ==> !final(self).owner_holds(),
            owner ==> final(self).peer_holds() == old(self).peer_holds(),
            !owner ==> !final(self).peer_holds(),
            !owner ==> final(self).owner_holds() == old(self).owner_holds(),
    {
        let g_opt = if owner {
            self.owner_guard.take()
        } else {
            self.peer_guard.take()
        };
        match g_opt {
            Some(g) => {
                let c = read_counter(&self.region, &g);
                write_counter(&mut self.region, &g, c + 1);
                self.region.release(g);
                self.sections = self.sections + 1;
                true
            },
            None => false,
        }
    }

    /// Read the counter back through the lock, as a contending observer
    /// would: acquire as the owner, read, release. Fails (and changes no
    /// payload byte) exactly when someone currently holds the region.
    pub fn counter_check(&mut self) -> (r: Option<u32>)
        requires
            old(self).inv(),
            old(self).notifies_issued() < u64::MAX,
        ensures
            final(self).inv(),
            r is Some <==> old(self).lock_word() == UNLOCKED,
            r matches Some(c) ==> c == old(self).counter(),
            final(self).counter() == old(self).counter(),
            final(self).sections_done() == old(self).sections_done(),
    {
        match self.region.try_lock(LOCKED_BY_OWNER) {
            Some(g) => {
                let c = read_counter(&self.region, &g);
                self.region.release(g);
                Some(c)
            },
            None => None,
        }
    }

    /// Critical sections completed, observably.
    pub fn sections_completed(&self) -> (r: u64)
        ensures
            r == self.sections_done(),
    {
        self.sections
    }
}

/// Read the four counter bytes, least significant first.
fn read_counter(region: &PluginSharedMemoryRunner, g: &MemoryGuard) -> (r: u32)
    requires
        region.wf(),
        holds(*region, *g),
        region.data_size() >= 4,
    ensures
        r == counter_of(region.data()),
{
    let b0 = region.read_data(g, 0);
    let b1 = region.read_data(g, 1);
    let b2 = region.read_data(g, 2);
    let b3 = region.read_data(g, 3);
    (b0 as u32) | (b1 as u32) << 8 | (b2 as u32) << 16 | (b3 as u32) << 24
}

/// Write the four counter bytes, least significant first, leaving the rest
/// of the payload and the lock word untouched.
fn write_counter(region: &mut PluginSharedMemoryRunner, g: &MemoryGuard, v: u32)
    requires
        old(region).wf(),
        holds(*old(region), *g),
        old(region).data_size() >= 4,
    ensures
        final(region).wf(),
        holds(*final(region), *g),
        counter_of(final(region).data()) == v,
        final(region).data_size() == old(region).data_size(),
        final(region).lock_word() == old(region).lock_word(),
        final(region).notify_count() == old(region).notify_count(),
        forall|i: int| 4 <= i < old(region).data_size() ==> final(region).data()[i] == old(
            region,
        ).data()[i],
{
    proof {
        assert(v & 0xff < 256 && (v >> 8) & 0xff < 256 && (v >> 16) & 0xff < 256 && (v >> 24)
            & 0xff < 256) by (bit_vector);
    }
    let b0 = (v & 0xff) as u8;
    let b1 = ((v >> 8) & 0xff) as u8;
    let b2 = ((v >> 16) & 0xff) as u8;
    let b3 = ((v >> 24) & 0xff) as u8;
    region.write_data(g, 0, b0);
    region.write_data(g, 1, b1);
    region.write_data(g, 2, b2);
    region.write_data(g, 3, b3);
    proof {
        let od = old(region).data();
        assert(region.data() =~= od.update(0, b0).update(1, b1).update(2, b2).update(3, b3));
        assert(region.data()[0] == b0 && region.data()[1] == b1 && region.data()[2] == b2
            && region.data()[3] == b3);
        assert(((v & 0xff) as u8 as u32) | (((v >> 8) & 0xff) as u8 as u32) << 8 | (((v >> 16)
            & 0xff) as u8 as u32) << 16 | (((v >> 24) & 0xff) as u8 as u32) << 24 == v)
            by (bit_vector);
    }
}

/// Mutual exclusion and no lost updates, for every reachable state: the two
/// sides never both hold the region, and the shared counter equals exactly
/// the number of critical sections completed so far.
pub proof fn lemma_mutual_exclusion_no_lost_updates(s: LockContention)
    requires
        s.inv(),
    ensures
        !(s.owner_holds() && s.peer_holds()),
        s.counter() == s.sections_done(),
{
}

} // verus!
