//! Receive batching: a ring of receive descriptors and a batcher that posts
//! receive buffers, handing back a batch each time the ring fills.
use vstd::prelude::*;
use core::ops::Range;
use crate::doorbell::{local_sge, make_sge, LocalMr};
use crate::ring::{
    DoorbellHelper, PostedWr, RingView, Sge, Staged, WorkRequest, WrTarget, MAX_BATCH_SZ,
};

verus! {

/// Capacity that a receive batcher is usually created with.
pub const DEFAULT_BATCH_SZ: usize = 64;

/// A ring of receive descriptors. Receive descriptors use no opcode, flags,
/// immediate data or target: those fields stay zero.
pub struct RecvDoorbell {
    ring: DoorbellHelper,
}

impl View for RecvDoorbell {
    type V = RingView;

    closed spec fn view(&self) -> RingView {
        self.ring@
    }
}

/// What a receive post writes into its slot.
pub open spec fn recv_staged(mr: LocalMr, range: Range<u64>, wr_id: u64) -> Staged {
    Staged {
        sge: local_sge(mr, range),
        wr_id,
        send_flags: 0,
        imm_data: 0,
        target: WrTarget::Rdma { remote_addr: 0, rkey: 0 },
    }
}

impl RecvDoorbell {
    /// An empty ring of `capacity` blank slots; `init` links it.
    pub fn create(capacity: usize) -> (r: Self)
        requires
            1 <= capacity <= MAX_BATCH_SZ,
        ensures
            r@.wf(),
            r@ == crate::ring::blank_ring(capacity as int),
    {
        RecvDoorbell { ring: DoorbellHelper::new(capacity) }
    }

    /// Gives every slot in use one entry, its own, and links the cycle.
    pub fn init(&mut self)
        requires
            old(self)@.wf(),
        ensures
            final(self)@ == old(self)@.init_step(0),
    {
        self.ring.init(0);
    }

    /// Number of staged descriptors.
    pub fn size(&self) -> (r: isize)
        requires
            self@.wf(),
        ensures
            r == self@.size(),
    {
        self.ring.size()
    }

    pub fn is_empty(&self) -> (r: bool)
        requires
            self@.wf(),
        ensures
            r == (self@.size() == 0),
    {
        self.ring.is_empty()
    }

    /// Drops every staged descriptor without touching the links.
    pub fn empty(&mut self)
        requires
            old(self)@.wf(),
        ensures
            final(self)@ == old(self)@.with_cur(-1),
    {
        self.ring.empty();
    }

    pub fn is_full(&self) -> (r: bool)
        requires
            self@.wf(),
        ensures
            r == (self@.size() == self@.capacity),
    {
        self.ring.is_full()
    }

    /// Reserves the next slot; `false`, with nothing changed, when the ring is full.
    pub fn next(&mut self) -> (r: bool)
        requires
            old(self)@.wf(),
        ensures
            r == !old(self)@.is_full(),
            final(self)@ == old(self)@.next_step(),
    {
        self.ring.next()
    }

    /// Cuts the cycle after the last staged slot.
    pub fn freeze(&mut self)
        requires
            old(self)@.wf(),
            old(self)@.size() > 0,
        ensures
            final(self)@ == old(self)@.freeze_step(),
    {
        self.ring.freeze();
    }

    /// Restores the link that `freeze` cut.
    pub fn freeze_done(&mut self)
        requires
            old(self)@.wf(),
            old(self)@.size() > 0,
        ensures
            final(self)@ == old(self)@.freeze_done_step(),
    {
        self.ring.freeze_done();
    }

    /// Restores the cut link and drops every staged descriptor.
    pub fn clear(&mut self)
        requires
            old(self)@.wf(),
            old(self)@.size() > 0,
        ensures
            final(self)@ == old(self)@.clear_step(),
    {
        self.ring.clear();
    }

    /// The descriptor of the current slot (slot 0 while nothing is staged).
    pub fn cur_wr(&self) -> (r: &WorkRequest)
        requires
            self@.wf(),
        ensures
            *r == self@.wrs[self@.slot()],
    {
        self.ring.cur_wr()
    }

    /// The scatter-gather entry of the current slot (slot 0 while nothing is staged).
    pub fn cur_sge(&self) -> (r: &Sge)
        requires
            self@.wf(),
        ensures
            *r == self@.sges[self@.slot()],
    {
        self.ring.cur_sge()
    }

    /// The descriptor in slot `idx`.
    pub fn get_wr(&self, idx: usize) -> (r: &WorkRequest)
        requires
            self@.wf(),
            idx < MAX_BATCH_SZ,
        ensures
            *r == self@.wrs[idx as int],
    {
        self.ring.get_wr(idx)
    }

    /// The scatter-gather entry in slot `idx`.
    pub fn get_sge(&self, idx: usize) -> (r: &Sge)
        requires
            self@.wf(),
            idx < MAX_BATCH_SZ,
        ensures
            *r == self@.sges[idx as int],
    {
        self.ring.get_sge(idx)
    }

    /// Whether every slot in use refers to its own scatter-gather entry.
    pub fn sanity_check(&self) -> (r: bool)
        requires
            self@.wf(),
        ensures
            r == self@.bound(),
    {
        self.ring.sanity_check()
    }

    fn post(&mut self, e: Staged) -> (r: Option<Vec<PostedWr>>)
        requires
            old(self)@.wf(),
        ensures
            final(self)@ == old(self)@.post_step(e),
            r matches Some(b) ==> old(self)@.post_batch(e) == Some(b@),
            r is None ==> old(self)@.post_batch(e) is None,
    {
        self.ring.post(e)
    }
}

/// Batcher of receive buffers.
pub struct RecvDoorbellHelper {
    recv_doorbell: RecvDoorbell,
}

impl View for RecvDoorbellHelper {
    type V = RingView;

    closed spec fn view(&self) -> RingView {
        self.recv_doorbell@
    }
}

impl RecvDoorbellHelper {
    /// A batcher whose ring of `capacity` slots is linked into a cycle.
    pub fn create(capacity: usize) -> (r: Self)
        requires
            1 <= capacity <= MAX_BATCH_SZ,
        ensures
            r@.wf(),
            r@.size() == 0,
            r@.cyclic(),
            r@.bound(),
            r@ == crate::ring::blank_ring(capacity as int).init_step(0),
    {
        let mut recv_doorbell = RecvDoorbell::create(capacity);
        recv_doorbell.init();
        proof {
            crate::ring::lemma_init_links(crate::ring::blank_ring(capacity as int), 0);
        }
        RecvDoorbellHelper { recv_doorbell }
    }

    /// Whether every slot in use refers to its own scatter-gather entry.
    pub fn sanity_check(&self) -> (r: bool)
        requires
            self@.wf(),
        ensures
            r == self@.bound(),
    {
        self.recv_doorbell.sanity_check()
    }

    /// Stages a receive buffer: `range` of `mr`. When this fills the ring the
    /// batch is returned, to be posted with one doorbell, and the ring is
    /// empty again.
    pub fn post_recv(&mut self, mr: &LocalMr, range: Range<u64>, wr_id: u64) -> (r: Option<
        Vec<PostedWr>,
    >)
        requires
            old(self)@.wf(),
            mr.addr + range.start <= u64::MAX,
        ensures
            final(self)@ == old(self)@.post_step(recv_staged(*mr, range, wr_id)),
            r matches Some(b) ==> old(self)@.post_batch(recv_staged(*mr, range, wr_id)) == Some(b@),
            r is None ==> old(self)@.post_batch(recv_staged(*mr, range, wr_id)) is None,
    {
        let sge = make_sge(mr, &range);
        let e = Staged {
            sge,
            wr_id,
            send_flags: 0,
            imm_data: 0,
            target: WrTarget::Rdma { remote_addr: 0, rkey: 0 },
        };
        self.recv_doorbell.post(e)
    }

    /// Number of staged receive buffers.
    pub fn size(&self) -> (r: isize)
        requires
            self@.wf(),
        ensures
            r == self@.size(),
    {
        self.recv_doorbell.size()
    }
}

} // verus!
