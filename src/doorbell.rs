//! Send batchers: one-sided READ/WRITE over a reliable connection and
//! datagram SEND. Each owns one ring; when a post fills it, the post hands
//! back the batch that one doorbell submits, and the ring starts over empty.
use vstd::prelude::*;
use core::ops::Range;
use crate::ring::{
    DoorbellHelper, PostedWr, RingView, Sge, Staged, WrTarget, IBV_SEND_INLINE,
    IBV_SEND_SIGNALED, MAX_BATCH_SZ,
};

verus! {

/// Largest payload that a datagram send carries inline.
pub const MAX_INLINE_SZ: usize = 64;

/// A registered local memory region: its base address and local key.
#[derive(Clone, Copy, Debug)]
pub struct LocalMr {
    pub addr: u64,
    pub lkey: u32,
}

/// A datagram destination: queue-pair number, queue key and address handle.
#[derive(Clone, Copy, Debug)]
pub struct DatagramDest {
    pub qpn: u32,
    pub qkey: u32,
    pub ah: u64,
}

/// Number of bytes in `range` (none when it is reversed).
pub open spec fn range_len(range: Range<u64>) -> u64 {
    if range.start <= range.end { (range.end - range.start) as u64 } else { 0 }
}

/// The scatter-gather entry for `range` of the region `mr`.
pub open spec fn local_sge(mr: LocalMr, range: Range<u64>) -> Sge {
    Sge { addr: (mr.addr + range.start) as u64, length: range_len(range) as u32, lkey: mr.lkey }
}

pub open spec fn signal_flag(signaled: bool) -> u32 {
    if signaled { IBV_SEND_SIGNALED } else { 0 }
}

/// What a one-sided post writes into its slot.
pub open spec fn rc_staged(
    mr: LocalMr,
    range: Range<u64>,
    signaled: bool,
    raddr: u64,
    rkey: u32,
    wr_id: u64,
) -> Staged {
    Staged {
        sge: local_sge(mr, range),
        wr_id,
        send_flags: signal_flag(signaled),
        imm_data: 0,
        target: WrTarget::Rdma { remote_addr: raddr, rkey },
    }
}

/// What a datagram post writes into its slot: a payload of at most
/// `MAX_INLINE_SZ` bytes also gets the inline flag.
pub open spec fn ud_staged(
    endpoint: DatagramDest,
    mr: LocalMr,
    range: Range<u64>,
    wr_id: u64,
    imm_data: Option<u32>,
    signaled: bool,
) -> Staged {
    Staged {
        sge: local_sge(mr, range),
        wr_id,
        send_flags: signal_flag(signaled) | (if range_len(range) <= MAX_INLINE_SZ {
            IBV_SEND_INLINE
        } else {
            0
        }),
        imm_data: match imm_data {
            Some(i) => i,
            None => 0,
        },
        target: WrTarget::Ud { remote_qpn: endpoint.qpn, remote_qkey: endpoint.qkey, ah: endpoint.ah },
    }
}

pub(crate) fn make_sge(mr: &LocalMr, range: &Range<u64>) -> (r: Sge)
    requires
        mr.addr + range.start <= u64::MAX,
    ensures
        r == local_sge(*mr, *range),
{
    let len: u64 = if range.start <= range.end { range.end - range.start } else { 0 };
    let length: u32 = #[verifier::truncate] (len as u32);
    Sge { addr: mr.addr + range.start, length, lkey: mr.lkey }
}

/// Batcher of one-sided READs or WRITEs.
pub struct RcDoorbellHelper {
    send_doorbell: DoorbellHelper,
}

impl View for RcDoorbellHelper {
    type V = RingView;

    closed spec fn view(&self) -> RingView {
        self.send_doorbell@
    }
}

impl RcDoorbellHelper {
    /// A batcher over a ring of `capacity` blank slots; `init` stamps the opcode.
    pub fn create(capacity: usize) -> (r: Self)
        requires
            1 <= capacity <= MAX_BATCH_SZ,
        ensures
            r@.wf(),
            r@ == crate::ring::blank_ring(capacity as int),
    {
        RcDoorbellHelper { send_doorbell: DoorbellHelper::new(capacity) }
    }

    /// Stamps every slot in use with the opcode `op` and links the cycle.
    pub fn init(&mut self, op: u32)
        requires
            old(self)@.wf(),
        ensures
            final(self)@ == old(self)@.init_step(op),
    {
        self.send_doorbell.init(op);
    }

    /// Stages a one-sided operation on `range` of `mr` against the remote
    /// address `raddr` with key `rkey`. When this fills the ring the batch is
    /// returned, to be submitted with one doorbell, and the ring is empty again.
    pub fn post_send(
        &mut self,
        mr: &LocalMr,
        range: Range<u64>,
        signaled: bool,
        raddr: u64,
        rkey: u32,
        wr_id: u64,
    ) -> (r: Option<Vec<PostedWr>>)
        requires
            old(self)@.wf(),
            mr.addr + range.start <= u64::MAX,
        ensures
            final(self)@ == old(self)@.post_step(rc_staged(*mr, range, signaled, raddr, rkey, wr_id)),
            r matches Some(b) ==> old(self)@.post_batch(
                rc_staged(*mr, range, signaled, raddr, rkey, wr_id),
            ) == Some(b@),
            r is None ==> old(self)@.post_batch(
                rc_staged(*mr, range, signaled, raddr, rkey, wr_id),
            ) is None,
    {
        let sge = make_sge(mr, &range);
        let send_flags: u32 = if signaled { IBV_SEND_SIGNALED } else { 0 };
        let e = Staged {
            sge,
            wr_id,
            send_flags,
            imm_data: 0,
            target: WrTarget::Rdma { remote_addr: raddr, rkey },
        };
        self.send_doorbell.post(e)
    }

    /// Number of staged operations.
    pub fn size(&self) -> (r: isize)
        requires
            self@.wf(),
        ensures
            r == self@.size(),
    {
        self.send_doorbell.size()
    }

    /// Whether every slot in use refers to its own scatter-gather entry.
    pub fn sanity_check(&self) -> (r: bool)
        requires
            self@.wf(),
        ensures
            r == self@.bound(),
    {
        self.send_doorbell.sanity_check()
    }
}

/// Batcher of datagram SENDs.
pub struct UdDoorbellHelper {
    send_doorbell: DoorbellHelper,
}

impl View for UdDoorbellHelper {
    type V = RingView;

    closed spec fn view(&self) -> RingView {
        self.send_doorbell@
    }
}

impl UdDoorbellHelper {
    /// A batcher whose ring of `capacity` slots is stamped with `op` and linked.
    pub fn create(capacity: usize, op: u32) -> (r: Self)
        requires
            1 <= capacity <= MAX_BATCH_SZ,
        ensures
            r@.wf(),
            r@.size() == 0,
            r@.cyclic(),
            r@.bound(),
            r@.stamped(op),
            r@ == crate::ring::blank_ring(capacity as int).init_step(op),
    {
        UdDoorbellHelper { send_doorbell: DoorbellHelper::create(capacity, op) }
    }

    /// Whether every slot in use refers to its own scatter-gather entry.
    pub fn sanity_check(&self) -> (r: bool)
        requires
            self@.wf(),
        ensures
            r == self@.bound(),
    {
        self.send_doorbell.sanity_check()
    }

    /// Stages a datagram send of `range` of `mr` to `endpoint`, with
    /// `imm_data` (zero when absent). When this fills the ring the batch is
    /// returned, to be submitted with one doorbell, and the ring is empty again.
    pub fn post_send(
        &mut self,
        endpoint: &DatagramDest,
        mr: &LocalMr,
        range: Range<u64>,
        wr_id: u64,
        imm_data: Option<u32>,
        signaled: bool,
    ) -> (r: Option<Vec<PostedWr>>)
        requires
            old(self)@.wf(),
            mr.addr + range.start <= u64::MAX,
        ensures
            final(self)@ == old(self)@.post_step(
                ud_staged(*endpoint, *mr, range, wr_id, imm_data, signaled),
            ),
            r matches Some(b) ==> old(self)@.post_batch(
                ud_staged(*endpoint, *mr, range, wr_id, imm_data, signaled),
            ) == Some(b@),
            r is None ==> old(self)@.post_batch(
                ud_staged(*endpoint, *mr, range, wr_id, imm_data, signaled),
            ) is None,
    {
        let sge = make_sge(mr, &range);
        let len: u64 = if range.start <= range.end { range.end - range.start } else { 0 };
        let signal: u32 = if signaled { IBV_SEND_SIGNALED } else { 0 };
        let inline: u32 = if len <= MAX_INLINE_SZ as u64 { IBV_SEND_INLINE } else { 0 };
        let imm: u32 = match imm_data {
            Some(i) => i,
            None => 0,
        };
        let e = Staged {
            sge,
            wr_id,
            send_flags: signal | inline,
            imm_data: imm,
            target: WrTarget::Ud { remote_qpn: endpoint.qpn, remote_qkey: endpoint.qkey, ah: endpoint.ah },
        };
        self.send_doorbell.post(e)
    }

    /// Number of staged operations.
    pub fn size(&self) -> (r: isize)
        requires
            self@.wf(),
        ensures
            r == self@.size(),
    {
        self.send_doorbell.size()
    }
}

} // verus!
