//! The work-request ring: a fixed arena of descriptors and scatter-gather
//! entries, linked by slot indices into a cycle so that one doorbell can
//! submit a whole batch.
use vstd::prelude::*;

verus! {

/// Hard maximum of the batch size of a ring.
pub const MAX_BATCH_SZ: usize = 64;

/// Opcode of an RDMA WRITE.
pub const IBV_WR_RDMA_WRITE: u32 = 0;

/// Opcode of a datagram SEND.
pub const IBV_WR_SEND: u32 = 2;

/// Opcode of a datagram SEND carrying immediate data.
pub const IBV_WR_SEND_WITH_IMM: u32 = 3;

/// Opcode of an RDMA READ.
pub const IBV_WR_RDMA_READ: u32 = 4;

/// Send flag: the hardware reports a completion for this descriptor.
pub const IBV_SEND_SIGNALED: u32 = 2;

/// Send flag: the payload is copied from the descriptor itself.
pub const IBV_SEND_INLINE: u32 = 8;

/// One contiguous local memory range of a descriptor.
#[derive(Clone, Copy, Debug)]
pub struct Sge {
    pub addr: u64,
    pub length: u32,
    pub lkey: u32,
}

/// The operation-specific part of a descriptor.
#[derive(Clone, Copy, Debug)]
pub enum WrTarget {
    /// Remote memory of a one-sided READ or WRITE.
    Rdma { remote_addr: u64, rkey: u32 },
    /// Destination endpoint of a datagram SEND.
    Ud { remote_qpn: u32, remote_qkey: u32, ah: u64 },
}

/// One work-request descriptor. `next` and `sg_list` are slot indices of the
/// ring that owns it; `None` stands for the null link.
#[derive(Clone, Copy, Debug)]
pub struct WorkRequest {
    pub wr_id: u64,
    pub next: Option<usize>,
    pub sg_list: Option<usize>,
    pub num_sge: i32,
    pub opcode: u32,
    pub send_flags: u32,
    pub imm_data: u32,
    pub target: WrTarget,
}

/// The fields that one posted operation writes into its slot.
#[derive(Clone, Copy, Debug)]
pub struct Staged {
    pub sge: Sge,
    pub wr_id: u64,
    pub send_flags: u32,
    pub imm_data: u32,
    pub target: WrTarget,
}

/// A descriptor of a submitted batch together with its scatter-gather entry.
#[derive(Clone, Copy, Debug)]
pub struct PostedWr {
    pub wr: WorkRequest,
    pub sge: Sge,
}

pub open spec fn blank_sge() -> Sge {
    Sge { addr: 0, length: 0, lkey: 0 }
}

pub open spec fn blank_wr() -> WorkRequest {
    WorkRequest {
        wr_id: 0,
        next: None,
        sg_list: None,
        num_sge: 0,
        opcode: 0,
        send_flags: 0,
        imm_data: 0,
        target: WrTarget::Rdma { remote_addr: 0, rkey: 0 },
    }
}

/// `wr` with the dynamic fields of `e` written into it.
pub open spec fn filled(wr: WorkRequest, e: Staged) -> WorkRequest {
    WorkRequest {
        wr_id: e.wr_id,
        send_flags: e.send_flags,
        imm_data: e.imm_data,
        target: e.target,
        ..wr
    }
}

/// An empty ring of all-zero descriptors and entries.
pub open spec fn blank_ring(capacity: int) -> RingView {
    RingView {
        wrs: Seq::new(MAX_BATCH_SZ as nat, |i: int| blank_wr()),
        sges: Seq::new(MAX_BATCH_SZ as nat, |i: int| blank_sge()),
        capacity,
        cur: -1,
    }
}

/// The abstract state of a ring: both arenas, the capacity and the index of
/// the last staged slot (`-1` when nothing is staged).
pub struct RingView {
    pub wrs: Seq<WorkRequest>,
    pub sges: Seq<Sge>,
    pub capacity: int,
    pub cur: int,
}

impl RingView {
    /// The slot that follows `i` on the cycle.
    pub open spec fn succ(self, i: int) -> int {
        if i + 1 == self.capacity { 0 } else { i + 1 }
    }

    pub open spec fn size(self) -> int {
        self.cur + 1
    }

    pub open spec fn is_full(self) -> bool {
        self.size() >= self.capacity
    }

    pub open spec fn wf(self) -> bool {
        &&& self.wrs.len() == MAX_BATCH_SZ
        &&& self.sges.len() == MAX_BATCH_SZ
        &&& 1 <= self.capacity <= MAX_BATCH_SZ
        &&& -1 <= self.cur < self.capacity
    }

    /// Every descriptor refers to the scatter-gather entry of its own slot.
    pub open spec fn bound(self) -> bool {
        forall|i: int| 0 <= i < self.capacity ==> #[trigger] self.wrs[i].sg_list == Some(i as usize)
    }

    /// Every descriptor carries opcode `op` and one scatter-gather entry.
    pub open spec fn stamped(self, op: u32) -> bool {
        forall|i: int|
            0 <= i < self.capacity ==> #[trigger] self.wrs[i].opcode == op && self.wrs[i].num_sge == 1
    }

    /// Every slot but `c` links to its successor on the cycle.
    pub open spec fn linked_except(self, c: int) -> bool {
        forall|i: int|
            0 <= i < self.capacity && i != c ==> #[trigger] self.wrs[i].next == Some(
                self.succ(i) as usize,
            )
    }

    /// The links form one cycle over the `capacity` slots.
    pub open spec fn cyclic(self) -> bool {
        self.linked_except(-1)
    }

    /// The cycle is cut after the last staged slot, which ends the list.
    pub open spec fn frozen(self) -> bool {
        &&& self.size() > 0
        &&& self.wrs[self.cur].next == None::<usize>
        &&& self.linked_except(self.cur)
    }

    /// The slot that the current descriptor and entry stand in.
    pub open spec fn slot(self) -> int {
        if self.size() <= 0 { 0 } else { self.cur }
    }

    pub open spec fn with_cur(self, c: int) -> RingView {
        RingView { cur: c, ..self }
    }

    pub open spec fn with_next(self, i: int, n: Option<usize>) -> RingView {
        RingView { wrs: self.wrs.update(i, WorkRequest { next: n, ..self.wrs[i] }), ..self }
    }

    pub open spec fn next_step(self) -> RingView {
        if self.is_full() { self } else { self.with_cur(self.cur + 1) }
    }

    pub open spec fn freeze_step(self) -> RingView {
        self.with_next(self.cur, None)
    }

    pub open spec fn freeze_done_step(self) -> RingView {
        self.with_next(self.cur, Some(self.succ(self.cur) as usize))
    }

    pub open spec fn clear_step(self) -> RingView {
        self.freeze_done_step().with_cur(-1)
    }

    /// The descriptors a driver reads when it walks the links from slot `i`,
    /// at most `fuel` of them, up to a null link.
    pub open spec fn posted_from(self, i: int, fuel: nat) -> Seq<PostedWr>
        decreases fuel,
    {
        if fuel == 0 || !(0 <= i < self.wrs.len()) {
            Seq::empty()
        } else {
            seq![PostedWr { wr: self.wrs[i], sge: self.sges[i] }] + match self.wrs[i].next {
                None => Seq::empty(),
                Some(n) => self.posted_from(n as int, (fuel - 1) as nat),
            }
        }
    }

    /// The list handed to the driver: the walk from slot 0.
    pub open spec fn batch(self) -> Seq<PostedWr> {
        self.posted_from(0, self.capacity as nat)
    }

    /// Slots `0..n` with their entries, in order.
    pub open spec fn slots(self, n: int) -> Seq<PostedWr> {
        Seq::new(n as nat, |k: int| PostedWr { wr: self.wrs[k], sge: self.sges[k] })
    }

    /// Writes the fields of one operation into the current slot.
    pub open spec fn fill_step(self, e: Staged) -> RingView {
        RingView {
            wrs: self.wrs.update(self.slot(), filled(self.wrs[self.slot()], e)),
            sges: self.sges.update(self.slot(), e.sge),
            ..self
        }
    }

    /// Reserves a slot and fills it.
    pub open spec fn staged_step(self, e: Staged) -> RingView {
        self.next_step().fill_step(e)
    }

    /// One posted operation: reserve, fill, and when the ring is full, freeze,
    /// hand the batch over and clear.
    pub open spec fn post_step(self, e: Staged) -> RingView {
        let s = self.staged_step(e);
        if s.is_full() {
            s.freeze_step().clear_step()
        } else {
            s
        }
    }

    /// The batch that one posted operation hands over, if it fills the ring.
    pub open spec fn post_batch(self, e: Staged) -> Option<Seq<PostedWr>> {
        let s = self.staged_step(e);
        if s.is_full() {
            Some(s.freeze_step().batch())
        } else {
            None
        }
    }

    /// The state after `init(op)`: the static fields of every slot in use are stamped.
    pub open spec fn init_step(self, op: u32) -> RingView {
        RingView {
            wrs: Seq::new(
                self.wrs.len(),
                |i: int|
                    if 0 <= i < self.capacity {
                        WorkRequest {
                            opcode: op,
                            num_sge: 1,
                            next: Some(self.succ(i) as usize),
                            sg_list: Some(i as usize),
                            ..self.wrs[i]
                        }
                    } else {
                        self.wrs[i]
                    },
            ),
            ..self
        }
    }
}

/// A ring of send descriptors.
pub struct DoorbellHelper {
    wrs: Vec<WorkRequest>,
    sges: Vec<Sge>,
    capacity: usize,
    cur_idx: isize,
}

impl View for DoorbellHelper {
    type V = RingView;

    closed spec fn view(&self) -> RingView {
        RingView {
            wrs: self.wrs@,
            sges: self.sges@,
            capacity: self.capacity as int,
            cur: self.cur_idx as int,
        }
    }
}

fn blank_arenas() -> (r: (Vec<WorkRequest>, Vec<Sge>))
    ensures
        r.0@ == Seq::new(MAX_BATCH_SZ as nat, |i: int| blank_wr()),
        r.1@ == Seq::new(MAX_BATCH_SZ as nat, |i: int| blank_sge()),
{
    let mut wrs: Vec<WorkRequest> = Vec::new();
    let mut sges: Vec<Sge> = Vec::new();
    let mut i: usize = 0;
    while i < MAX_BATCH_SZ
        invariant
            i <= MAX_BATCH_SZ,
            wrs@ == Seq::new(i as nat, |k: int| blank_wr()),
            sges@ == Seq::new(i as nat, |k: int| blank_sge()),
        decreases MAX_BATCH_SZ - i,
    {
        wrs.push(
            WorkRequest {
                wr_id: 0,
                next: None,
                sg_list: None,
                num_sge: 0,
                opcode: 0,
                send_flags: 0,
                imm_data: 0,
                target: WrTarget::Rdma { remote_addr: 0, rkey: 0 },
            },
        );
        sges.push(Sge { addr: 0, length: 0, lkey: 0 });
        i = i + 1;
        assert(wrs@ =~= Seq::new(i as nat, |k: int| blank_wr()));
        assert(sges@ =~= Seq::new(i as nat, |k: int| blank_sge()));
    }
    (wrs, sges)
}

impl DoorbellHelper {
    /// An empty ring whose descriptors are all zero: no links, no entries bound.
    pub fn new(capacity: usize) -> (r: Self)
        requires
            1 <= capacity <= MAX_BATCH_SZ,
        ensures
            r@.wf(),
            r@ == blank_ring(capacity as int),
    {
        let (wrs, sges) = blank_arenas();
        DoorbellHelper { wrs, sges, capacity, cur_idx: -1 }
    }

    /// An empty ring whose slots in use are stamped with `op` and linked into a cycle.
    pub fn create(capacity: usize, op: u32) -> (r: Self)
        requires
            1 <= capacity <= MAX_BATCH_SZ,
        ensures
            r@.wf(),
            r@.size() == 0,
            r@.capacity == capacity,
            r@.cyclic(),
            r@.bound(),
            r@.stamped(op),
            r@ == blank_ring(capacity as int).init_step(op),
    {
        let mut ret = Self::new(capacity);
        ret.init(op);
        proof {
            lemma_init_links(blank_ring(capacity as int), op);
        }
        ret
    }

    /// Stamps the static fields of the slots in use: opcode `op`, one entry,
    /// the link to the next slot and the reference to the slot's own entry.
    pub fn init(&mut self, op: u32)
        requires
            old(self)@.wf(),
        ensures
            final(self)@ == old(self)@.init_step(op),
    {
        let ghost start = self@;
        let cap = self.capacity;
        let mut i: usize = 0;
        while i < cap
            invariant
                start.wf(),
                cap == start.capacity,
                i <= cap,
                self@.capacity == start.capacity,
                self@.cur == start.cur,
                self@.sges == start.sges,
                self@.wrs.len() == start.wrs.len(),
                forall|k: int|
                    0 <= k < start.wrs.len() ==> #[trigger] self@.wrs[k] == if k < i {
                        start.init_step(op).wrs[k]
                    } else {
                        start.wrs[k]
                    },
            decreases cap - i,
        {
            let mut w = self.wrs[i];
            w.opcode = op;
            w.num_sge = 1;
            let n = (i + 1) % cap;
            proof {
                if i + 1 == cap {
                    vstd::arithmetic::div_mod::lemma_mod_self_0(cap as int);
                } else {
                    vstd::arithmetic::div_mod::lemma_small_mod((i + 1) as nat, cap as nat);
                }
                assert(n == start.succ(i as int));
            }
            w.next = Some(n);
            w.sg_list = Some(i);
            self.wrs.set(i, w);
            i = i + 1;
        }
        assert(self@.wrs =~= start.init_step(op).wrs);
    }

    /// Whether every descriptor in use refers to the entry of its own slot.
    pub fn sanity_check(&self) -> (r: bool)
        requires
            self@.wf(),
        ensures
            r == self@.bound(),
    {
        let mut ret = true;
        let mut i: usize = 0;
        while i < self.capacity
            invariant
                self@.wf(),
                i <= self.capacity,
                ret == forall|k: int| 0 <= k < i ==> #[trigger] self@.wrs[k].sg_list == Some(k as usize),
            decreases self.capacity - i,
        {
            ret = ret && self.wrs[i].sg_list == Some(i);
            i = i + 1;
        }
        ret
    }

    /// Number of staged descriptors.
    pub fn size(&self) -> (r: isize)
        requires
            self@.wf(),
        ensures
            r == self@.size(),
    {
        self.cur_idx + 1
    }

    pub fn is_empty(&self) -> (r: bool)
        requires
            self@.wf(),
        ensures
            r == (self@.size() == 0),
    {
        self.size() <= 0
    }

    /// Drops every staged descriptor without touching the links.
    pub fn empty(&mut self)
        requires
            old(self)@.wf(),
        ensures
            final(self)@ == old(self)@.with_cur(-1),
    {
        self.cur_idx = -1;
    }

    pub fn is_full(&self) -> (r: bool)
        requires
            self@.wf(),
        ensures
            r == (self@.size() == self@.capacity),
    {
        self.size() >= self.capacity as isize
    }

    /// Reserves the next slot; `false`, with nothing changed, when the ring is full.
    pub fn next(&mut self) -> (r: bool)
        requires
            old(self)@.wf(),
        ensures
            r == !old(self)@.is_full(),
            final(self)@ == old(self)@.next_step(),
    {
        if self.is_full() {
            return false;
        }
        self.cur_idx = self.cur_idx + 1;
        true
    }

    /// Cuts the cycle after the last staged slot, so that the walk from slot 0
    /// ends there.
    pub fn freeze(&mut self)
        requires
            old(self)@.wf(),
            old(self)@.size() > 0,
        ensures
            final(self)@ == old(self)@.freeze_step(),
    {
        let c = self.cur_idx as usize;
        let mut w = self.wrs[c];
        w.next = None;
        self.wrs.set(c, w);
        assert(self@.wrs =~= old(self)@.freeze_step().wrs);
    }

    /// Restores the link that `freeze` cut.
    pub fn freeze_done(&mut self)
        requires
            old(self)@.wf(),
            old(self)@.size() > 0,
        ensures
            final(self)@ == old(self)@.freeze_done_step(),
    {
        let c = self.cur_idx as usize;
        let mut w = self.wrs[c];
        if c == self.capacity - 1 {
            w.next = Some(0);
        } else {
            w.next = Some(c + 1);
        }
        self.wrs.set(c, w);
        assert(self@.wrs =~= old(self)@.freeze_done_step().wrs);
    }

    /// Restores the cut link and drops every staged descriptor.
    pub fn clear(&mut self)
        requires
            old(self)@.wf(),
            old(self)@.size() > 0,
        ensures
            final(self)@ == old(self)@.clear_step(),
    {
        self.freeze_done();
        self.cur_idx = -1;
    }

    fn slot(&self) -> (r: usize)
        requires
            self@.wf(),
        ensures
            r == self@.slot(),
    {
        if self.is_empty() {
            0
        } else {
            self.cur_idx as usize
        }
    }

    /// The descriptor of the current slot (slot 0 while nothing is staged).
    pub fn cur_wr(&self) -> (r: &WorkRequest)
        requires
            self@.wf(),
        ensures
            *r == self@.wrs[self@.slot()],
    {
        let k = self.slot();
        &self.wrs[k]
    }

    /// The scatter-gather entry of the current slot (slot 0 while nothing is staged).
    pub fn cur_sge(&self) -> (r: &Sge)
        requires
            self@.wf(),
        ensures
            *r == self@.sges[self@.slot()],
    {
        let k = self.slot();
        &self.sges[k]
    }

    /// The descriptor in slot `idx`.
    pub fn get_wr(&self, idx: usize) -> (r: &WorkRequest)
        requires
            self@.wf(),
            idx < MAX_BATCH_SZ,
        ensures
            *r == self@.wrs[idx as int],
    {
        &self.wrs[idx]
    }

    /// The scatter-gather entry in slot `idx`.
    pub fn get_sge(&self, idx: usize) -> (r: &Sge)
        requires
            self@.wf(),
            idx < MAX_BATCH_SZ,
        ensures
            *r == self@.sges[idx as int],
    {
        &self.sges[idx]
    }

    /// Writes the fields of one operation into the current slot.
    pub fn fill_cur(&mut self, e: Staged)
        requires
            old(self)@.wf(),
        ensures
            final(self)@ == old(self)@.fill_step(e),
    {
        let k = self.slot();
        let mut w = self.wrs[k];
        w.wr_id = e.wr_id;
        w.send_flags = e.send_flags;
        w.imm_data = e.imm_data;
        w.target = e.target;
        self.wrs.set(k, w);
        self.sges.set(k, e.sge);
        assert(self@.wrs =~= old(self)@.fill_step(e).wrs);
        assert(self@.sges =~= old(self)@.fill_step(e).sges);
    }

    /// The descriptors that a driver reads when it walks the list from slot 0:
    /// up to the null link, and never more than `capacity` of them.
    pub fn batch(&self) -> (r: Vec<PostedWr>)
        requires
            self@.wf(),
        ensures
            r@ == self@.batch(),
    {
        let mut out: Vec<PostedWr> = Vec::new();
        let mut i: usize = 0;
        let mut fuel: usize = self.capacity;
        let mut done = false;
        while fuel > 0 && !done
            invariant
                self@.wf(),
                fuel <= self.capacity,
                !done ==> i < MAX_BATCH_SZ,
                !done ==> out@ + self@.posted_from(i as int, fuel as nat) == self@.batch(),
                done ==> out@ == self@.batch(),
            decreases fuel,
        {
            let w = self.wrs[i];
            out.push(PostedWr { wr: w, sge: self.sges[i] });
            proof {
                reveal_with_fuel(RingView::posted_from, 2);
            }
            match w.next {
                None => {
                    done = true;
                    assert(out@ =~= self@.batch());
                },
                Some(n) => {
                    if n < MAX_BATCH_SZ {
                        i = n;
                        assert(out@ + self@.posted_from(i as int, (fuel - 1) as nat) =~= self@.batch());
                    } else {
                        done = true;
                        assert(out@ =~= self@.batch());
                    }
                },
            }
            fuel = fuel - 1;
        }
        proof {
            if !done {
                assert(out@ =~= self@.batch());
            }
        }
        out
    }

    /// Stages one operation; when that fills the ring, freezes it, reads the
    /// batch a driver would walk, clears the ring and returns that batch.
    pub fn post(&mut self, e: Staged) -> (r: Option<Vec<PostedWr>>)
        requires
            old(self)@.wf(),
        ensures
            final(self)@ == old(self)@.post_step(e),
            r matches Some(b) ==> old(self)@.post_batch(e) == Some(b@),
            r is None ==> old(self)@.post_batch(e) is None,
    {
        self.next();
        self.fill_cur(e);
        if self.is_full() {
            self.freeze();
            let b = self.batch();
            self.clear();
            Some(b)
        } else {
            None
        }
    }

    pub fn capacity(&self) -> (r: usize)
        requires
            self@.wf(),
        ensures
            r == self@.capacity,
    {
        self.capacity
    }
}

/// `init` stamps, binds and links every slot in use.
pub proof fn lemma_init_links(v: RingView, op: u32)
    requires
        v.wf(),
    ensures
        v.init_step(op).wf(),
        v.init_step(op).cyclic(),
        v.init_step(op).bound(),
        v.init_step(op).stamped(op),
{
}

} // verus!
