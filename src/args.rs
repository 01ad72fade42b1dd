//! Benchmark arguments, as plain values, and the choice of the next remote
//! offset that a client accesses.
use vstd::prelude::*;
use rand::RngCore;
use rand_chacha::ChaCha8Rng;
use crate::align::{round_up, round_up_spec, CACHE_LINE_SZ};

verus! {

#[verifier::external_type_specification]
#[verifier::external_body]
pub struct ExChaCha8Rng(ChaCha8Rng);

/// Relies on `RngCore::next_u64` of rand_chacha's `ChaCha8Rng`: it returns
/// the next 64 bits of the generator's stream and advances the stream.
/// Nothing is promised of the value.
#[verifier::external_body]
pub(crate) fn draw_u64(rng: &mut ChaCha8Rng) -> (r: u64) {
    rng.next_u64()
}

pub open spec fn max_u64(a: u64, b: u64) -> u64 {
    if a >= b { a } else { b }
}

/// `x` rounded up to a whole cache line, wrapping to zero past the largest `u64`.
pub open spec fn align_draw(x: u64) -> u64 {
    if x as int + CACHE_LINE_SZ - 1 <= u64::MAX { round_up_spec(x, CACHE_LINE_SZ) as u64 } else { 0 }
}

/// The offset that a client accesses for the random draw `draw`: the draw is
/// first confined to the thread's own area when areas are `fixed`, then
/// aligned to a cache line and taken modulo the space left for a payload.
pub open spec fn index_for(
    payload: u64,
    random_space: u64,
    fixed: bool,
    thread_gap: u64,
    thread_idx: u64,
    draw: u64,
) -> u64 {
    if payload == random_space {
        0
    } else {
        let r: u64 = if fixed {
            if thread_gap != 0 {
                (draw % thread_gap + thread_idx * thread_gap) as u64
            } else {
                0
            }
        } else {
            draw
        };
        align_draw(r) % ((random_space - payload) as u64)
    }
}

/// What the choice of an offset asks of the arguments: room for a payload in
/// the random space, and thread areas that hold a payload and fit in it.
pub open spec fn index_args_ok(
    payload: u64,
    random_space: u64,
    fixed: bool,
    thread_gap: u64,
    threads: u64,
    thread_idx: u64,
) -> bool {
    &&& payload <= random_space
    &&& fixed && thread_gap != 0 ==> {
        &&& thread_gap >= payload
        &&& threads * thread_gap <= random_space
        &&& (thread_idx + 1) * thread_gap <= u64::MAX
    }
}

/// Chooses the offset for the draw `draw`, as `index_for` states.
pub(crate) fn index_from_draw(
    payload: u64,
    random_space: u64,
    fixed: bool,
    thread_gap: u64,
    threads: u64,
    thread_idx: u64,
    draw: u64,
) -> (r: u64)
    requires
        index_args_ok(payload, random_space, fixed, thread_gap, threads, thread_idx),
    ensures
        r == index_for(payload, random_space, fixed, thread_gap, thread_idx, draw),
        payload < random_space ==> r < random_space - payload,
{
    if payload == random_space {
        return 0;
    }
    let mut r = draw;
    if fixed {
        if thread_gap != 0 {
            assert(draw % thread_gap + thread_idx * thread_gap < (thread_idx + 1) * thread_gap)
                by (nonlinear_arith)
                requires thread_gap > 0;
            r = (r % thread_gap) + thread_idx * thread_gap;
        } else {
            r = 0;
        }
    }
    let aligned: u64 = if r <= u64::MAX - (CACHE_LINE_SZ - 1) {
        round_up(r, CACHE_LINE_SZ as i64)
    } else {
        0
    };
    aligned % (random_space - payload)
}

/// Arguments of the one-sided and two-sided RDMA benchmarks.
#[derive(Clone, Debug)]
pub struct CmdlineArgs {
    pub nic_num: usize,
    pub nic_idx: usize,
    pub random_space: u64,
    pub life: u32,
    pub listen_addr: String,
    pub report_addr: String,
    pub threads: u64,
    pub factor: u64,
    pub payload: u64,
    pub local_mr: u64,
    pub read: bool,
    pub fixed: bool,
    pub client_id: u64,
    pub thread_gap: u64,
    pub latency_test: bool,
    pub signal_size: usize,
    pub db_size: usize,
    pub report: bool,
    pub signaled: bool,
    pub doorbell: bool,
    pub profile: bool,
    pub server: bool,
    pub huge_page: bool,
}

impl CmdlineArgs {
    /// Makes the sizes agree: the local region holds a whole batch of
    /// payloads, a thread area holds a payload, and the random space holds a
    /// payload and every thread's area.
    pub fn coordinate(&mut self)
        requires
            old(self).factor * old(self).payload <= u64::MAX,
            old(self).threads * max_u64(old(self).payload, old(self).thread_gap) <= u64::MAX,
        ensures
            final(self).local_mr == max_u64(
                (old(self).factor * old(self).payload) as u64,
                old(self).local_mr,
            ),
            final(self).thread_gap == max_u64(old(self).payload, old(self).thread_gap),
            final(self).random_space == max_u64(
                (old(self).threads * final(self).thread_gap) as u64,
                max_u64(old(self).payload, old(self).random_space),
            ),
            final(self).nic_num == old(self).nic_num,
            final(self).nic_idx == old(self).nic_idx,
            final(self).life == old(self).life,
            final(self).listen_addr == old(self).listen_addr,
            final(self).report_addr == old(self).report_addr,
            final(self).threads == old(self).threads,
            final(self).factor == old(self).factor,
            final(self).payload == old(self).payload,
            final(self).read == old(self).read,
            final(self).fixed == old(self).fixed,
            final(self).client_id == old(self).client_id,
            final(self).latency_test == old(self).latency_test,
            final(self).signal_size == old(self).signal_size,
            final(self).db_size == old(self).db_size,
            final(self).report == old(self).report,
            final(self).signaled == old(self).signaled,
            final(self).doorbell == old(self).doorbell,
            final(self).profile == old(self).profile,
            final(self).server == old(self).server,
            final(self).huge_page == old(self).huge_page,
    {
        self.local_mr = (self.factor * self.payload).max(self.local_mr);
        self.thread_gap = self.payload.max(self.thread_gap);
        self.random_space = self.payload.max(self.random_space);
        self.random_space = (self.threads * self.thread_gap).max(self.random_space);
    }

    /// Draws the next offset for thread `thread_idx` from `rand`: whatever the
    /// draw, the offset is `index_for` of it, within the space left for a
    /// payload.
    pub fn get_next_index(&self, thread_idx: usize, rand: &mut ChaCha8Rng) -> (r: u64)
        requires
            index_args_ok(
                self.payload,
                self.random_space,
                self.fixed,
                self.thread_gap,
                self.threads,
                thread_idx as u64,
            ),
        ensures
            exists|d: u64|
                r == #[trigger] index_for(
                    self.payload,
                    self.random_space,
                    self.fixed,
                    self.thread_gap,
                    thread_idx as u64,
                    d,
                ),
            self.payload < self.random_space ==> r < self.random_space - self.payload,
    {
        let draw = draw_u64(rand);
        self.next_index_from(thread_idx, draw)
    }

    /// The offset for thread `thread_idx` and the random draw `draw`.
    pub fn next_index_from(&self, thread_idx: usize, draw: u64) -> (r: u64)
        requires
            index_args_ok(
                self.payload,
                self.random_space,
                self.fixed,
                self.thread_gap,
                self.threads,
                thread_idx as u64,
            ),
        ensures
            r == index_for(
                self.payload,
                self.random_space,
                self.fixed,
                self.thread_gap,
                thread_idx as u64,
                draw,
            ),
            self.payload < self.random_space ==> r < self.random_space - self.payload,
    {
        index_from_draw(
            self.payload,
            self.random_space,
            self.fixed,
            self.thread_gap,
            self.threads,
            thread_idx as u64,
            draw,
        )
    }
}

} // verus!
