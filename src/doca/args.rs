//! Arguments of the DMA-engine benchmark, as plain values.
use vstd::prelude::*;
use rand_chacha::ChaCha8Rng;
use crate::args::{draw_u64, index_args_ok, index_for, index_from_draw, max_u64};

verus! {

/// Arguments of the DMA-engine benchmark.
#[derive(Clone, Debug)]
pub struct CmdlineArgs {
    pub pci_dev: Vec<String>,
    pub random_space: u64,
    pub life: u32,
    pub listen_addr: String,
    pub huge_page: bool,
    pub client_id: u64,
    pub threads: u64,
    pub payload: u64,
    pub local_mr: u64,
    pub read: bool,
    pub fixed: bool,
    pub thread_gap: u64,
    pub latency_test: bool,
    pub batch_size: usize,
    pub server: bool,
}

impl CmdlineArgs {
    /// Makes the sizes agree: the local region holds a whole batch of
    /// payloads, a thread area holds a payload, and the random space holds a
    /// payload and every thread's area.
    pub fn coordinate(&mut self)
        requires
            old(self).batch_size * old(self).payload <= u64::MAX,
            old(self).threads * max_u64(old(self).payload, old(self).thread_gap) <= u64::MAX,
        ensures
            final(self).local_mr == max_u64(
                (old(self).batch_size * old(self).payload) as u64,
                old(self).local_mr,
            ),
            final(self).thread_gap == max_u64(old(self).payload, old(self).thread_gap),
            final(self).random_space == max_u64(
                (old(self).threads * final(self).thread_gap) as u64,
                max_u64(old(self).payload, old(self).random_space),
            ),
            final(self).pci_dev == old(self).pci_dev,
            final(self).life == old(self).life,
            final(self).listen_addr == old(self).listen_addr,
            final(self).huge_page == old(self).huge_page,
            final(self).client_id == old(self).client_id,
            final(self).threads == old(self).threads,
            final(self).payload == old(self).payload,
            final(self).read == old(self).read,
            final(self).fixed == old(self).fixed,
            final(self).latency_test == old(self).latency_test,
            final(self).batch_size == old(self).batch_size,
            final(self).server == old(self).server,
    {
        self.local_mr = (self.batch_size as u64 * self.payload).max(self.local_mr);
        self.thread_gap = self.payload.max(self.thread_gap);
        self.random_space = self.payload.max(self.random_space);
        self.random_space = (self.threads * self.thread_gap).max(self.random_space);
    }

    /// Draws the next offset for thread `thread_idx` from `rand`: whatever the
    /// draw, the offset is `index_for` of it, within the space left for a
    /// payload.
    pub fn get_next_index(&self, thread_idx: usize, rand: &mut ChaCha8Rng) -> (r: u64)
        requires
            index_args_ok(
                self.payload,
                self.random_space,
                self.fixed,
                self.thread_gap,
                self.threads,
                thread_idx as u64,
            ),
        ensures
            exists|d: u64|
                r == #[trigger] index_for(
                    self.payload,
                    self.random_space,
                    self.fixed,
                    self.thread_gap,
                    thread_idx as u64,
                    d,
                ),
            self.payload < self.random_space ==> r < self.random_space - self.payload,
    {
        let draw = draw_u64(rand);
        self.next_index_from(thread_idx, draw)
    }

    /// The offset for thread `thread_idx` and the random draw `draw`.
    pub fn next_index_from(&self, thread_idx: usize, draw: u64) -> (r: u64)
        requires
            index_args_ok(
                self.payload,
                self.random_space,
                self.fixed,
                self.thread_gap,
                self.threads,
                thread_idx as u64,
            ),
        ensures
            r == index_for(
                self.payload,
                self.random_space,
                self.fixed,
                self.thread_gap,
                thread_idx as u64,
                draw,
            ),
            self.payload < self.random_space ==> r < self.random_space - self.payload,
    {
        index_from_draw(
            self.payload,
            self.random_space,
            self.fixed,
            self.thread_gap,
            self.threads,
            thread_idx as u64,
            draw,
        )
    }
}

} // verus!
