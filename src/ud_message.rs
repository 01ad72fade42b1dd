//! Layout of datagram message buffers.
use vstd::prelude::*;
use crate::align::{round_up, round_up_spec, CACHE_LINE_SZ};

verus! {

/// Messages are spread over the buffer at `MSG_SCALE_NUM / MSG_SCALE_DEN`
/// times their size, so that neighbouring messages never share a line.
pub const MSG_SCALE_NUM: u64 = 33;

pub const MSG_SCALE_DEN: u64 = 10;

/// A cursor over `capacity` message slots of `msg_size` bytes each.
pub struct UdBuffer {
    pub capacity: u64,
    pub cur_idx: u64,
    pub msg_size: u64,
}

impl UdBuffer {
    /// A cursor at the first of `capacity` slots.
    pub fn new(capacity: u64, msg_size: u64) -> (r: Self)
        ensures
            r.capacity == capacity,
            r.cur_idx == 0,
            r.msg_size == msg_size,
    {
        UdBuffer { capacity, cur_idx: 0, msg_size }
    }

    /// Bytes to register for the buffer: four bytes per message byte,
    /// rounded up to a whole cache line.
    pub fn get_region_size(&self) -> (r: u64)
        requires
            self.capacity * self.msg_size * 4 + CACHE_LINE_SZ - 1 <= u64::MAX,
        ensures
            r == round_up_spec((self.capacity * self.msg_size * 4) as u64, CACHE_LINE_SZ),
    {
        assert(self.capacity * self.msg_size <= self.capacity * self.msg_size * 4) by (nonlinear_arith);
        round_up(self.capacity * self.msg_size * 4, 64)
    }

    /// The offset of the current slot, scaled and rounded up to a cache line;
    /// the cursor then moves to the next slot, wrapping after the last one.
    pub fn get_start_addr(&mut self) -> (r: u64)
        requires
            old(self).capacity > 0,
            old(self).cur_idx * old(self).msg_size * MSG_SCALE_NUM + CACHE_LINE_SZ - 1 <= u64::MAX,
        ensures
            r == round_up_spec(
                (old(self).cur_idx * old(self).msg_size * MSG_SCALE_NUM / MSG_SCALE_DEN as int) as u64,
                CACHE_LINE_SZ,
            ),
            final(self).cur_idx == (old(self).cur_idx + 1) % (old(self).capacity as int),
            final(self).capacity == old(self).capacity,
            final(self).msg_size == old(self).msg_size,
    {
        let x: u64 = self.cur_idx * self.msg_size;
        assert(x <= x * 33) by (nonlinear_arith);
        let scaled: u64 = x * MSG_SCALE_NUM / MSG_SCALE_DEN;
        assert(scaled <= x * 33) by (nonlinear_arith) requires scaled == x * 33 / 10;
        let start = round_up(scaled, CACHE_LINE_SZ as i64);
        self.cur_idx = ((self.cur_idx as u128 + 1) % self.capacity as u128) as u64;
        start
    }
}

} // verus!
