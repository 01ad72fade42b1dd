//! The sender id that datagram messages carry as immediate data: a client id
//! in the high half and a thread id in the low half.
use vstd::prelude::*;

verus! {

/// Packs `client_id` into the high 16 bits and `thread_id` into the low bits.
pub fn encode_id(client_id: u32, thread_id: u32) -> (r: u32)
    ensures
        r == ((client_id << 16u32) | thread_id),
        client_id < 0x10000 && thread_id < 0x10000 ==> r == client_id * 0x10000 + thread_id,
{
    let r = (client_id << 16u32) | thread_id;
    assert(client_id < 0x10000 && thread_id < 0x10000 ==> r == client_id * 0x10000 + thread_id)
        by (bit_vector)
        requires r == (client_id << 16u32) | thread_id;
    r
}

/// Splits immediate data into its client id (high 16 bits) and thread id
/// (low 16 bits).
pub fn decode_id(imm_data: u32) -> (r: (u32, u32))
    ensures
        r.0 == imm_data / 0x10000,
        r.1 == imm_data % 0x10000,
{
    let client_id: u32 = imm_data >> 16u32;
    let thread_id: u32 = imm_data & 0xffffu32;
    assert(client_id == imm_data / 0x10000 && thread_id == imm_data % 0x10000) by (bit_vector)
        requires client_id == imm_data >> 16u32, thread_id == imm_data & 0xffffu32;
    (client_id, thread_id)
}

/// Decoding an encoded id gives back both halves, when each fits 16 bits.
pub proof fn lemma_id_round_trip(client_id: u32, thread_id: u32)
    requires
        client_id < 0x10000,
        thread_id < 0x10000,
    ensures
        (client_id * 0x10000 + thread_id) / 0x10000 == client_id,
        (client_id * 0x10000 + thread_id) % 0x10000 == thread_id,
{
    assert((client_id * 0x10000 + thread_id) / 0x10000 == client_id) by (nonlinear_arith)
        requires thread_id < 0x10000;
    assert((client_id * 0x10000 + thread_id) % 0x10000 == thread_id) by (nonlinear_arith)
        requires thread_id < 0x10000;
}

} // verus!
