use bench_util::doorbell::{DatagramDest, LocalMr, RcDoorbellHelper, UdDoorbellHelper, MAX_INLINE_SZ};
use bench_util::recv_doorbell::{RecvDoorbell, RecvDoorbellHelper};
use bench_util::ring::{
    WrTarget, IBV_SEND_INLINE, IBV_SEND_SIGNALED, IBV_WR_RDMA_WRITE, IBV_WR_SEND, MAX_BATCH_SZ,
};

const BASE: u64 = 0x10_0000;

fn mr() -> LocalMr {
    LocalMr { addr: BASE, lkey: 77 }
}

fn dest() -> DatagramDest {
    DatagramDest { qpn: 12, qkey: 0x1111, ah: 0xdead }
}

#[test]
fn rc_four_posts_make_one_batch() {
    let mut h = RcDoorbellHelper::create(4);
    h.init(IBV_WR_RDMA_WRITE);
    let ranges = [0..64u64, 64..128, 128..192, 192..256];
    let signaled = [true, false, false, false];
    let mut batches = Vec::new();
    for k in 0..4 {
        let out = h.post_send(&mr(), ranges[k].clone(), signaled[k], 0x9000 + k as u64, 5, k as u64);
        if let Some(b) = out {
            batches.push(b);
        }
    }
    assert_eq!(batches.len(), 1);
    let batch = &batches[0];
    assert_eq!(batch.len(), 4);
    assert_eq!(batch[0].wr.sg_list, Some(0));
    for k in 0..4 {
        assert_eq!(batch[k].sge.addr, BASE + 64 * k as u64);
        assert_eq!(batch[k].sge.length, 64);
        assert_eq!(batch[k].sge.lkey, 77);
        let flag = if signaled[k] { IBV_SEND_SIGNALED } else { 0 };
        assert_eq!(batch[k].wr.send_flags, flag);
        assert_eq!(batch[k].wr.wr_id, k as u64);
        assert_eq!(batch[k].wr.opcode, IBV_WR_RDMA_WRITE);
        match batch[k].wr.target {
            WrTarget::Rdma { remote_addr, rkey } => {
                assert_eq!(remote_addr, 0x9000 + k as u64);
                assert_eq!(rkey, 5);
            }
            _ => panic!("one-sided descriptor without a remote target"),
        }
    }
    assert_eq!(batch[0].wr.next, Some(1));
    assert_eq!(batch[2].wr.next, Some(3));
    assert_eq!(batch[3].wr.next, None);
    assert_eq!(h.size(), 0);
    assert!(h.sanity_check());
}

#[test]
fn rc_capacity_one_flushes_every_post() {
    let mut h = RcDoorbellHelper::create(1);
    h.init(IBV_WR_RDMA_WRITE);
    for k in 0..5u64 {
        let b = h.post_send(&mr(), 0..8, true, 0, 0, k).unwrap();
        assert_eq!(b.len(), 1);
        assert_eq!(b[0].wr.wr_id, k);
        assert_eq!(b[0].wr.next, None);
        assert_eq!(h.size(), 0);
    }
}

#[test]
fn ud_capacity_one_flushes_every_post() {
    let mut h = UdDoorbellHelper::create(1, IBV_WR_SEND);
    for k in 0..3u64 {
        let b = h.post_send(&dest(), &mr(), 0..8, k, None, false).unwrap();
        assert_eq!(b.len(), 1);
        assert_eq!(h.size(), 0);
    }
}

#[test]
fn recv_capacity_one_flushes_every_post() {
    let mut h = RecvDoorbellHelper::create(1);
    for k in 0..3u64 {
        let b = h.post_recv(&mr(), 0..4096, k).unwrap();
        assert_eq!(b.len(), 1);
        assert_eq!(b[0].wr.wr_id, k);
        assert_eq!(b[0].sge.length, 4096);
        assert_eq!(h.size(), 0);
    }
}

#[test]
fn ud_batch_keeps_order_and_fields() {
    let mut h = UdDoorbellHelper::create(3, IBV_WR_SEND);
    assert!(h.sanity_check());
    assert!(h.post_send(&dest(), &mr(), 0..64, 10, Some(7), true).is_none());
    assert_eq!(h.size(), 1);
    assert!(h.post_send(&dest(), &mr(), 64..129, 11, None, false).is_none());
    assert_eq!(h.size(), 2);
    let b = h.post_send(&dest(), &mr(), 200..210, 12, Some(9), false).unwrap();
    assert_eq!(b.len(), 3);
    assert_eq!(b[0].wr.wr_id, 10);
    assert_eq!(b[1].wr.wr_id, 11);
    assert_eq!(b[2].wr.wr_id, 12);
    assert_eq!(b[0].wr.send_flags, IBV_SEND_SIGNALED | IBV_SEND_INLINE);
    assert_eq!(b[1].wr.send_flags, 0);
    assert_eq!(b[2].wr.send_flags, IBV_SEND_INLINE);
    assert_eq!(b[0].wr.imm_data, 7);
    assert_eq!(b[1].wr.imm_data, 0);
    assert_eq!(b[2].wr.imm_data, 9);
    assert_eq!(b[1].sge.addr, BASE + 64);
    assert_eq!(b[1].sge.length, 65);
    for p in &b {
        assert_eq!(p.wr.opcode, IBV_WR_SEND);
        match p.wr.target {
            WrTarget::Ud { remote_qpn, remote_qkey, ah } => {
                assert_eq!(remote_qpn, 12);
                assert_eq!(remote_qkey, 0x1111);
                assert_eq!(ah, 0xdead);
            }
            _ => panic!("datagram descriptor without a destination"),
        }
    }
    assert_eq!(h.size(), 0);
    assert!(h.sanity_check());
}

#[test]
fn ud_inline_threshold_is_inclusive() {
    let mut h = UdDoorbellHelper::create(2, IBV_WR_SEND);
    let n = MAX_INLINE_SZ as u64;
    assert!(h.post_send(&dest(), &mr(), 0..n, 1, None, false).is_none());
    let b = h.post_send(&dest(), &mr(), 0..n + 1, 2, None, false).unwrap();
    assert_eq!(b[0].wr.send_flags, IBV_SEND_INLINE);
    assert_eq!(b[1].wr.send_flags, 0);
}

#[test]
fn reversed_range_has_no_length() {
    let mut h = RcDoorbellHelper::create(1);
    h.init(IBV_WR_RDMA_WRITE);
    #[allow(clippy::reversed_empty_ranges)]
    let b = h.post_send(&mr(), 100..50, false, 0, 0, 0).unwrap();
    assert_eq!(b[0].sge.length, 0);
    assert_eq!(b[0].sge.addr, BASE + 100);
}

#[test]
fn recv_batch_after_capacity_posts() {
    let mut h = RecvDoorbellHelper::create(MAX_BATCH_SZ);
    assert!(h.sanity_check());
    for k in 0..(MAX_BATCH_SZ as u64 - 1) {
        assert!(h.post_recv(&mr(), k * 64..(k + 1) * 64, k).is_none());
    }
    let b = h.post_recv(&mr(), 0..64, 999).unwrap();
    assert_eq!(b.len(), MAX_BATCH_SZ);
    assert_eq!(b[5].sge.addr, BASE + 5 * 64);
    assert_eq!(b[MAX_BATCH_SZ - 1].wr.wr_id, 999);
    assert_eq!(b[MAX_BATCH_SZ - 1].wr.next, None);
    assert!(h.sanity_check());
}

#[test]
fn recv_ring_operations() {
    let mut r = RecvDoorbell::create(2);
    assert!(!r.sanity_check());
    r.init();
    assert!(r.sanity_check());
    assert!(r.is_empty());
    assert!(r.next());
    assert_eq!(r.cur_wr().sg_list, Some(0));
    assert_eq!(r.cur_sge().length, 0);
    assert!(r.next());
    assert!(r.is_full());
    assert!(!r.next());
    r.freeze();
    assert_eq!(r.get_wr(1).next, None);
    r.freeze_done();
    assert_eq!(r.get_wr(1).next, Some(0));
    assert_eq!(r.get_sge(1).addr, 0);
    r.freeze();
    r.clear();
    assert_eq!(r.size(), 0);
    assert!(r.next());
    r.empty();
    assert!(r.is_empty());
}
