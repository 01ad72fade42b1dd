use bench_util::ring::{
    DoorbellHelper, Sge, Staged, WrTarget, IBV_WR_RDMA_READ, IBV_WR_RDMA_WRITE, MAX_BATCH_SZ,
};

fn staged(i: u64) -> Staged {
    Staged {
        sge: Sge { addr: 1000 + i, length: 8, lkey: 3 },
        wr_id: i,
        send_flags: 0,
        imm_data: 0,
        target: WrTarget::Rdma { remote_addr: 5000 + i, rkey: 9 },
    }
}

fn links_form_cycle(r: &DoorbellHelper) -> bool {
    let cap = r.capacity();
    (0..cap).all(|i| r.get_wr(i).next == Some((i + 1) % cap))
}

#[test]
fn sanity_holds_for_every_capacity() {
    for cap in 1..=MAX_BATCH_SZ {
        let r = DoorbellHelper::create(cap, IBV_WR_RDMA_WRITE);
        assert!(r.sanity_check());
        assert!(links_form_cycle(&r));
        assert_eq!(r.size(), 0);
        assert!(r.is_empty());
    }
}

#[test]
fn blank_ring_is_not_bound_until_init() {
    let mut r = DoorbellHelper::new(4);
    assert!(!r.sanity_check());
    r.init(IBV_WR_RDMA_READ);
    assert!(r.sanity_check());
    for i in 0..4 {
        assert_eq!(r.get_wr(i).opcode, IBV_WR_RDMA_READ);
        assert_eq!(r.get_wr(i).num_sge, 1);
        assert_eq!(r.get_wr(i).sg_list, Some(i));
    }
    assert_eq!(r.get_wr(4).sg_list, None);
}

#[test]
fn next_refuses_when_full() {
    let mut r = DoorbellHelper::create(3, IBV_WR_RDMA_WRITE);
    assert!(r.next());
    assert!(r.next());
    assert!(!r.is_full());
    assert!(r.next());
    assert!(r.is_full());
    assert_eq!(r.size(), 3);
    assert!(!r.next());
    assert_eq!(r.size(), 3);
}

#[test]
fn freeze_then_clear_restores_cycle() {
    let mut r = DoorbellHelper::create(4, IBV_WR_RDMA_WRITE);
    for _ in 0..4 {
        assert!(r.next());
    }
    r.freeze();
    assert_eq!(r.get_wr(3).next, None);
    let batch = r.batch();
    assert_eq!(batch.len(), 4);
    assert_eq!(batch[3].wr.next, None);
    r.clear();
    assert_eq!(r.size(), 0);
    assert!(links_form_cycle(&r));
    assert!(r.sanity_check());
    for i in 0..4 {
        assert_eq!(r.get_wr(i).opcode, IBV_WR_RDMA_WRITE);
    }
}

#[test]
fn partial_batch_ends_at_last_staged_slot() {
    let mut r = DoorbellHelper::create(8, IBV_WR_RDMA_WRITE);
    for _ in 0..3 {
        assert!(r.next());
    }
    r.freeze();
    let batch = r.batch();
    assert_eq!(batch.len(), 3);
    assert_eq!(batch[0].wr.sg_list, Some(0));
    assert_eq!(batch[2].wr.sg_list, Some(2));
    r.freeze_done();
    assert_eq!(r.get_wr(2).next, Some(3));
    assert_eq!(r.size(), 3);
    r.empty();
    assert_eq!(r.size(), 0);
}

#[test]
fn freeze_done_on_last_slot_links_to_first() {
    let mut r = DoorbellHelper::create(2, IBV_WR_RDMA_WRITE);
    assert!(r.next());
    assert!(r.next());
    r.freeze();
    r.freeze_done();
    assert_eq!(r.get_wr(1).next, Some(0));
}

#[test]
fn cycle_walk_returns_after_capacity_hops() {
    let r = DoorbellHelper::create(5, IBV_WR_RDMA_WRITE);
    for start in 0..5 {
        let mut at = start;
        for hop in 1..=5 {
            at = r.get_wr(at).next.unwrap();
            if hop < 5 {
                assert_ne!(at, start);
            }
        }
        assert_eq!(at, start);
    }
}

#[test]
fn unfrozen_ring_walk_stops_after_capacity() {
    let r = DoorbellHelper::create(3, IBV_WR_RDMA_WRITE);
    assert_eq!(r.batch().len(), 3);
}

#[test]
fn post_fills_current_slot_and_flushes_when_full() {
    let mut r = DoorbellHelper::create(2, IBV_WR_RDMA_WRITE);
    assert!(r.post(staged(1)).is_none());
    assert_eq!(r.cur_wr().wr_id, 1);
    assert_eq!(r.cur_sge().addr, 1001);
    let batch = r.post(staged(2)).unwrap();
    assert_eq!(batch.len(), 2);
    assert_eq!(batch[0].wr.wr_id, 1);
    assert_eq!(batch[1].wr.wr_id, 2);
    assert_eq!(batch[1].sge.addr, 1002);
    assert_eq!(r.size(), 0);
    assert!(r.sanity_check());
    assert!(links_form_cycle(&r));
}

#[test]
fn sanity_survives_many_cycles() {
    let mut r = DoorbellHelper::create(7, IBV_WR_RDMA_WRITE);
    let mut flushes = 0;
    for i in 0..70 {
        if r.post(staged(i)).is_some() {
            flushes += 1;
        }
        assert!(r.sanity_check());
    }
    assert_eq!(flushes, 10);
}
