use bench_util::args::CmdlineArgs;
use bench_util::doca::args::CmdlineArgs as DocaArgs;
use bench_util::doca::connection::{DocaConnInfo, DocaConnInfoMsg, RemoteBuffer};
use bench_util::stats::{BenchStat, SimpleBenchReporter};
use bench_util::ud_id::{decode_id, encode_id};
use bench_util::ud_message::UdBuffer;
use rand::SeedableRng;
use rand_chacha::ChaCha8Rng;

fn rdma_args() -> CmdlineArgs {
    CmdlineArgs {
        nic_num: 1,
        nic_idx: 0,
        random_space: 10240,
        life: 15,
        listen_addr: String::from("127.0.0.1:8888"),
        report_addr: String::from("127.0.0.1:10001"),
        threads: 1,
        factor: 64,
        payload: 64,
        local_mr: 4096,
        read: false,
        fixed: false,
        client_id: 0,
        thread_gap: 1024,
        latency_test: false,
        signal_size: 16,
        db_size: 16,
        report: false,
        signaled: false,
        doorbell: false,
        profile: false,
        server: false,
        huge_page: false,
    }
}

#[test]
fn coordinate_grows_sizes() {
    let mut a = rdma_args();
    a.threads = 20;
    a.payload = 2048;
    a.coordinate();
    assert_eq!(a.local_mr, 64 * 2048);
    assert_eq!(a.thread_gap, 2048);
    assert_eq!(a.random_space, 20 * 2048);
}

#[test]
fn coordinate_keeps_large_enough_sizes() {
    let mut a = rdma_args();
    a.coordinate();
    assert_eq!(a.local_mr, 4096);
    assert_eq!(a.thread_gap, 1024);
    assert_eq!(a.random_space, 10240);
}

#[test]
fn doca_coordinate() {
    let mut a = DocaArgs {
        pci_dev: vec![String::from("03:00.0")],
        random_space: 100,
        life: 15,
        listen_addr: String::from("127.0.0.1:7777"),
        huge_page: false,
        client_id: 0,
        threads: 4,
        payload: 32,
        local_mr: 4096,
        read: false,
        fixed: true,
        thread_gap: 8192,
        latency_test: false,
        batch_size: 256,
        server: false,
    };
    a.coordinate();
    assert_eq!(a.local_mr, 256 * 32);
    assert_eq!(a.thread_gap, 8192);
    assert_eq!(a.random_space, 4 * 8192);
    assert_eq!(a.next_index_from(1, 100), (8192 + 128) % (4 * 8192 - 32));
}

#[test]
fn next_index_exact_values() {
    let a = rdma_args();
    assert_eq!(a.next_index_from(0, 1), 64);
    assert_eq!(a.next_index_from(0, 10176), 0);
    assert_eq!(a.next_index_from(0, 10175), 0);
    assert_eq!(a.next_index_from(0, 10112), 10112);
    assert_eq!(a.next_index_from(0, 10177), (10240) % (10240 - 64));
    assert_eq!(a.next_index_from(0, u64::MAX), 0);
    let mut f = rdma_args();
    f.fixed = true;
    f.threads = 4;
    assert_eq!(f.next_index_from(2, 1025), 2048 + 64);
    f.thread_gap = 0;
    f.payload = 0;
    assert_eq!(f.next_index_from(3, 12345), 0);
}

#[test]
fn next_index_is_zero_when_payload_fills_space() {
    let mut a = rdma_args();
    a.payload = 10240;
    assert_eq!(a.next_index_from(0, 999), 0);
}

#[test]
fn drawn_index_stays_in_range_and_aligned() {
    let a = rdma_args();
    let mut rng = ChaCha8Rng::seed_from_u64(42);
    for _ in 0..100 {
        let idx = a.get_next_index(0, &mut rng);
        assert!(idx < a.random_space - a.payload);
    }
    let mut again = ChaCha8Rng::seed_from_u64(42);
    let mut same = ChaCha8Rng::seed_from_u64(42);
    assert_eq!(a.get_next_index(0, &mut again), a.get_next_index(0, &mut same));
}

#[test]
fn bench_stat_counts_and_averages() {
    let mut s = BenchStat::new();
    s.finished_one_op();
    s.finished_batch_ops(9);
    assert_eq!(s.num_ops_finished, 10);
    s.record_avg_rdtsc(10);
    assert_eq!(s.avg_rdtsc(), 10);
    s.record_avg_rdtsc(20);
    assert_eq!(s.avg_rdtsc(), 15);
    s.record_avg_rdtsc(0);
    assert_eq!(s.avg_rdtsc(), 10);
    s.record_avg_rdtsc(13);
    assert_eq!(s.avg_rdtsc(), 10);
    s.reset();
    assert_eq!(s.num_ops_finished, 0);
    assert_eq!(s.avg_rdtsc(), 0);
    assert_eq!(s, BenchStat::default());
}

#[test]
fn reporter_samples_period_differences() {
    let mut r = SimpleBenchReporter::new_with_id(3);
    assert_eq!(r.id(), 3);
    let mut a = BenchStat::new();
    let mut b = BenchStat::new();
    a.finished_batch_ops(5);
    b.finished_batch_ops(7);
    let p1 = r.sample_period(&vec![a, b]);
    assert_eq!(p1.id, 3);
    assert_eq!(p1.ops, 12);
    a.finished_batch_ops(4);
    let p2 = r.sample_period(&vec![a, b]);
    assert_eq!(p2.ops, 4);
    assert_eq!(p2.start, p1.end);
    assert!(p2.end >= p2.start);
    assert_eq!(SimpleBenchReporter::new().id(), 0);
}

#[test]
fn ud_buffer_layout() {
    let mut b = UdBuffer::new(3, 64);
    assert_eq!(b.get_region_size(), 768);
    assert_eq!(b.get_start_addr(), 0);
    assert_eq!(b.cur_idx, 1);
    assert_eq!(b.get_start_addr(), 256);
    assert_eq!(b.get_start_addr(), 448);
    assert_eq!(b.cur_idx, 0);
    let small = UdBuffer::new(1, 10);
    assert_eq!(small.get_region_size(), 64);
}

#[test]
fn id_encoding_round_trip() {
    let imm = encode_id(5, 9);
    assert_eq!(imm, (5 << 16) | 9);
    assert_eq!(decode_id(imm), (5, 9));
    assert_eq!(decode_id(0xffff_ffff), (0xffff, 0xffff));
}

#[test]
fn connection_info_conversions() {
    let mut info = DocaConnInfo::default();
    assert!(info.exports.is_empty());
    info.exports.push(vec![1, 2, 3]);
    info.buffers.push(RemoteBuffer { addr: 0x4000, payload: 256 });
    let msg: DocaConnInfoMsg = info.clone().into();
    assert_eq!(msg.exports, vec![vec![1u8, 2, 3]]);
    let back: DocaConnInfo = msg.into();
    assert_eq!(back.buffers.len(), 1);
    assert_eq!(back.buffers[0].addr, 0x4000);
    assert_eq!(back.buffers[0].payload, 256);
}
