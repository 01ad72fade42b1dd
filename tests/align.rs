use bench_util::align::{CACHE_LINE_SZ, GRH_SZ};
use bench_util::{align_to_cacheline, round_up};

#[test]
fn test_ud_align_to_cacheline() {
    let mut payload = 16;
    payload = align_to_cacheline(payload);
    assert_eq!(payload, 24);

    payload = 1024;
    payload = align_to_cacheline(payload);
    assert_eq!(payload, 984);
}

#[test]
fn align_to_cacheline_edges() {
    assert_eq!(align_to_cacheline(0), CACHE_LINE_SZ - GRH_SZ);
    assert_eq!(align_to_cacheline(64), 24);
    assert_eq!(align_to_cacheline(65), 128 - 40);
    assert_eq!(align_to_cacheline(128), 88);
}

#[test]
fn round_up_to_cache_line() {
    assert_eq!(round_up(0, 64), 0);
    assert_eq!(round_up(1, 64), 64);
    assert_eq!(round_up(64, 64), 64);
    assert_eq!(round_up(65, 64), 128);
    assert_eq!(round_up(u64::MAX - 63, 64), u64::MAX - 63);
}

#[test]
fn round_up_zero_factor_keeps_value() {
    assert_eq!(round_up(77, 0), 77);
}

#[test]
fn round_up_other_factors() {
    assert_eq!(round_up(5, 8), 8);
    assert_eq!(round_up(17, 16), 32);
    assert_eq!(round_up(10, 1), 10);
}
