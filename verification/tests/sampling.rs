use archdash::metrics::{clamp_cpu, ratio_permille};
use archdash::{DashError, ProviderReading, Sampler};

fn reading(cpu: Vec<i64>, memory: (u64, u64), swap: (u64, u64)) -> ProviderReading {
    ProviderReading {
        cpu_centipercent: cpu,
        memory_used: memory.0,
        memory_total: memory.1,
        swap_used: swap.0,
        swap_total: swap.1,
        host_name: Some(String::from("testhost")),
        uptime_seconds: 12,
    }
}

#[test]
fn cpu_clamped_below_zero() {
    // -5.00 percent is stored as 0.00 percent.
    assert_eq!(clamp_cpu(-500), 0);
}

#[test]
fn cpu_clamped_above_full_scale() {
    // 150.00 percent is stored as 100.00 percent.
    assert_eq!(clamp_cpu(15000), 10000);
}

#[test]
fn cpu_in_range_passes_through() {
    assert_eq!(clamp_cpu(0), 0);
    assert_eq!(clamp_cpu(4321), 4321);
    assert_eq!(clamp_cpu(10000), 10000);
}

#[test]
fn ratio_with_zero_total_is_zero_for_all_used() {
    for used in [0u64, 1, 500, u64::MAX] {
        assert_eq!(ratio_permille(used, 0), 0);
    }
}

#[test]
fn ratio_is_exact_permille() {
    assert_eq!(ratio_permille(500, 1000), 500);
    assert_eq!(ratio_permille(1, 3), 333);
    assert_eq!(ratio_permille(0, 7), 0);
}

#[test]
fn ratio_saturates_at_full() {
    assert_eq!(ratio_permille(7, 7), 1000);
    assert_eq!(ratio_permille(9, 7), 1000);
}

#[test]
fn first_tick_end_to_end() {
    // Provider reports cores at 10.0% and 20.0%, memory 500/1000, swap 0/0.
    let mut sampler = Sampler::new(100);
    let snap = match sampler.sample(reading(vec![1000, 2000], (500, 1000), (0, 0))) {
        Ok(snap) => snap,
        Err(_) => panic!("first reading must establish the channel set"),
    };
    assert_eq!(snap.cpu_current, vec![1000, 2000]);
    assert_eq!(snap.memory_ratio_permille, 500);
    assert_eq!(snap.swap_ratio_permille, 0);
    assert_eq!(snap.cpu_history, vec![vec![1000], vec![2000]]);
    assert_eq!(snap.memory_history, vec![500]);
    assert_eq!(snap.swap_history, vec![0]);
    assert_eq!(snap.memory_used, 500);
    assert_eq!(snap.memory_total, 1000);
    assert_eq!(snap.swap_used, 0);
    assert_eq!(snap.swap_total, 0);
    assert_eq!(snap.host_name.as_deref(), Some("testhost"));
    assert_eq!(snap.uptime_seconds, 12);
}

#[test]
fn out_of_range_cpu_clamped_before_storage() {
    let mut sampler = Sampler::new(100);
    let snap = match sampler.sample(reading(vec![-500, 15000], (0, 0), (0, 0))) {
        Ok(snap) => snap,
        Err(_) => panic!("first reading must establish the channel set"),
    };
    assert_eq!(snap.cpu_current, vec![0, 10000]);
    assert_eq!(snap.cpu_history, vec![vec![0], vec![10000]]);
}

#[test]
fn histories_grow_across_ticks() {
    let mut sampler = Sampler::new(100);
    assert!(sampler.sample(reading(vec![1000], (1, 4), (0, 0))).is_ok());
    let snap = match sampler.sample(reading(vec![3000], (2, 4), (0, 0))) {
        Ok(snap) => snap,
        Err(_) => panic!("same channel set must be accepted"),
    };
    assert_eq!(snap.cpu_history, vec![vec![1000, 3000]]);
    assert_eq!(snap.memory_history, vec![250, 500]);
}

#[test]
fn channel_count_change_is_fatal() {
    // Startup detects 2 cores; a later report of 4 cores is rejected.
    let mut sampler = Sampler::new(100);
    assert!(sampler.sample(reading(vec![1000, 2000], (500, 1000), (0, 0))).is_ok());
    let result = sampler.sample(reading(vec![1000, 2000, 3000, 4000], (500, 1000), (0, 0)));
    match result {
        Err(err) => assert_eq!(err, DashError::ChannelCountChanged),
        Ok(_) => panic!("a changed channel count must be rejected"),
    }
    // The rejection left the sampler untouched: the old set still works and
    // no sample from the mismatched reading was stored.
    let snap = match sampler.sample(reading(vec![1100, 2100], (500, 1000), (0, 0))) {
        Ok(snap) => snap,
        Err(_) => panic!("the established channel set must still be accepted"),
    };
    assert_eq!(snap.cpu_history, vec![vec![1000, 1100], vec![2000, 2100]]);
}

#[test]
fn error_descriptions_are_fixed() {
    assert_eq!(
        DashError::ProviderUnavailable.describe(),
        "metrics provider unavailable at startup"
    );
    assert_eq!(DashError::ProviderReadFailed.describe(), "metrics refresh failed");
    assert_eq!(DashError::ChannelCountChanged.describe(), "channel count changed mid-run");
    assert_eq!(DashError::TerminalSetupFailed.describe(), "terminal setup failed");
    assert_eq!(DashError::TerminalTeardownFailed.describe(), "terminal teardown failed");
}
