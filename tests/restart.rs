use syspulse::restart::{
    backoff_with_jitter, capped_backoff, compute_backoff, RestartEvaluator, RestartPolicy,
};

#[test]
fn never_policy_never_restarts() {
    let policy = RestartPolicy::Never;
    assert!(!RestartEvaluator::should_restart(&policy, Some(1), 0));
    assert!(!RestartEvaluator::should_restart(&policy, Some(0), 0));
    assert!(!RestartEvaluator::should_restart(&policy, None, 0));
}

#[test]
fn always_policy_restarts_regardless_of_exit_code() {
    let policy = RestartPolicy::Always {
        max_retries: None,
        backoff_base_ms: 1000,
        backoff_max_ms: 300_000,
    };
    assert!(RestartEvaluator::should_restart(&policy, Some(0), 0));
    assert!(RestartEvaluator::should_restart(&policy, Some(1), 0));
    assert!(RestartEvaluator::should_restart(&policy, None, 0));
    assert!(RestartEvaluator::should_restart(&policy, Some(0), 100));
}

#[test]
fn always_policy_respects_max_retries() {
    let policy = RestartPolicy::Always {
        max_retries: Some(3),
        backoff_base_ms: 1000,
        backoff_max_ms: 300_000,
    };
    assert!(RestartEvaluator::should_restart(&policy, Some(1), 0));
    assert!(RestartEvaluator::should_restart(&policy, Some(1), 2));
    assert!(!RestartEvaluator::should_restart(&policy, Some(1), 3));
    assert!(!RestartEvaluator::should_restart(&policy, Some(1), 10));
}

#[test]
fn on_failure_restarts_only_on_failure() {
    let policy = RestartPolicy::OnFailure {
        max_retries: None,
        backoff_base_ms: 1000,
        backoff_max_ms: 300_000,
    };
    // exit_code 0 => success => no restart
    assert!(!RestartEvaluator::should_restart(&policy, Some(0), 0));
    // exit_code != 0 => failure => restart
    assert!(RestartEvaluator::should_restart(&policy, Some(1), 0));
    assert!(RestartEvaluator::should_restart(&policy, Some(137), 0));
    // None exit_code (e.g., signal) => treat as failure
    assert!(RestartEvaluator::should_restart(&policy, None, 0));
}

#[test]
fn on_failure_respects_max_retries() {
    let policy = RestartPolicy::OnFailure {
        max_retries: Some(2),
        backoff_base_ms: 1000,
        backoff_max_ms: 300_000,
    };
    assert!(RestartEvaluator::should_restart(&policy, Some(1), 0));
    assert!(RestartEvaluator::should_restart(&policy, Some(1), 1));
    assert!(!RestartEvaluator::should_restart(&policy, Some(1), 2));
}

fn secs(ms: u64) -> f64 {
    ms as f64 / 1000.0
}

#[test]
fn backoff_exponential_growth() {
    let d0 = compute_backoff(0, 1000, 300_000);
    let d1 = compute_backoff(1, 1000, 300_000);
    let d2 = compute_backoff(2, 1000, 300_000);

    // Base case: 1.0 * 2^0 = 1.0s (+ up to 10% jitter)
    assert!(secs(d0) >= 1.0);
    assert!(secs(d0) <= 1.1);

    // 1.0 * 2^1 = 2.0s (+ up to 10% jitter)
    assert!(secs(d1) >= 2.0);
    assert!(secs(d1) <= 2.2);

    // 1.0 * 2^2 = 4.0s (+ up to 10% jitter)
    assert!(secs(d2) >= 4.0);
    assert!(secs(d2) <= 4.4);
}

#[test]
fn backoff_caps_at_max() {
    let d = compute_backoff(20, 1000, 300_000);
    // 2^20 = 1048576 >> 300, so should be capped at 300 + up to 10% jitter
    assert!(secs(d) >= 300.0);
    assert!(secs(d) <= 330.0);
}

#[test]
fn backoff_never_policy_returns_zero() {
    let policy = RestartPolicy::Never;
    let d = RestartEvaluator::backoff_duration(&policy, 5);
    assert_eq!(d, 0);
}

#[test]
fn default_restart_policy_is_never() {
    match RestartPolicy::default() {
        RestartPolicy::Never => {}
        _ => panic!("Default should be Never"),
    }
}

#[test]
fn capped_backoff_exact_values() {
    assert_eq!(capped_backoff(0, 1000, 300_000), 1000);
    assert_eq!(capped_backoff(3, 1000, 300_000), 8000);
    assert_eq!(capped_backoff(8, 1000, 300_000), 256_000);
    assert_eq!(capped_backoff(9, 1000, 300_000), 300_000);
    assert_eq!(capped_backoff(4_000_000_000, 1000, 300_000), 300_000);
    assert_eq!(capped_backoff(63, 1, u64::MAX), 1u64 << 63);
    assert_eq!(capped_backoff(64, 1, u64::MAX), u64::MAX);
    assert_eq!(capped_backoff(5, 0, 300_000), 0);
    assert_eq!(capped_backoff(5, 10, 0), 0);
}

#[test]
fn jitter_adds_at_most_a_tenth() {
    // capped delay 4000 ms: jitter is random % 401
    assert_eq!(backoff_with_jitter(2, 1000, 300_000, 0), 4000);
    assert_eq!(backoff_with_jitter(2, 1000, 300_000, 400), 4400);
    assert_eq!(backoff_with_jitter(2, 1000, 300_000, 401), 4000);
    assert_eq!(backoff_with_jitter(2, 1000, 300_000, 1203), 4000 + 1203 % 401);
    assert_eq!(backoff_with_jitter(64, 1, u64::MAX, u64::MAX - 1), u64::MAX);
}

#[test]
fn backoff_law_holds_over_many_draws() {
    for attempt in 0..30u32 {
        for _ in 0..20 {
            let base = 10u64;
            let max = 100u64;
            let capped = capped_backoff(attempt, base, max);
            let d = compute_backoff(attempt, base, max);
            assert!(d >= capped);
            assert!(10 * d <= 11 * capped);
        }
    }
}

#[test]
fn restart_count_settles_at_the_cap_for_always_failing_child() {
    for policy in [
        RestartPolicy::Always { max_retries: Some(3), backoff_base_ms: 10, backoff_max_ms: 100 },
        RestartPolicy::OnFailure { max_retries: Some(3), backoff_base_ms: 10, backoff_max_ms: 100 },
    ] {
        let mut count = 0u32;
        let mut restarts = 0;
        for _ in 0..10 {
            if RestartEvaluator::should_restart(&policy, Some(1), count) {
                count += 1;
                restarts += 1;
            }
        }
        assert_eq!(restarts, 3);
        assert_eq!(count, 3);
    }
}

#[test]
fn on_failure_clean_exit_never_restarts_even_below_cap() {
    let policy = RestartPolicy::OnFailure { max_retries: Some(5), backoff_base_ms: 1, backoff_max_ms: 2 };
    assert!(!RestartEvaluator::should_restart(&policy, Some(0), 0));
    assert!(RestartEvaluator::should_restart(&policy, Some(-15), 4));
    assert!(!RestartEvaluator::should_restart(&policy, Some(-15), 5));
}
