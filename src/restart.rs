use vstd::prelude::*;

verus! {

/// Relies on rand::random: a value drawn from the thread-local generator;
/// nothing is known of it.
pub assume_specification<T>[ rand::random::<T> ]() -> (r: T)
    where
        rand::distributions::Standard: rand::distributions::Distribution<T>,
;

/// When and how fast a daemon is brought back after its process exits.
/// Delays are whole milliseconds.
#[derive(Debug, Clone, Copy, PartialEq, Eq, Structural)]
pub enum RestartPolicy {
    Always { max_retries: Option<u32>, backoff_base_ms: u64, backoff_max_ms: u64 },
    OnFailure { max_retries: Option<u32>, backoff_base_ms: u64, backoff_max_ms: u64 },
    Never,
}

pub fn default_max_retries() -> (r: Option<u32>)
    ensures
        r is None,
{
    None
}

pub fn default_backoff_base_ms() -> (r: u64)
    ensures
        r == 1000,
{
    1000
}

pub fn default_backoff_max_ms() -> (r: u64)
    ensures
        r == 300_000,
{
    300_000
}

impl Default for RestartPolicy {
    fn default() -> (r: RestartPolicy)
        ensures
            r == RestartPolicy::Never,
    {
        RestartPolicy::Never
    }
}

pub open spec fn pow2(n: nat) -> nat
    decreases n,
{
    if n == 0 {
        1
    } else {
        2 * pow2((n - 1) as nat)
    }
}

/// `base · 2^attempt`, capped at `max`.
pub open spec fn capped_delay(attempt: nat, base: nat, max: nat) -> nat {
    if base * pow2(attempt) <= max {
        base * pow2(attempt)
    } else {
        max
    }
}

/// The delay after adding a jitter drawn as `random`: up to a tenth of the
/// capped delay, saturating at the largest representable delay.
pub open spec fn jittered(capped: nat, random: nat) -> nat {
    let d = capped + random % (capped / 10 + 1);
    if d <= u64::MAX {
        d
    } else {
        u64::MAX as nat
    }
}

/// Whether a failure-counted cap still allows another restart.
pub open spec fn below_cap(max_retries: Option<u32>, restart_count: u32) -> bool {
    match max_retries {
        None => true,
        Some(max) => restart_count < max,
    }
}

/// An exit counts as a failure unless it reported code 0.
pub open spec fn exit_failed(exit_code: Option<i32>) -> bool {
    match exit_code {
        None => true,
        Some(c) => c != 0,
    }
}

pub open spec fn restart_due(policy: RestartPolicy, exit_code: Option<i32>, restart_count: u32) -> bool {
    match policy {
        RestartPolicy::Never => false,
        RestartPolicy::Always { max_retries, .. } => below_cap(max_retries, restart_count),
        RestartPolicy::OnFailure { max_retries, .. } => exit_failed(exit_code) && below_cap(
            max_retries,
            restart_count,
        ),
    }
}

/// The restart count after one observed exit: it grows by one exactly when a
/// restart is due (and the counter has room).
pub open spec fn count_after_exit(policy: RestartPolicy, exit_code: Option<i32>, count: u32) -> u32 {
    if restart_due(policy, exit_code, count) && count < u32::MAX {
        (count + 1) as u32
    } else {
        count
    }
}

/// The restart count of a fresh daemon after `n` runs that all ended with `exit_code`.
pub open spec fn count_after_runs(policy: RestartPolicy, exit_code: Option<i32>, n: nat) -> u32
    decreases n,
{
    if n == 0 {
        0
    } else {
        count_after_exit(policy, exit_code, count_after_runs(policy, exit_code, (n - 1) as nat))
    }
}

/// Under a cap of `k` retries, a daemon whose runs all fail is restarted at
/// most `k` times: after `n` failed runs its restart count is `min(n, k)`, so
/// once restarts stop it equals `k`.
pub proof fn lemma_restart_bound(policy: RestartPolicy, exit_code: Option<i32>, k: u32, n: nat)
    requires
        match policy {
            RestartPolicy::Always { max_retries, .. } => max_retries == Some(k),
            RestartPolicy::OnFailure { max_retries, .. } => max_retries == Some(k) && exit_failed(
                exit_code,
            ),
            RestartPolicy::Never => false,
        },
    ensures
        count_after_runs(policy, exit_code, n) == (if n <= k { n } else { k as nat }),
        count_after_runs(policy, exit_code, n) <= k,
        n >= k ==> count_after_runs(policy, exit_code, n) == k,
    decreases n,
{
    if n > 0 {
        lemma_restart_bound(policy, exit_code, k, (n - 1) as nat);
    }
}

/// A clean exit (code 0) never restarts an on-failure daemon; any other exit,
/// or one whose code is unknown, restarts it while the retry cap allows.
pub proof fn lemma_on_failure_semantics(
    max_retries: Option<u32>,
    backoff_base_ms: u64,
    backoff_max_ms: u64,
    exit_code: Option<i32>,
    restart_count: u32,
)
    ensures
        ({
            let p = RestartPolicy::OnFailure { max_retries, backoff_base_ms, backoff_max_ms };
            &&& !restart_due(p, Some(0i32), restart_count)
            &&& exit_code != Some(0i32) ==> (restart_due(p, exit_code, restart_count)
                <==> below_cap(max_retries, restart_count))
        }),
{
}

proof fn lemma_pow2_positive(n: nat)
    ensures
        pow2(n) >= 1,
    decreases n,
{
    if n > 0 {
        lemma_pow2_positive((n - 1) as nat);
    }
}

proof fn lemma_scaled_pow2_monotone(base: nat, i: nat, j: nat)
    requires
        i <= j,
    ensures
        base * pow2(i) <= base * pow2(j),
    decreases j - i,
{
    if i < j {
        lemma_scaled_pow2_monotone(base, i, (j - 1) as nat);
        lemma_pow2_positive((j - 1) as nat);
        let p = pow2((j - 1) as nat);
        assert(pow2(j) == 2 * p);
        assert(base * p <= base * (2 * p)) by (nonlinear_arith)
            requires
                p >= 1,
        ;
    }
}

/// `min(base · 2^attempt, max)`, computed by doubling without overflow.
pub fn capped_backoff(attempt: u32, base_ms: u64, max_ms: u64) -> (r: u64)
    ensures
        r == capped_delay(attempt as nat, base_ms as nat, max_ms as nat),
{
    if base_ms == 0 {
        proof {
            assert(0 * pow2(attempt as nat) == 0) by (nonlinear_arith);
        }
        return 0;
    }
    let mut d: u64 = base_ms;
    let mut i: u32 = 0;
    proof {
        assert(base_ms as nat * pow2(0) == base_ms as nat) by (nonlinear_arith)
            requires
                pow2(0) == 1,
        ;
    }
    while i < attempt && d < max_ms
        invariant
            i <= attempt,
            base_ms > 0,
            d as nat == base_ms as nat * pow2(i as nat),
        decreases attempt - i,
    {
        let ghost p = pow2(i as nat);
        proof {
            assert(pow2((i + 1) as nat) == 2 * p);
            assert(base_ms as nat * (2 * p) == 2 * (base_ms as nat * p)) by (nonlinear_arith);
        }
        if d > max_ms / 2 {
            // the next doubling already reaches the cap
            proof {
                lemma_scaled_pow2_monotone(base_ms as nat, (i + 1) as nat, attempt as nat);
            }
            return max_ms;
        }
        d = d * 2;
        i = i + 1;
    }
    if d >= max_ms {
        proof {
            lemma_scaled_pow2_monotone(base_ms as nat, i as nat, attempt as nat);
        }
        max_ms
    } else {
        d
    }
}

/// The capped delay for `attempt` plus the jitter that `random` selects.
pub fn backoff_with_jitter(attempt: u32, base_ms: u64, max_ms: u64, random: u64) -> (r: u64)
    ensures
        r == jittered(capped_delay(attempt as nat, base_ms as nat, max_ms as nat), random as nat),
        capped_delay(attempt as nat, base_ms as nat, max_ms as nat) <= r,
        r <= capped_delay(attempt as nat, base_ms as nat, max_ms as nat) + capped_delay(
            attempt as nat,
            base_ms as nat,
            max_ms as nat,
        ) / 10,
{
    let capped = capped_backoff(attempt, base_ms, max_ms);
    let jitter = random % (capped / 10 + 1);
    capped.saturating_add(jitter)
}

/// Exponential backoff with up to ten percent of random jitter: the delay lies
/// in `[min(base · 2^attempt, max), 1.1 · min(base · 2^attempt, max)]`.
pub fn compute_backoff(attempt: u32, base_ms: u64, max_ms: u64) -> (r: u64)
    ensures
        capped_delay(attempt as nat, base_ms as nat, max_ms as nat) <= r,
        r <= capped_delay(attempt as nat, base_ms as nat, max_ms as nat) + capped_delay(
            attempt as nat,
            base_ms as nat,
            max_ms as nat,
        ) / 10,
        10 * r <= 11 * capped_delay(attempt as nat, base_ms as nat, max_ms as nat),
{
    let random: u64 = rand::random::<u64>();
    backoff_with_jitter(attempt, base_ms, max_ms, random)
}

/// The pure decision taken after a supervised process exits.
pub struct RestartEvaluator;

impl RestartEvaluator {
    pub fn should_restart(policy: &RestartPolicy, exit_code: Option<i32>, restart_count: u32) -> (r:
        bool)
        ensures
            r == restart_due(*policy, exit_code, restart_count),
    {
        match policy {
            RestartPolicy::Never => false,
            RestartPolicy::Always { max_retries, .. } => match max_retries {
                None => true,
                Some(max) => restart_count < *max,
            },
            RestartPolicy::OnFailure { max_retries, .. } => {
                let failed = match exit_code {
                    None => true,
                    Some(c) => c != 0,
                };
                failed && match max_retries {
                    None => true,
                    Some(max) => restart_count < *max,
                }
            },
        }
    }

    /// The wait before restart number `restart_count`, in milliseconds.
    pub fn backoff_duration(policy: &RestartPolicy, restart_count: u32) -> (r: u64)
        ensures
            *policy == RestartPolicy::Never ==> r == 0,
            match *policy {
                RestartPolicy::Always { backoff_base_ms, backoff_max_ms, .. }
                | RestartPolicy::OnFailure { backoff_base_ms, backoff_max_ms, .. } => {
                    let c = capped_delay(
                        restart_count as nat,
                        backoff_base_ms as nat,
                        backoff_max_ms as nat,
                    );
                    c <= r && 10 * r <= 11 * c
                },
                RestartPolicy::Never => true,
            },
    {
        match policy {
            RestartPolicy::Always { backoff_base_ms, backoff_max_ms, .. }
            | RestartPolicy::OnFailure { backoff_base_ms, backoff_max_ms, .. } => compute_backoff(
                restart_count,
                *backoff_base_ms,
                *backoff_max_ms,
            ),
            RestartPolicy::Never => 0,
        }
    }
}

} // verus!
