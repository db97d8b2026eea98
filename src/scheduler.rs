use vstd::prelude::*;

verus! {

/// Whether the cron scheduler accepts `expr` as a schedule (seconds first,
/// day-of-month and day-of-week both honoured).
pub uninterp spec fn cron_accepts(expr: Seq<char>) -> bool;

/// Relies on tokio_cron_scheduler::Job::new: it fails exactly when croner
/// rejects the expression; the job itself is discarded.
#[verifier::external_body]
pub(crate) fn cron_parses(expr: &str) -> (r: bool)
    ensures
        r == cron_accepts(expr@),
{
    tokio_cron_scheduler::Job::new(expr, |_job_id, _scheduler| {}).is_ok()
}

} // verus!
