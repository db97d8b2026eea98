use vstd::prelude::*;

use crate::daemon::DaemonInstance;
use crate::lifecycle::active;
use crate::text::{concat2, decimal, decimal_text};

verus! {

/// A running time of `t` seconds as an operator reads it: the two or three
/// largest units among days, hours, minutes and seconds.
pub open spec fn uptime_text(t: nat) -> Seq<char> {
    let days = t / 86400;
    let hours = (t % 86400) / 3600;
    let mins = (t % 3600) / 60;
    let secs = t % 60;
    if days > 0 {
        decimal(days) + "d "@ + decimal(hours) + "h "@ + decimal(mins) + "m"@
    } else if hours > 0 {
        decimal(hours) + "h "@ + decimal(mins) + "m "@ + decimal(secs) + "s"@
    } else if mins > 0 {
        decimal(mins) + "m "@ + decimal(secs) + "s"@
    } else {
        decimal(secs) + "s"@
    }
}

fn unit(n: u64, suffix: &str) -> (r: String)
    ensures
        r@ == decimal(n as nat) + suffix@,
{
    let d = decimal_text(n);
    concat2(d.as_str(), suffix)
}

pub fn uptime(total_secs: u64) -> (r: String)
    ensures
        r@ == uptime_text(total_secs as nat),
{
    let days = total_secs / 86400;
    let hours = (total_secs % 86400) / 3600;
    let mins = (total_secs % 3600) / 60;
    let secs = total_secs % 60;
    if days > 0 {
        let mut s = unit(days, "d ");
        s.append(unit(hours, "h ").as_str());
        s.append(unit(mins, "m").as_str());
        s
    } else if hours > 0 {
        let mut s = unit(hours, "h ");
        s.append(unit(mins, "m ").as_str());
        s.append(unit(secs, "s").as_str());
        s
    } else if mins > 0 {
        let mut s = unit(mins, "m ");
        s.append(unit(secs, "s").as_str());
        s
    } else {
        unit(secs, "s")
    }
}

/// How long an active instance has been up at time `now_ms`, in whole
/// seconds (rounded toward zero); `None` when it is not active, was never
/// started, or started more than a second in the future.
pub open spec fn uptime_secs(instance: DaemonInstance, now_ms: i64) -> Option<nat> {
    match instance.started_at {
        None => None,
        Some(start) => if !active(instance.state) {
            None
        } else if now_ms - start <= -1000 {
            None
        } else if now_ms - start < 0 {
            Some(0)
        } else {
            Some(((now_ms - start) / 1000) as nat)
        },
    }
}

/// The uptime column: the running time of an active instance, `-` otherwise.
pub fn format_uptime(instance: &DaemonInstance, now_ms: i64) -> (r: String)
    ensures
        r@ == match uptime_secs(*instance, now_ms) {
            Some(t) => uptime_text(t),
            None => "-"@,
        },
{
    let start = match instance.started_at {
        None => {
            return String::from_str("-");
        },
        Some(t) => t,
    };
    if !instance.state.is_active() {
        return String::from_str("-");
    }
    let diff: i128 = now_ms as i128 - start as i128;
    if diff <= -1000 {
        return String::from_str("-");
    }
    if diff < 0 {
        return uptime(0);
    }
    let secs = (diff / 1000) as u64;
    uptime(secs)
}

} // verus!
