use vstd::prelude::*;

use crate::daemon::{DaemonInstance, DaemonSpec};
use crate::error::{error_code, error_message, SyspulseError};
use crate::lifecycle::{active, valid_transition, LifecycleState};
use crate::manager::{spec_runnable, DaemonManager, StopPlan};
use crate::scheduler::cron_accepts;
use crate::text::{concat3, decimal, decimal_text};

verus! {

/// The largest payload a frame may carry: 10 MiB.
pub const MAX_FRAME: usize = 10 * 1024 * 1024;

pub enum Request {
    Start { name: String, wait: bool, timeout_secs: Option<u64> },
    Stop { name: String, force: bool, timeout_secs: Option<u64> },
    Restart { name: String, force: bool, wait: bool },
    Status { name: Option<String> },
    List,
    Logs { name: String, lines: usize, stderr: bool },
    Add { spec: DaemonSpec },
    Remove { name: String, force: bool },
    Shutdown,
    Ping,
}

pub enum Response {
    Success { message: String },
    Status { instance: DaemonInstance },
    List { instances: Vec<DaemonInstance> },
    Logs { lines: Vec<String> },
    Pong,
    Error { code: u32, message: String },
}

/// The four big-endian bytes of `n`.
pub open spec fn be32(n: u32) -> Seq<u8> {
    seq![
        (n >> 24u32) as u8,
        ((n >> 16u32) & 0xffu32) as u8,
        ((n >> 8u32) & 0xffu32) as u8,
        (n & 0xffu32) as u8,
    ]
}

/// The number whose big-endian bytes open `b`.
pub open spec fn read_be32(b: Seq<u8>) -> u32 {
    ((b[0] as u32) << 24u32) | ((b[1] as u32) << 16u32) | ((b[2] as u32) << 8u32) | (b[3] as u32)
}

/// A frame: the payload's length as four big-endian bytes, then the payload.
pub open spec fn frame_of(payload: Seq<u8>) -> Seq<u8> {
    be32(payload.len() as u32) + payload
}

/// The payload length a buffer's header announces.
pub open spec fn announced_len(buf: Seq<u8>) -> nat {
    read_be32(buf) as nat
}

proof fn lemma_be32_round_trip(n: u32)
    ensures
        read_be32(be32(n)) == n,
{
    let b = be32(n);
    assert((((n >> 24u32) as u8) as u32) << 24u32 | ((((n >> 16u32) & 0xffu32) as u8) as u32)
        << 16u32 | ((((n >> 8u32) & 0xffu32) as u8) as u32) << 8u32 | (((n & 0xffu32) as u8) as u32)
        == n) by (bit_vector);
}

/// Decoding the frame of any payload within the limit, whatever bytes follow
/// it, gives back exactly that payload; every strict prefix of a frame is
/// either too short to hold a header (a clean end of stream) or announces more
/// payload than it holds (a truncated frame).
pub proof fn lemma_frame_round_trip(payload: Seq<u8>, rest: Seq<u8>, k: int)
    requires
        payload.len() <= MAX_FRAME,
    ensures
        ({
            let buf = frame_of(payload) + rest;
            &&& buf.len() >= 4
            &&& announced_len(buf) == payload.len()
            &&& buf.subrange(4, 4 + payload.len() as int) == payload
        }),
        0 <= k < frame_of(payload).len() ==> ({
            let pre = frame_of(payload).subrange(0, k);
            pre.len() < 4 || (announced_len(pre) == payload.len() && pre.len() < 4 + payload.len())
        }),
{
    let f = frame_of(payload);
    let buf = f + rest;
    lemma_be32_round_trip(payload.len() as u32);
    assert(buf.subrange(0, 4) == be32(payload.len() as u32));
    assert(buf[0] == f[0] && buf[1] == f[1] && buf[2] == f[2] && buf[3] == f[3]);
    assert(buf.subrange(4, 4 + payload.len() as int) =~= payload);
    if 4 <= k < f.len() {
        let pre = f.subrange(0, k);
        assert(pre[0] == f[0] && pre[1] == f[1] && pre[2] == f[2] && pre[3] == f[3]);
    }
}

/// Frames `payload` for the wire; a payload over the limit is refused.
pub fn encode_message(payload: &Vec<u8>) -> (r: Result<Vec<u8>, SyspulseError>)
    ensures
        payload@.len() <= MAX_FRAME ==> (r matches Ok(bytes) && bytes@ == frame_of(payload@)),
        payload@.len() > MAX_FRAME ==> r matches Err(SyspulseError::Ipc(_)),
{
    if payload.len() > MAX_FRAME {
        return Err(SyspulseError::Ipc(String::from_str("Message too large (>10MB)")));
    }
    let n = payload.len() as u32;
    let mut out: Vec<u8> = Vec::new();
    out.push((n >> 24u32) as u8);
    out.push(((n >> 16u32) & 0xffu32) as u8);
    out.push(((n >> 8u32) & 0xffu32) as u8);
    out.push((n & 0xffu32) as u8);
    let mut i: usize = 0;
    while i < payload.len()
        invariant
            i <= payload@.len(),
            out@ == be32(n) + payload@.subrange(0, i as int),
        decreases payload@.len() - i,
    {
        out.push(payload[i]);
        i = i + 1;
        proof {
            assert(payload@.subrange(0, i as int) =~= payload@.subrange(0, i - 1).push(
                payload@[i - 1],
            ));
        }
    }
    proof {
        assert(payload@.subrange(0, payload@.len() as int) =~= payload@);
    }
    Ok(out)
}

/// Reads one frame from the front of `buf`. Fewer than four bytes is a clean
/// end of stream (`Ok(None)`); a header announcing more than the limit, or
/// more payload than `buf` holds, is an IPC error; otherwise the payload and
/// the number of bytes the frame took come back.
pub fn read_message(buf: &[u8]) -> (r: Result<Option<(Vec<u8>, usize)>, SyspulseError>)
    ensures
        buf@.len() < 4 ==> r matches Ok(None),
        buf@.len() >= 4 && announced_len(buf@) > MAX_FRAME ==> r matches Err(SyspulseError::Ipc(_)),
        buf@.len() >= 4 && announced_len(buf@) <= MAX_FRAME && buf@.len() < 4 + announced_len(buf@)
            ==> r matches Err(SyspulseError::Ipc(_)),
        buf@.len() >= 4 && announced_len(buf@) <= MAX_FRAME && buf@.len() >= 4 + announced_len(
            buf@,
        ) ==> (r matches Ok(Some((payload, used))) && payload@ == buf@.subrange(
            4,
            4 + announced_len(buf@) as int,
        ) && used == 4 + announced_len(buf@)),
{
    if buf.len() < 4 {
        return Ok(None);
    }
    let len: u32 = ((buf[0] as u32) << 24u32) | ((buf[1] as u32) << 16u32) | ((buf[2] as u32)
        << 8u32) | (buf[3] as u32);
    if len as usize > MAX_FRAME {
        return Err(SyspulseError::Ipc(String::from_str("Message too large (>10MB)")));
    }
    let len = len as usize;
    if buf.len() - 4 < len {
        return Err(SyspulseError::Ipc(String::from_str("Truncated message")));
    }
    let total = buf.len();
    let mut payload: Vec<u8> = Vec::new();
    let mut i: usize = 0;
    while i < len
        invariant
            total == buf@.len(),
            i <= len,
            4 + len <= buf@.len(),
            payload@ == buf@.subrange(4, 4 + i as int),
        decreases len - i,
    {
        payload.push(buf[4 + i]);
        i = i + 1;
        proof {
            assert(buf@.subrange(4, 4 + i as int) =~= buf@.subrange(4, 4 + i - 1).push(
                buf@[4 + i - 1],
            ));
        }
    }
    Ok(Some((payload, 4 + len)))
}

/// The error response that reports `e`.
pub fn error_response(e: SyspulseError) -> (r: Response)
    ensures
        r matches Response::Error { code, message } && code == error_code(e) && message@
            == error_message(e),
{
    let code = e.code();
    let message = e.message();
    Response::Error { code, message }
}

pub fn ok_response(message: String) -> (r: Response)
    ensures
        r matches Response::Success { message: m } && m@ == message@,
{
    Response::Success { message }
}

pub fn started_response(name: &str, pid: u32) -> (r: Response)
    ensures
        r matches Response::Success { message } && message@ == "Daemon '"@ + name@ + "' started (PID "@
            + decimal(pid as nat) + ")"@,
{
    let mut m = concat3("Daemon '", name, "' started (PID ");
    let d = decimal_text(pid as u64);
    m.append(d.as_str());
    m.append(")");
    Response::Success { message: m }
}

pub fn restarted_response(name: &str, pid: u32) -> (r: Response)
    ensures
        r matches Response::Success { message } && message@ == "Daemon '"@ + name@
            + "' restarted (PID "@ + decimal(pid as nat) + ")"@,
{
    let mut m = concat3("Daemon '", name, "' restarted (PID ");
    let d = decimal_text(pid as u64);
    m.append(d.as_str());
    m.append(")");
    Response::Success { message: m }
}

pub fn stopped_response(name: &str) -> (r: Response)
    ensures
        r matches Response::Success { message } && message@ == "Daemon '"@ + name@ + "' stopped"@,
{
    Response::Success { message: concat3("Daemon '", name, "' stopped") }
}

pub fn removed_response(name: &str) -> (r: Response)
    ensures
        r matches Response::Success { message } && message@ == "Daemon '"@ + name@ + "' removed"@,
{
    Response::Success { message: concat3("Daemon '", name, "' removed") }
}

pub fn shutdown_response() -> (r: Response)
    ensures
        r matches Response::Success { message } && message@ == "Shutting down"@,
{
    Response::Success { message: String::from_str("Shutting down") }
}

} // verus!

verus! {

/// What serving a request takes beyond the engine's own state.
pub enum Dispatch {
    /// Answer at once.
    Reply(Response),
    /// Spawn the daemon (see `plan_start`), then record it with `start_daemon`.
    Launch { name: String },
    /// Stop the process as planned, then record it with `stop_daemon`.
    Halt { name: String, plan: StopPlan },
    /// Restart: stop as planned when a plan is given, then launch.
    Cycle { name: String, plan: Option<StopPlan> },
    /// Read the tail of the daemon's log.
    ReadLogs { name: String, lines: usize, stderr: bool },
    /// Stop the process as planned, then remove the daemon.
    Discard { name: String, plan: StopPlan },
    /// Broadcast shutdown and answer with `shutdown_response`.
    Shutdown,
}

pub open spec fn is_error_with(r: Dispatch, code: u32) -> bool {
    r matches Dispatch::Reply(Response::Error { code: c, .. }) && c == code
}

impl DaemonManager {
    pub open spec fn unchanged_from(&self, other: &DaemonManager) -> bool {
        self.spec_seq() == other.spec_seq() && self.instance_seq() == other.instance_seq()
    }

    /// Serves one request as far as the engine alone can.
    pub fn handle_request(&mut self, request: Request) -> (r: Dispatch)
        requires
            old(self).well_formed(),
        ensures
            final(self).well_formed(),
            match request {
                Request::Start { name, .. } => {
                    &&& final(self).unchanged_from(old(self))
                    &&& !old(self).has(name@) ==> is_error_with(r, 404)
                    &&& old(self).has(name@) && !valid_transition(
                        old(self).instance_named(name@).state,
                        LifecycleState::Starting,
                    ) ==> is_error_with(r, 409)
                    &&& old(self).has(name@) && valid_transition(
                        old(self).instance_named(name@).state,
                        LifecycleState::Starting,
                    ) ==> (r matches Dispatch::Launch { name: n } && n@ == name@)
                },
                Request::Stop { name, force, .. } => {
                    &&& final(self).unchanged_from(old(self))
                    &&& !old(self).has(name@) ==> is_error_with(r, 404)
                    &&& old(self).has(name@) && !valid_transition(
                        old(self).instance_named(name@).state,
                        LifecycleState::Stopping,
                    ) ==> is_error_with(r, 409)
                    &&& old(self).has(name@) && valid_transition(
                        old(self).instance_named(name@).state,
                        LifecycleState::Stopping,
                    ) ==> (r matches Dispatch::Halt { name: n, plan } && n@ == name@ && plan.force
                        == force && plan.pid == old(self).instance_named(name@).pid->0)
                },
                Request::Restart { name, force, .. } => {
                    &&& final(self).unchanged_from(old(self))
                    &&& !old(self).has(name@) ==> is_error_with(r, 404)
                    &&& old(self).has(name@) && (old(self).instance_named(name@).state
                        == LifecycleState::Starting || old(self).instance_named(name@).state
                        == LifecycleState::Running) ==> (r matches Dispatch::Cycle {
                        name: n,
                        plan: Some(plan),
                    } && n@ == name@ && plan.force == force)
                    &&& old(self).has(name@) && old(self).instance_named(name@).state
                        == LifecycleState::Stopping ==> is_error_with(r, 409)
                    &&& old(self).has(name@) && !active(old(self).instance_named(name@).state)
                        ==> (r matches Dispatch::Cycle { name: n, plan: None } && n@ == name@)
                },
                Request::Status { name: Some(name) } => {
                    &&& final(self).unchanged_from(old(self))
                    &&& !old(self).has(name@) ==> is_error_with(r, 404)
                    &&& old(self).has(name@) ==> (r matches Dispatch::Reply(
                        Response::Status { instance },
                    ) && instance == old(self).instance_named(name@))
                },
                Request::Status { name: None } | Request::List => {
                    &&& final(self).unchanged_from(old(self))
                    &&& r matches Dispatch::Reply(Response::List { instances }) && instances@
                        == old(self).instance_seq()
                },
                Request::Logs { name, lines, stderr } => {
                    &&& final(self).unchanged_from(old(self))
                    &&& !old(self).has(name@) ==> is_error_with(r, 404)
                    &&& old(self).has(name@) ==> (r matches Dispatch::ReadLogs {
                        name: n,
                        lines: l,
                        stderr: e,
                    } && n@ == name@ && l == lines && e == stderr)
                },
                Request::Add { spec } => {
                    &&& old(self).has(spec.name@) ==> is_error_with(r, 409)
                    &&& !old(self).has(spec.name@) && !spec_runnable(spec) ==> is_error_with(r, 400)
                    &&& !old(self).has(spec.name@) && spec_runnable(spec) && spec.schedule is Some
                        && !cron_accepts(spec.schedule->0@) ==> is_error_with(r, 500)
                    &&& (!old(self).has(spec.name@) && spec_runnable(spec) && (spec.schedule is Some
                        ==> cron_accepts(spec.schedule->0@))) ==> (r matches Dispatch::Reply(
                        Response::Success { message },
                    ) && message@ == "Daemon added"@)
                    &&& r matches Dispatch::Reply(Response::Success { .. }) ==> final(self).has(
                        spec.name@,
                    )
                    &&& (r is Reply && r->Reply_0 is Error) ==> final(self).unchanged_from(
                        old(self),
                    )
                },
                Request::Remove { name, force } => {
                    &&& !old(self).has(name@) ==> is_error_with(r, 404)
                    &&& old(self).has(name@) && active(old(self).instance_named(name@).state)
                        && !force ==> is_error_with(r, 500)
                    &&& old(self).has(name@) && !active(old(self).instance_named(name@).state)
                        ==> (r matches Dispatch::Reply(Response::Success { .. }) && !final(self).has(name@))
                    &&& (old(self).has(name@) ==> active(old(self).instance_named(name@).state))
                        ==> final(self).unchanged_from(old(self))
                },
                Request::Shutdown => r is Shutdown && final(self).unchanged_from(old(self)),
                Request::Ping => r matches Dispatch::Reply(Response::Pong) && final(self).unchanged_from(old(self)),
            },
    {
        match request {
            Request::Start { name, .. } => match self.plan_start(name.as_str()) {
                Ok(_) => Dispatch::Launch { name },
                Err(e) => Dispatch::Reply(error_response(e)),
            },
            Request::Stop { name, force, .. } => match self.plan_stop(name.as_str(), force) {
                Ok(plan) => Dispatch::Halt { name, plan },
                Err(e) => Dispatch::Reply(error_response(e)),
            },
            Request::Restart { name, force, .. } => match self.status(name.as_str()) {
                Err(e) => Dispatch::Reply(error_response(e)),
                Ok(inst) => {
                    if inst.state.is_active() {
                        match self.plan_stop(name.as_str(), force) {
                            Ok(plan) => Dispatch::Cycle { name, plan: Some(plan) },
                            Err(e) => Dispatch::Reply(error_response(e)),
                        }
                    } else {
                        Dispatch::Cycle { name, plan: None }
                    }
                },
            },
            Request::Status { name: Some(name) } => match self.status(name.as_str()) {
                Ok(instance) => Dispatch::Reply(Response::Status { instance }),
                Err(e) => Dispatch::Reply(error_response(e)),
            },
            Request::Status { name: None } | Request::List => Dispatch::Reply(
                Response::List { instances: self.list() },
            ),
            Request::Logs { name, lines, stderr } => {
                if self.contains(name.as_str()) {
                    Dispatch::ReadLogs { name, lines, stderr }
                } else {
                    Dispatch::Reply(
                        error_response(SyspulseError::DaemonNotFound(name)),
                    )
                }
            },
            Request::Add { spec } => match self.add_daemon(spec) {
                Ok(()) => Dispatch::Reply(
                    Response::Success { message: String::from_str("Daemon added") },
                ),
                Err(e) => Dispatch::Reply(error_response(e)),
            },
            Request::Remove { name, force } => match self.status(name.as_str()) {
                Err(e) => Dispatch::Reply(error_response(e)),
                Ok(inst) => {
                    if inst.state.is_active() && force {
                        match self.plan_stop(name.as_str(), true) {
                            Ok(plan) => Dispatch::Discard { name, plan },
                            Err(e) => Dispatch::Reply(error_response(e)),
                        }
                    } else {
                        match self.remove_daemon(name.as_str()) {
                            Ok(()) => Dispatch::Reply(removed_response(name.as_str())),
                            Err(e) => Dispatch::Reply(error_response(e)),
                        }
                    }
                },
            },
            Request::Shutdown => Dispatch::Shutdown,
            Request::Ping => Dispatch::Reply(Response::Pong),
        }
    }
}

} // verus!
