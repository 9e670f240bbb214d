//! The command dispatcher: what each request does to the supervisor, what
//! is answered, and what is left for the caller to carry out.

use vstd::prelude::*;

use vstd::string::StringExecFns;

use crate::data::{
    opt_view, wrap_response, JsonResponse, ServiceVersionInfo, SocketCommand, StartBody, CODE_ERROR,
    CODE_OK,
};
use crate::log_ring::lines_view;
use crate::supervisor::{
    clash_query, core_args_of, reset_status, socket_to_remove, spawned_status, started_status,
    ClashStatus, LaunchPlan, Platform, StopPlan, Supervisor,
};

verus! {

/// The data a successful response carries.
#[derive(Debug)]
pub enum ResponseData {
    Version(ServiceVersionInfo),
    Status(ClashStatus),
    Logs(Vec<String>),
}

/// What the caller does with a request after the dispatcher has decided.
pub enum Outcome {
    /// Send this response.
    Reply(JsonResponse<ResponseData>),
    /// Kill what the plan names, launch the core, and report the result with
    /// `finish_launch`, whose response is then sent.
    Launch(LaunchPlan),
    /// Kill and remove what the plan names, then send the response.
    Stop { plan: StopPlan, reply: JsonResponse<ResponseData> },
    /// As `Stop`; then close the session and shut the service down.
    Shutdown { plan: StopPlan, reply: JsonResponse<ResponseData> },
}

/// The version of this service.
pub open spec fn service_version() -> Seq<char> {
    "0.1.0"@
}

/// The name of this service, as `GetVersion` reports it.
pub open spec fn service_label() -> Seq<char> {
    "Clash Verge Self Service"@
}

/// The version and name of the service.
pub fn get_version() -> (r: ServiceVersionInfo)
    ensures
        r.version@ == service_version(),
        r.service@ == service_label(),
{
    ServiceVersionInfo {
        version: String::from_str("0.1.0"),
        service: String::from_str("Clash Verge Self Service"),
    }
}

/// Whether `r` is a successful response without data.
pub open spec fn is_plain_ok(r: JsonResponse<ResponseData>) -> bool {
    r.code == CODE_OK && r.msg@ == "ok"@ && r.data is None
}

/// Whether `r` answers with the service's version.
pub open spec fn replies_version(r: Outcome) -> bool {
    match r {
        Outcome::Reply(resp) => resp.code == CODE_OK && resp.msg@ == "ok"@ && match resp.data {
            Some(ResponseData::Version(v)) => v.version@ == service_version() && v.service@
                == service_label(),
            _ => false,
        },
        _ => false,
    }
}

/// Whether `r` answers a query of the state `s`.
pub open spec fn replies_status(r: Outcome, s: ClashStatus) -> bool {
    match r {
        Outcome::Reply(resp) => match clash_query(s) {
            Ok(_) => resp.code == CODE_OK && resp.msg@ == "ok"@ && match resp.data {
                Some(ResponseData::Status(c)) => c.same_as(s),
                _ => false,
            },
            Err(e) => resp.code == CODE_ERROR && resp.msg@ == e.message_of() && resp.data is None,
        },
        _ => false,
    }
}

/// Whether `r` answers with the log lines `lines`.
pub open spec fn replies_logs(r: Outcome, lines: Seq<Seq<char>>) -> bool {
    match r {
        Outcome::Reply(resp) => resp.code == CODE_OK && resp.msg@ == "ok"@ && match resp.data {
            Some(ResponseData::Logs(l)) => lines_view(l@) == lines,
            _ => false,
        },
        _ => false,
    }
}

/// Whether `r` launches the core for `body` after killing `kill`.
pub open spec fn launches(r: Outcome, body: StartBody, platform: Platform, kill: Option<u32>) -> bool {
    match r {
        Outcome::Launch(plan) => plan.kill_child == kill && plan.program@ == body.bin_path@ && lines_view(
            plan.args@,
        ) == core_args_of(body, platform),
        _ => false,
    }
}

/// Whether a stop plan kills `kill` and removes the socket `socket`.
pub open spec fn stops(plan: StopPlan, kill: Option<u32>, socket: Option<Seq<char>>) -> bool {
    plan.kill_child == kill && opt_view(plan.remove_socket) == socket
}

/// Whether `r` stops the core of state `s` and answers plainly; with
/// `shutdown`, also ends the service.
pub open spec fn stops_and_replies(r: Outcome, s: ClashStatus, platform: Platform, shutdown: bool) -> bool {
    match r {
        Outcome::Stop { plan, reply } => !shutdown && is_plain_ok(reply) && stops(
            plan,
            s.child,
            socket_to_remove(s, platform),
        ),
        Outcome::Shutdown { plan, reply } => shutdown && is_plain_ok(reply) && stops(
            plan,
            s.child,
            socket_to_remove(s, platform),
        ),
        _ => false,
    }
}

/// Carries out a request on the supervisor and says what is left to do:
/// queries are answered at once; a start resets the state, puts the request
/// in effect and asks for a launch; a stop resets the state and asks for the
/// core to be killed and its socket file removed; a service stop does the
/// same and then ends the service.
pub fn handle_socket_command(sup: &mut Supervisor, cmd: SocketCommand, now_ms: i64) -> (r: Outcome)
    requires
        old(sup).wf(),
    ensures
        final(sup).wf(),
        final(sup).platform() == old(sup).platform(),
        match cmd {
            SocketCommand::GetVersion => *final(sup) == *old(sup) && replies_version(r),
            SocketCommand::GetClash => *final(sup) == *old(sup) && replies_status(r, old(sup).status()),
            SocketCommand::GetLogs => *final(sup) == *old(sup) && replies_logs(r, old(sup).logs()),
            SocketCommand::StartClash(body) => final(sup).status() == started_status(body, now_ms)
                && final(sup).logs() == Seq::<Seq<char>>::empty() && launches(
                r,
                body,
                old(sup).platform(),
                old(sup).status().child,
            ),
            SocketCommand::StopClash => final(sup).status() == reset_status(now_ms) && final(sup).logs()
                == Seq::<Seq<char>>::empty() && stops_and_replies(
                r,
                old(sup).status(),
                old(sup).platform(),
                false,
            ),
            SocketCommand::StopService => final(sup).status() == reset_status(now_ms) && final(sup).logs()
                == Seq::<Seq<char>>::empty() && stops_and_replies(
                r,
                old(sup).status(),
                old(sup).platform(),
                true,
            ),
        },
{
    match cmd {
        SocketCommand::GetVersion => Outcome::Reply(
            wrap_response(Ok(ResponseData::Version(get_version()))),
        ),
        SocketCommand::GetClash => {
            let result = match sup.get_clash() {
                Ok(s) => Ok(ResponseData::Status(s.snapshot())),
                Err(e) => Err(e.message()),
            };
            Outcome::Reply(wrap_response(result))
        },
        SocketCommand::GetLogs => Outcome::Reply(wrap_response(Ok(ResponseData::Logs(sup.get_logs())))),
        SocketCommand::StartClash(body) => Outcome::Launch(sup.start_clash(body, now_ms)),
        SocketCommand::StopClash => {
            let plan = sup.stop_clash(now_ms);
            Outcome::Stop { plan, reply: JsonResponse::ok(None) }
        },
        SocketCommand::StopService => {
            let plan = sup.stop_clash(now_ms);
            Outcome::Shutdown { plan, reply: JsonResponse::ok(None) }
        },
    }
}

/// The message of a start whose launch failed.
pub open spec fn spawn_failed_message() -> Seq<char> {
    "failed to spawn clash"@
}

/// Completes a start once its first launch was tried: on success records
/// the process; on failure withdraws the start, so no request stays in
/// effect. Answers either way.
pub fn finish_launch(sup: &mut Supervisor, pid: Option<u32>, now_ms: i64) -> (r: JsonResponse<
    ResponseData,
>)
    requires
        old(sup).wf(),
    ensures
        final(sup).wf(),
        final(sup).platform() == old(sup).platform(),
        match pid {
            Some(p) => final(sup).status() == spawned_status(old(sup).status(), p, now_ms)
                && final(sup).logs() == old(sup).logs() && is_plain_ok(r),
            None => final(sup).status() == reset_status(now_ms) && final(sup).logs() == Seq::<
                Seq<char>,
            >::empty() && r.code == CODE_ERROR && r.msg@ == spawn_failed_message() && r.data is None,
        },
{
    match pid {
        Some(p) => {
            sup.spawned(p, now_ms);
            JsonResponse::ok(None)
        },
        None => {
            sup.abandon_start(now_ms);
            JsonResponse::error(String::from_str("failed to spawn clash"))
        },
    }
}

/// Withdraws a start that could not be prepared for launch (`reason` says
/// why), so no request stays in effect, and answers with the reason.
pub fn reject_start(sup: &mut Supervisor, reason: String, now_ms: i64) -> (r: JsonResponse<ResponseData>)
    requires
        old(sup).wf(),
    ensures
        final(sup).wf(),
        final(sup).platform() == old(sup).platform(),
        final(sup).status() == reset_status(now_ms),
        final(sup).logs() == Seq::<Seq<char>>::empty(),
        r.code == CODE_ERROR,
        r.msg@ == reason@,
        r.data is None,
{
    sup.abandon_start(now_ms);
    JsonResponse::error(reason)
}

/// The response to a payload that is not a command; `detail` says why.
pub fn parse_error_response(detail: &str) -> (r: JsonResponse<ResponseData>)
    ensures
        r.code == CODE_ERROR,
        r.msg@ == "Error parsing socket command: "@ + detail@,
        r.data is None,
{
    let msg = String::from_str("Error parsing socket command: ").concat(detail);
    JsonResponse::error(msg)
}

/// The response to a command whose handling failed; `detail` says why.
pub fn handler_error_response(detail: &str) -> (r: JsonResponse<ResponseData>)
    ensures
        r.code == CODE_ERROR,
        r.msg@ == "Error handling socket command: "@ + detail@,
        r.data is None,
{
    let msg = String::from_str("Error handling socket command: ").concat(detail);
    JsonResponse::error(msg)
}

} // verus!
