use clash_verge_self_service::data::{wrap_response, JsonResponse, SocketCommand, StartBody};
use clash_verge_self_service::dispatch::{
    finish_launch, get_version, handle_socket_command, parse_error_response, reject_start, Outcome,
    ResponseData,
};
use clash_verge_self_service::log_ring::LogRing;
use clash_verge_self_service::supervisor::{
    core_args, level_from_capture, log_level_of, ExitDecision, LogLevel, Platform, Supervisor,
    SupervisorError, DEFAULT_RETRY_COUNT,
};

fn body(socket: Option<&str>) -> StartBody {
    StartBody {
        core_type: Some("verge-mihomo-alpha".to_string()),
        socket_path: socket.map(|s| s.to_string()),
        bin_path: "/usr/bin/verge-mihomo-alpha".to_string(),
        config_dir: "/home/u/.local/share/io.github.oomeow.clash-verge-self".to_string(),
        config_file: "/home/u/.local/share/io.github.oomeow.clash-verge-self/clash-verge.yaml".to_string(),
        log_file: "/home/u/.local/share/io.github.oomeow.clash-verge-self/logs/service/aaaaaaaa.log"
            .to_string(),
    }
}

fn started(platform: Platform, socket: Option<&str>) -> Supervisor {
    let mut sup = Supervisor::new(platform, 0);
    let plan = sup.start_clash(body(socket), 1_000);
    assert_eq!(plan.kill_child, None);
    sup.spawned(100, 1_000);
    sup
}

#[test]
fn version_info() {
    let v = get_version();
    assert_eq!(v.version, "0.1.0");
    assert_eq!(v.service, "Clash Verge Self Service");
}

#[test]
fn get_version_reply() {
    let mut sup = Supervisor::new(Platform::Unix, 0);
    match handle_socket_command(&mut sup, SocketCommand::GetVersion, 5) {
        Outcome::Reply(r) => {
            assert_eq!(r.code, 0);
            assert_eq!(r.msg, "ok");
            match r.data {
                Some(ResponseData::Version(v)) => assert_eq!(v.service, "Clash Verge Self Service"),
                _ => panic!("expected version data"),
            }
        }
        _ => panic!("expected a reply"),
    }
}

#[test]
fn core_args_unix_and_windows() {
    let b = body(Some("/tmp/verge-mihomo-test.sock"));
    let unix = core_args(&b, Platform::Unix);
    assert_eq!(unix, vec!["-d", b.config_dir.as_str(), "-f", b.config_file.as_str(), "-ext-ctl-unix", "/tmp/verge-mihomo-test.sock"]);
    let w = body(Some(r"\\.\pipe\verge-mihomo-test"));
    let win = core_args(&w, Platform::Windows);
    assert_eq!(win[4], "-ext-ctl-pipe");
    assert_eq!(win[5], r"\\.\pipe\verge-mihomo-test");
    let none = core_args(&body(None), Platform::Unix);
    assert_eq!(none.len(), 4);
}

#[test]
fn start_sets_state_and_plan() {
    let mut sup = Supervisor::new(Platform::Unix, 0);
    match handle_socket_command(&mut sup, SocketCommand::StartClash(body(None)), 77) {
        Outcome::Launch(plan) => {
            assert_eq!(plan.program, "/usr/bin/verge-mihomo-alpha");
            assert_eq!(plan.args[0], "-d");
            assert_eq!(plan.kill_child, None);
        }
        _ => panic!("expected a launch"),
    }
    let reply = finish_launch(&mut sup, Some(4242), 80);
    assert_eq!((reply.code, reply.msg.as_str(), reply.data.is_none()), (0, "ok", true));
    let s = sup.get_clash().unwrap();
    assert!(s.auto_restart);
    assert_eq!(s.restart_retry_count, DEFAULT_RETRY_COUNT);
    assert_eq!(s.child, Some(4242));
    assert_eq!(s.last_running_time, 80);
    assert_eq!(s.info.as_ref().unwrap().bin_path, "/usr/bin/verge-mihomo-alpha");
}

#[test]
fn failed_launch_reports_error() {
    let mut sup = Supervisor::new(Platform::Unix, 0);
    let _ = handle_socket_command(&mut sup, SocketCommand::StartClash(body(None)), 1);
    let reply = finish_launch(&mut sup, None, 2);
    assert_eq!(reply.code, 400);
    assert_eq!(reply.msg, "failed to spawn clash");
    assert!(reply.data.is_none());
    assert_eq!(sup.get_clash().unwrap_err(), SupervisorError::NotExecuted);
    // nothing is in effect, so no exit can restart anything
    assert!(matches!(sup.child_exited(1, 3), ExitDecision::Ignore));
}

#[test]
fn rejected_start_withdraws_request() {
    let mut sup = Supervisor::new(Platform::Unix, 0);
    let _ = handle_socket_command(&mut sup, SocketCommand::StartClash(body(None)), 1);
    let reply = reject_start(&mut sup, "log file has no file name".to_string(), 2);
    assert_eq!((reply.code, reply.msg.as_str(), reply.data.is_none()), (400, "log file has no file name", true));
    assert_eq!(sup.get_clash().unwrap_err(), SupervisorError::NotExecuted);
}

#[test]
fn failed_restart_keeps_request() {
    let mut sup = started(Platform::Unix, None);
    match sup.child_exited(100, 1_010) {
        ExitDecision::Restart { .. } => {}
        _ => panic!("expected a restart"),
    }
    // the respawn failed: nothing is recorded, the request stays in effect
    let s = sup.get_clash().unwrap();
    assert!(s.auto_restart);
    assert_eq!(s.child, None);
    assert_eq!(s.restart_retry_count, 9);
}

#[test]
fn restart_kills_previous_child() {
    let mut sup = started(Platform::Unix, None);
    let plan = sup.start_clash(body(None), 2_000);
    assert_eq!(plan.kill_child, Some(100));
}

#[test]
fn get_clash_before_start_fails() {
    let sup = Supervisor::new(Platform::Unix, 0);
    let e = sup.get_clash().unwrap_err();
    assert_eq!(e, SupervisorError::NotExecuted);
    assert_eq!(e.message(), "clash not executed");
}

#[test]
fn get_clash_after_stop_fails() {
    let mut sup = started(Platform::Unix, None);
    assert!(sup.get_clash().is_ok());
    let _ = sup.stop_clash(5_000);
    assert_eq!(sup.get_clash().unwrap_err().message(), "clash not executed");
}

#[test]
fn get_clash_reply_error_envelope() {
    let mut sup = Supervisor::new(Platform::Unix, 0);
    match handle_socket_command(&mut sup, SocketCommand::GetClash, 1) {
        Outcome::Reply(r) => {
            assert_eq!(r.code, 400);
            assert_eq!(r.msg, "clash not executed");
            assert!(r.data.is_none());
        }
        _ => panic!("expected a reply"),
    }
}

#[test]
fn stop_twice_is_idempotent() {
    let mut sup = started(Platform::Unix, None);
    for expected_kill in [Some(100), None] {
        match handle_socket_command(&mut sup, SocketCommand::StopClash, 9_000) {
            Outcome::Stop { plan, reply } => {
                assert_eq!(plan.kill_child, expected_kill);
                assert_eq!((reply.code, reply.msg.as_str(), reply.data.is_none()), (0, "ok", true));
            }
            _ => panic!("expected a stop"),
        }
    }
}

#[test]
fn stop_twice_without_start() {
    let mut sup = Supervisor::new(Platform::Unix, 0);
    for _ in 0..2 {
        match handle_socket_command(&mut sup, SocketCommand::StopClash, 1) {
            Outcome::Stop { plan, reply } => {
                assert_eq!(plan.kill_child, None);
                assert_eq!(plan.remove_socket, None);
                assert_eq!(reply.code, 0);
                assert_eq!(reply.msg, "ok");
            }
            _ => panic!("expected a stop"),
        }
    }
}

#[test]
fn stop_removes_unix_socket() {
    let mut sup = started(Platform::Unix, Some("/tmp/verge-mihomo-test.sock"));
    let plan = sup.stop_clash(2_000);
    assert_eq!(plan.remove_socket.as_deref(), Some("/tmp/verge-mihomo-test.sock"));
    assert_eq!(plan.kill_child, Some(100));
}

#[test]
fn stop_keeps_windows_pipe() {
    let mut sup = started(Platform::Windows, Some(r"\\.\pipe\verge-mihomo-test"));
    let plan = sup.stop_clash(2_000);
    assert_eq!(plan.remove_socket, None);
}

#[test]
fn retry_budget_is_spent_after_ten_restarts() {
    let mut sup = started(Platform::Unix, None);
    let mut pid = 100u32;
    let mut t = 1_000i64;
    let mut restarts = 0;
    loop {
        match sup.child_exited(pid, t + 10) {
            ExitDecision::Restart { remaining, plan } => {
                assert_eq!(remaining, DEFAULT_RETRY_COUNT - restarts);
                assert_eq!(plan.program, "/usr/bin/verge-mihomo-alpha");
                restarts += 1;
                pid += 1;
                t += 20;
                sup.spawned(pid, t);
            }
            ExitDecision::GiveUp => break,
            ExitDecision::Ignore => panic!("exit of the current core was ignored"),
        }
    }
    assert_eq!(restarts, 10);
    let e = sup.get_clash().unwrap_err();
    assert_eq!(e, SupervisorError::RetryExceeded);
    assert_eq!(e.message(), "clash terminated, retry count exceeded");
    match handle_socket_command(&mut sup, SocketCommand::GetClash, t) {
        Outcome::Reply(r) => assert_eq!(r.code, 400),
        _ => panic!("expected a reply"),
    }
}

#[test]
fn long_run_refills_budget() {
    let mut sup = started(Platform::Unix, None);
    // spend some of the budget with quick exits
    for i in 0..3u32 {
        match sup.child_exited(100 + i, 1_000 + i as i64 * 10 + 5) {
            ExitDecision::Restart { .. } => sup.spawned(101 + i, 1_000 + (i as i64 + 1) * 10),
            _ => panic!("expected a restart"),
        }
    }
    assert_eq!(sup.get_clash().unwrap().restart_retry_count, 7);
    // the next run lasts longer than a minute
    match sup.child_exited(103, 1_030 + 60_001) {
        ExitDecision::Restart { remaining, .. } => assert_eq!(remaining, 10),
        _ => panic!("expected a restart"),
    }
    assert_eq!(sup.get_clash().unwrap().restart_retry_count, 9);
}

#[test]
fn exactly_sixty_seconds_does_not_refill() {
    let mut sup = started(Platform::Unix, None);
    match sup.child_exited(100, 1_000 + 60_000) {
        ExitDecision::Restart { remaining, .. } => assert_eq!(remaining, 10),
        _ => panic!("expected a restart"),
    }
    sup.spawned(101, 70_000);
    match sup.child_exited(101, 70_000 + 60_000) {
        ExitDecision::Restart { remaining, .. } => assert_eq!(remaining, 9),
        _ => panic!("expected a restart"),
    }
}

#[test]
fn exit_after_stop_is_ignored() {
    let mut sup = started(Platform::Unix, None);
    let _ = sup.stop_clash(1_500);
    assert!(matches!(sup.child_exited(100, 1_600), ExitDecision::Ignore));
    assert_eq!(sup.get_clash().unwrap_err(), SupervisorError::NotExecuted);
}

#[test]
fn exit_of_old_process_is_ignored() {
    let mut sup = started(Platform::Unix, None);
    assert!(matches!(sup.child_exited(99, 1_600), ExitDecision::Ignore));
    assert_eq!(sup.get_clash().unwrap().restart_retry_count, 10);
}

#[test]
fn stop_service_stops_core_and_replies() {
    let mut sup = started(Platform::Unix, Some("/tmp/core.sock"));
    match handle_socket_command(&mut sup, SocketCommand::StopService, 3_000) {
        Outcome::Shutdown { plan, reply } => {
            assert_eq!(plan.kill_child, Some(100));
            assert_eq!(plan.remove_socket.as_deref(), Some("/tmp/core.sock"));
            assert_eq!((reply.code, reply.msg.as_str(), reply.data.is_none()), (0, "ok", true));
        }
        _ => panic!("expected a shutdown"),
    }
    assert!(sup.get_clash().is_err());
}

#[test]
fn log_lines_are_kept_and_cleared() {
    let mut sup = started(Platform::Unix, None);
    assert_eq!(sup.record_line("time=1 level=error msg=boom".to_string()), LogLevel::Error);
    assert_eq!(sup.record_line("plain line".to_string()), LogLevel::Info);
    assert_eq!(sup.get_logs(), vec!["time=1 level=error msg=boom", "plain line"]);
    match handle_socket_command(&mut sup, SocketCommand::GetLogs, 5) {
        Outcome::Reply(JsonResponse { code: 0, data: Some(ResponseData::Logs(l)), .. }) => assert_eq!(l.len(), 2),
        _ => panic!("expected logs"),
    }
    match sup.child_exited(100, 1_100) {
        ExitDecision::Restart { .. } => {}
        _ => panic!("expected a restart"),
    }
    assert!(sup.get_logs().is_empty());
}

#[test]
fn log_levels() {
    assert_eq!(log_level_of("level=warning msg=x"), LogLevel::Warn);
    assert_eq!(log_level_of("level=info"), LogLevel::Info);
    assert_eq!(log_level_of("a level=debug b"), LogLevel::Debug);
    assert_eq!(log_level_of("level=fatal"), LogLevel::Info);
    assert_eq!(log_level_of("level=trace msg=x"), LogLevel::Info);
    assert_eq!(log_level_of("level=trace level=error"), LogLevel::Error);
    assert_eq!(log_level_of("level="), LogLevel::Info);
    assert_eq!(log_level_of("no field"), LogLevel::Info);
    assert_eq!(log_level_from_captures(), ());
}

fn log_level_from_captures() {
    assert_eq!(level_from_capture(None), LogLevel::Info);
    assert_eq!(level_from_capture(Some("error".to_string())), LogLevel::Error);
    assert_eq!(level_from_capture(Some("warning".to_string())), LogLevel::Warn);
    assert_eq!(level_from_capture(Some("info".to_string())), LogLevel::Info);
    assert_eq!(level_from_capture(Some("debug".to_string())), LogLevel::Debug);
    assert_eq!(level_from_capture(Some("warn".to_string())), LogLevel::Info);
    assert_eq!(level_from_capture(Some("trace".to_string())), LogLevel::Info);
}

#[test]
fn ring_drops_oldest() {
    let mut ring = LogRing::new(3);
    for i in 0..5 {
        ring.append(format!("line {i}"));
    }
    assert_eq!(ring.snapshot(), vec!["line 2", "line 3", "line 4"]);
    ring.clear();
    assert!(ring.snapshot().is_empty());
}

#[test]
fn ring_holds_a_thousand() {
    let mut sup = Supervisor::new(Platform::Unix, 0);
    for i in 0..1_005 {
        sup.record_line(format!("{i}"));
    }
    let logs = sup.get_logs();
    assert_eq!(logs.len(), 1_000);
    assert_eq!(logs[0], "5");
    assert_eq!(logs[999], "1004");
}

#[test]
fn envelopes() {
    let ok: JsonResponse<u8> = wrap_response(Ok(3));
    assert_eq!((ok.code, ok.msg.as_str(), ok.data), (0, "ok", Some(3)));
    let err: JsonResponse<u8> = wrap_response(Err("bad".to_string()));
    assert_eq!((err.code, err.msg.as_str(), err.data), (400, "bad", None));
    let p = parse_error_response("expected value");
    assert_eq!(p.code, 400);
    assert_eq!(p.msg, "Error parsing socket command: expected value");
}

#[test]
fn handler_error_envelope() {
    let r = clash_verge_self_service::dispatch::handler_error_response("permission denied");
    assert_eq!(r.code, 400);
    assert_eq!(r.msg, "Error handling socket command: permission denied");
    assert!(r.data.is_none());
}
