//! The state of the managed core and the rules that drive it: what a start
//! and a stop do, what happens when the core exits, and when the retry budget
//! is spent.
//!
//! The process itself is spawned, waited on and killed elsewhere; this module
//! decides, and says what to spawn or kill.

use vstd::prelude::*;

use vstd::string::StringExecFns;

use crate::data::{copy_opt, opt_view, StartBody};
use crate::log_ring::{lines_view, LogRing, LOG_CAPACITY};
use crate::primitives::{capture_level, level_capture};

verus! {

/// The retry budget after a start, and after a run that lasted long enough.
pub const DEFAULT_RETRY_COUNT: u8 = 10;

/// A run longer than this, in milliseconds, refills the retry budget.
pub const STABLE_RUN_MS: i64 = 60_000;

/// The operating system family the service runs on.
#[derive(Debug, Clone, Copy, PartialEq, Eq, Structural)]
pub enum Platform {
    Unix,
    Windows,
}

/// The severity at which a line of the core's output is logged.
#[derive(Debug, Clone, Copy, PartialEq, Eq, Structural)]
pub enum LogLevel {
    Error,
    Warn,
    Info,
    Debug,
}

/// Why the state of the core cannot be reported.
#[derive(Debug, Clone, Copy, PartialEq, Eq, Structural)]
pub enum SupervisorError {
    /// No start request has succeeded since the last stop.
    NotExecuted,
    /// The core kept exiting and the retry budget is spent.
    RetryExceeded,
}

impl SupervisorError {
    pub open spec fn message_of(self) -> Seq<char> {
        match self {
            SupervisorError::NotExecuted => "clash not executed"@,
            SupervisorError::RetryExceeded => "clash terminated, retry count exceeded"@,
        }
    }

    /// The text a client receives for this error.
    pub fn message(&self) -> (r: String)
        ensures
            r@ == self.message_of(),
    {
        match self {
            SupervisorError::NotExecuted => String::from_str("clash not executed"),
            SupervisorError::RetryExceeded => String::from_str("clash terminated, retry count exceeded"),
        }
    }
}

/// The state of the managed core.
#[derive(Debug, Clone)]
pub struct ClashStatus {
    /// Whether an exit of the core is followed by a restart.
    pub auto_restart: bool,
    /// How many restarts are left.
    pub restart_retry_count: u8,
    /// The process id of the running core that was spawned for this state.
    pub child: Option<u32>,
    /// When the core was last spawned, in milliseconds since the epoch.
    pub last_running_time: i64,
    /// The last start request, while it is in effect.
    pub info: Option<StartBody>,
}

/// What to do to launch the core.
pub struct LaunchPlan {
    /// A core still running from before, to be killed first.
    pub kill_child: Option<u32>,
    pub program: String,
    pub args: Vec<String>,
}

/// What to do to stop the core.
pub struct StopPlan {
    /// The running core to kill.
    pub kill_child: Option<u32>,
    /// The socket file the core served on, to be removed.
    pub remove_socket: Option<String>,
}

/// What follows an exit of the core.
pub enum ExitDecision {
    /// The exit needs nothing: it was expected, or of an older process.
    Ignore,
    /// Spawn the core again; `remaining` is the budget before this attempt.
    Restart { remaining: u8, plan: LaunchPlan },
    /// The budget is spent: the core stays down.
    GiveUp,
}

/// The decision of an exit, without its plan.
#[derive(Debug, Clone, Copy, PartialEq, Eq, Structural)]
pub enum ExitKind {
    Ignore,
    Restart(u8),
    GiveUp,
}

/// What holds of the state at all times: restarts are on only while a
/// request is in effect, and the budget runs out only under one.
pub open spec fn status_invariant(s: ClashStatus) -> bool {
    &&& s.auto_restart ==> s.info is Some
    &&& s.restart_retry_count == 0 ==> s.info is Some
}

/// The state after a reset: no core, no request, a full budget.
pub open spec fn reset_status(now: i64) -> ClashStatus {
    ClashStatus {
        auto_restart: false,
        restart_retry_count: DEFAULT_RETRY_COUNT,
        child: None,
        last_running_time: now,
        info: None,
    }
}

/// The state right after a start request has been accepted.
pub open spec fn started_status(body: StartBody, now: i64) -> ClashStatus {
    ClashStatus { auto_restart: true, info: Some(body), ..reset_status(now) }
}

/// The state after the core was spawned as process `pid` at `now`.
pub open spec fn spawned_status(s: ClashStatus, pid: u32, now: i64) -> ClashStatus {
    ClashStatus { child: Some(pid), last_running_time: now, ..s }
}

/// The flag that gives the core its control socket on each platform.
pub open spec fn ext_ctl_flag(platform: Platform) -> Seq<char> {
    match platform {
        Platform::Unix => "-ext-ctl-unix"@,
        Platform::Windows => "-ext-ctl-pipe"@,
    }
}

/// The arguments the core is launched with.
pub open spec fn core_args_of(body: StartBody, platform: Platform) -> Seq<Seq<char>> {
    let base = seq!["-d"@, body.config_dir@, "-f"@, body.config_file@];
    match opt_view(body.socket_path) {
        Some(p) => base + seq![ext_ctl_flag(platform), p],
        None => base,
    }
}

/// The socket file a stop removes: the core's socket path of the request in
/// effect, on Unix, where sockets are files.
pub open spec fn socket_to_remove(s: ClashStatus, platform: Platform) -> Option<Seq<char>> {
    match (platform, s.info) {
        (Platform::Unix, Some(b)) => opt_view(b.socket_path),
        _ => None,
    }
}

/// The budget an exit at `now` sees: full again after a run longer than
/// `STABLE_RUN_MS`, else what was left.
pub open spec fn exit_budget(s: ClashStatus, now: i64) -> u8 {
    if now - s.last_running_time > STABLE_RUN_MS {
        DEFAULT_RETRY_COUNT
    } else {
        s.restart_retry_count
    }
}

/// Whether an exit of `pid` is the exit of the core this state runs with a
/// restart policy in effect.
pub open spec fn exit_counts(s: ClashStatus, pid: u32) -> bool {
    s.child == Some(pid) && s.auto_restart && s.info is Some
}

/// What an exit of process `pid` at `now` leads to.
pub open spec fn exit_kind(s: ClashStatus, pid: u32, now: i64) -> ExitKind {
    if !exit_counts(s, pid) {
        ExitKind::Ignore
    } else if exit_budget(s, now) > 0 {
        ExitKind::Restart(exit_budget(s, now))
    } else {
        ExitKind::GiveUp
    }
}

/// The state after an exit of process `pid` at `now`.
pub open spec fn exited_status(s: ClashStatus, pid: u32, now: i64) -> ClashStatus {
    if s.child != Some(pid) {
        s
    } else if !exit_counts(s, pid) {
        ClashStatus { child: None, ..s }
    } else if exit_budget(s, now) > 0 {
        ClashStatus { child: None, restart_retry_count: (exit_budget(s, now) - 1) as u8, ..s }
    } else {
        ClashStatus { child: None, restart_retry_count: 0, ..s }
    }
}

/// What a query of the state answers.
pub open spec fn clash_query(s: ClashStatus) -> Result<(), SupervisorError> {
    if s.info is None {
        Err(SupervisorError::NotExecuted)
    } else if s.restart_retry_count == 0 {
        Err(SupervisorError::RetryExceeded)
    } else {
        Ok(())
    }
}

/// The severity of a line, from what the `level=` field captured.
pub open spec fn level_of_capture(c: Option<Seq<char>>) -> LogLevel {
    match c {
        None => LogLevel::Info,
        Some(l) => if l == "error"@ {
            LogLevel::Error
        } else if l == "warning"@ {
            LogLevel::Warn
        } else if l == "debug"@ {
            LogLevel::Debug
        } else {
            LogLevel::Info
        },
    }
}

impl ClashStatus {
    /// The state after a reset at `now`.
    pub fn reset(now_ms: i64) -> (r: ClashStatus)
        ensures
            r == reset_status(now_ms),
    {
        ClashStatus {
            auto_restart: false,
            restart_retry_count: DEFAULT_RETRY_COUNT,
            child: None,
            last_running_time: now_ms,
            info: None,
        }
    }

    /// Two states that agree in every field, the request's text included.
    pub open spec fn same_as(&self, other: ClashStatus) -> bool {
        &&& self.auto_restart == other.auto_restart
        &&& self.restart_retry_count == other.restart_retry_count
        &&& self.child == other.child
        &&& self.last_running_time == other.last_running_time
        &&& match (self.info, other.info) {
            (Some(a), Some(b)) => a.same_as(b),
            (None, None) => true,
            _ => false,
        }
    }

    /// A copy of the state.
    pub fn snapshot(&self) -> (r: ClashStatus)
        ensures
            r.same_as(*self),
    {
        let info = match &self.info {
            Some(b) => Some(b.duplicate()),
            None => None,
        };
        ClashStatus {
            auto_restart: self.auto_restart,
            restart_retry_count: self.restart_retry_count,
            child: self.child,
            last_running_time: self.last_running_time,
            info,
        }
    }
}

/// The arguments the core is launched with: its configuration directory and
/// file, then its control socket when the request names one.
pub fn core_args(body: &StartBody, platform: Platform) -> (r: Vec<String>)
    ensures
        lines_view(r@) == core_args_of(*body, platform),
{
    let mut args: Vec<String> = Vec::new();
    args.push(String::from_str("-d"));
    args.push(body.config_dir.clone());
    args.push(String::from_str("-f"));
    args.push(body.config_file.clone());
    match &body.socket_path {
        Some(p) => {
            match platform {
                Platform::Unix => args.push(String::from_str("-ext-ctl-unix")),
                Platform::Windows => args.push(String::from_str("-ext-ctl-pipe")),
            }
            args.push(p.clone());
        },
        None => {},
    }
    proof {
        assert(lines_view(args@) =~= core_args_of(*body, platform));
    }
    args
}

/// The plan that launches the core for `body`.
fn launch_plan(body: &StartBody, platform: Platform, kill_child: Option<u32>) -> (r: LaunchPlan)
    ensures
        r.kill_child == kill_child,
        r.program@ == body.bin_path@,
        lines_view(r.args@) == core_args_of(*body, platform),
{
    LaunchPlan { kill_child, program: body.bin_path.clone(), args: core_args(body, platform) }
}

/// The severity of a line from what its `level=` field captured: `error`,
/// `warning` and `debug` map to their levels, and anything else, or a line
/// without the field, is info.
pub fn level_from_capture(c: Option<String>) -> (r: LogLevel)
    ensures
        r == level_of_capture(opt_view(c)),
{
    match c {
        None => LogLevel::Info,
        Some(l) => {
            if l == String::from_str("error") {
                LogLevel::Error
            } else if l == String::from_str("warning") {
                LogLevel::Warn
            } else if l == String::from_str("debug") {
                LogLevel::Debug
            } else {
                LogLevel::Info
            }
        },
    }
}

/// The severity at which a line of the core's output is logged, read from
/// its `level=` field.
pub fn log_level_of(line: &str) -> (r: LogLevel)
    ensures
        r == level_of_capture(level_capture(line@)),
{
    level_from_capture(capture_level(line))
}

/// The supervisor: the state of the core, the platform, and the ring of the
/// core's recent output lines.
pub struct Supervisor {
    status: ClashStatus,
    platform: Platform,
    logs: LogRing,
}

impl Supervisor {
    /// The state of the core.
    pub closed spec fn status(&self) -> ClashStatus {
        self.status
    }

    /// The platform the supervisor runs on.
    pub closed spec fn platform(&self) -> Platform {
        self.platform
    }

    /// The core's recent output lines, oldest first.
    pub closed spec fn logs(&self) -> Seq<Seq<char>> {
        self.logs@
    }

    pub closed spec fn wf(&self) -> bool {
        &&& self.logs.wf()
        &&& self.logs.capacity() == LOG_CAPACITY
        &&& status_invariant(self.status)
    }

    /// The state that every supervisor keeps: see `status_invariant`.
    pub proof fn lemma_wf_status(&self)
        requires
            self.wf(),
        ensures
            status_invariant(self.status()),
    {
    }

    /// A supervisor with nothing started.
    pub fn new(platform: Platform, now_ms: i64) -> (r: Supervisor)
        ensures
            r.wf(),
            r.status() == reset_status(now_ms),
            r.platform() == platform,
            r.logs() == Seq::<Seq<char>>::empty(),
    {
        Supervisor { status: ClashStatus::reset(now_ms), platform, logs: LogRing::new(LOG_CAPACITY) }
    }

    /// Resets the state and the log ring, and says which core to kill and
    /// which socket file to remove.
    pub fn stop_clash(&mut self, now_ms: i64) -> (r: StopPlan)
        requires
            old(self).wf(),
        ensures
            final(self).wf(),
            final(self).platform() == old(self).platform(),
            final(self).status() == reset_status(now_ms),
            final(self).logs() == Seq::<Seq<char>>::empty(),
            r.kill_child == old(self).status().child,
            opt_view(r.remove_socket) == socket_to_remove(old(self).status(), old(self).platform()),
    {
        let kill_child = self.status.child;
        let remove_socket = match (self.platform, &self.status.info) {
            (Platform::Unix, Some(b)) => copy_opt(&b.socket_path),
            _ => None,
        };
        self.status = ClashStatus::reset(now_ms);
        self.logs.clear();
        StopPlan { kill_child, remove_socket }
    }

    /// Accepts a start request: stops what ran, puts `body` in effect with
    /// restarts on and a full budget, and says how to launch the core.
    pub fn start_clash(&mut self, body: StartBody, now_ms: i64) -> (r: LaunchPlan)
        requires
            old(self).wf(),
        ensures
            final(self).wf(),
            final(self).platform() == old(self).platform(),
            final(self).status() == started_status(body, now_ms),
            final(self).logs() == Seq::<Seq<char>>::empty(),
            r.kill_child == old(self).status().child,
            r.program@ == body.bin_path@,
            lines_view(r.args@) == core_args_of(body, old(self).platform()),
    {
        let kill_child = self.status.child;
        let plan = launch_plan(&body, self.platform, kill_child);
        self.status = ClashStatus::reset(now_ms);
        self.logs.clear();
        self.status.auto_restart = true;
        self.status.info = Some(body);
        plan
    }

    /// Records that the core was spawned as process `pid` at `now`.
    pub fn spawned(&mut self, pid: u32, now_ms: i64)
        requires
            old(self).wf(),
        ensures
            final(self).wf(),
            final(self).platform() == old(self).platform(),
            final(self).status() == spawned_status(old(self).status(), pid, now_ms),
            final(self).logs() == old(self).logs(),
    {
        self.status.child = Some(pid);
        self.status.last_running_time = now_ms;
    }

    /// Withdraws a start whose first launch could not be made: the state is
    /// reset and the log ring emptied, as after a stop.
    pub fn abandon_start(&mut self, now_ms: i64)
        requires
            old(self).wf(),
        ensures
            final(self).wf(),
            final(self).platform() == old(self).platform(),
            final(self).status() == reset_status(now_ms),
            final(self).logs() == Seq::<Seq<char>>::empty(),
    {
        self.status = ClashStatus::reset(now_ms);
        self.logs.clear();
    }

    /// Decides what follows an exit of process `pid` at `now`: nothing when
    /// it is not the current core or restarts are off; else a restart while
    /// the budget (refilled after a long run) lasts, which takes one from it
    /// and clears the log ring; else giving up.
    pub fn child_exited(&mut self, pid: u32, now_ms: i64) -> (r: ExitDecision)
        requires
            old(self).wf(),
        ensures
            final(self).wf(),
            final(self).platform() == old(self).platform(),
            final(self).status() == exited_status(old(self).status(), pid, now_ms),
            match exit_kind(old(self).status(), pid, now_ms) {
                ExitKind::Ignore => r is Ignore && final(self).logs() == old(self).logs(),
                ExitKind::GiveUp => r is GiveUp && final(self).logs() == old(self).logs(),
                ExitKind::Restart(n) => r matches ExitDecision::Restart { remaining, plan } && remaining
                    == n && plan.kill_child is None && final(self).logs() == Seq::<Seq<char>>::empty()
                    && (old(self).status().info matches Some(b) && plan.program@ == b.bin_path@ && lines_view(
                    plan.args@) == core_args_of(b, old(self).platform())),
            },
    {
        if self.status.child != Some(pid) {
            return ExitDecision::Ignore;
        }
        self.status.child = None;
        if !self.status.auto_restart {
            return ExitDecision::Ignore;
        }
        let plan = match &self.status.info {
            Some(b) => launch_plan(b, self.platform, None),
            None => return ExitDecision::Ignore,
        };
        let elapsed: i128 = now_ms as i128 - self.status.last_running_time as i128;
        if elapsed > STABLE_RUN_MS as i128 {
            self.status.restart_retry_count = DEFAULT_RETRY_COUNT;
        }
        let remaining = self.status.restart_retry_count;
        if remaining > 0 {
            self.status.restart_retry_count = remaining - 1;
            self.logs.clear();
            ExitDecision::Restart { remaining, plan }
        } else {
            ExitDecision::GiveUp
        }
    }

    /// Appends a line of the core's output to the log ring and says at which
    /// severity to log it.
    pub fn record_line(&mut self, line: String) -> (r: LogLevel)
        requires
            old(self).wf(),
        ensures
            final(self).wf(),
            final(self).platform() == old(self).platform(),
            final(self).status() == old(self).status(),
            final(self).logs() == crate::log_ring::keep_last(
                old(self).logs().push(line@),
                LOG_CAPACITY as nat,
            ),
            r == level_of_capture(level_capture(line@)),
    {
        let level = log_level_of(line.as_str());
        self.logs.append(line);
        level
    }

    /// The state of the core, when a start is in effect and the budget is
    /// not spent.
    pub fn get_clash(&self) -> (r: Result<&ClashStatus, SupervisorError>)
        ensures
            match clash_query(self.status()) {
                Ok(_) => r matches Ok(s) && *s == self.status(),
                Err(e) => r == Err::<&ClashStatus, SupervisorError>(e),
            },
    {
        if self.status.info.is_none() {
            Err(SupervisorError::NotExecuted)
        } else if self.status.restart_retry_count == 0 {
            Err(SupervisorError::RetryExceeded)
        } else {
            Ok(&self.status)
        }
    }

    /// A copy of the core's recent output lines, oldest first.
    pub fn get_logs(&self) -> (r: Vec<String>)
        requires
            self.wf(),
        ensures
            lines_view(r@) == self.logs(),
    {
        self.logs.snapshot()
    }
}

/// One run of the core: spawned as `pid` at `start`, exited at `end`.
pub open spec fn run_cycle(s: ClashStatus, pid: u32, start: i64, end: i64) -> ClashStatus {
    exited_status(spawned_status(s, pid, start), pid, end)
}

/// The state after a sequence of runs, each a process id, a spawn time and
/// an exit time.
pub open spec fn run_cycles(s: ClashStatus, runs: Seq<(u32, i64, i64)>) -> ClashStatus
    decreases runs.len(),
{
    if runs.len() == 0 {
        s
    } else {
        let (pid, start, end) = runs.last();
        run_cycle(run_cycles(s, runs.drop_last()), pid, start, end)
    }
}

/// Whether every run lasted no longer than `STABLE_RUN_MS`.
pub open spec fn all_short(runs: Seq<(u32, i64, i64)>) -> bool {
    forall|i: int| 0 <= i < runs.len() ==> #[trigger] runs[i].2 - runs[i].1 <= STABLE_RUN_MS
}

/// Each short run takes one restart from the budget until it is spent;
/// the request and the restart policy stay in effect.
pub proof fn lemma_short_runs_spend_budget(s: ClashStatus, runs: Seq<(u32, i64, i64)>)
    requires
        s.auto_restart,
        s.info is Some,
        all_short(runs),
    ensures
        run_cycles(s, runs).restart_retry_count == if runs.len() >= s.restart_retry_count {
            0
        } else {
            s.restart_retry_count - runs.len()
        },
        run_cycles(s, runs).auto_restart,
        run_cycles(s, runs).info == s.info,
        run_cycles(s, runs).child is None || runs.len() == 0,
    decreases runs.len(),
{
    if runs.len() > 0 {
        let prefix = runs.drop_last();
        assert forall|i: int| 0 <= i < prefix.len() implies #[trigger] prefix[i].2 - prefix[i].1
            <= STABLE_RUN_MS by {
            assert(prefix[i] == runs[i]);
        }
        lemma_short_runs_spend_budget(s, prefix);
        let last = runs[runs.len() - 1];
        assert(last.2 - last.1 <= STABLE_RUN_MS);
    }
}

/// After a start, ten runs that each end within `STABLE_RUN_MS` of their
/// spawn spend the whole budget: the next such exit gives up instead of
/// restarting, and a query then fails because the retries are exceeded.
pub proof fn lemma_retry_budget_exhausted(
    body: StartBody,
    t0: i64,
    runs: Seq<(u32, i64, i64)>,
    pid: u32,
    start: i64,
    end: i64,
)
    requires
        runs.len() >= DEFAULT_RETRY_COUNT,
        all_short(runs),
        end - start <= STABLE_RUN_MS,
    ensures
        exit_kind(spawned_status(run_cycles(started_status(body, t0), runs), pid, start), pid, end)
            == ExitKind::GiveUp,
        clash_query(run_cycle(run_cycles(started_status(body, t0), runs), pid, start, end)) == Err::<
            (),
            SupervisorError,
        >(SupervisorError::RetryExceeded),
{
    lemma_short_runs_spend_budget(started_status(body, t0), runs);
}

/// A stop leaves no request in effect, so a query afterwards fails with
/// "clash not executed", whatever the state was.
pub proof fn lemma_query_after_stop(now: i64)
    ensures
        clash_query(reset_status(now)) == Err::<(), SupervisorError>(SupervisorError::NotExecuted),
        SupervisorError::NotExecuted.message_of() == "clash not executed"@,
{
}

/// An exit after a run longer than `STABLE_RUN_MS` restarts the core with
/// the budget refilled to the full `DEFAULT_RETRY_COUNT`, whatever was left
/// of it, and this restart takes one from it.
pub proof fn lemma_long_run_refills_budget(s: ClashStatus, pid: u32, now: i64)
    requires
        exit_counts(s, pid),
        now - s.last_running_time > STABLE_RUN_MS,
    ensures
        exit_kind(s, pid, now) == ExitKind::Restart(DEFAULT_RETRY_COUNT),
        exited_status(s, pid, now).restart_retry_count == DEFAULT_RETRY_COUNT - 1,
{
}

/// On Unix, a stop that follows a start whose request names the socket path
/// `p` removes the file at `p`, whatever runs and exits came between.
pub proof fn lemma_stop_removes_socket(body: StartBody, t0: i64, runs: Seq<(u32, i64, i64)>, p: Seq<char>)
    requires
        opt_view(body.socket_path) == Some(p),
    ensures
        socket_to_remove(run_cycles(started_status(body, t0), runs), Platform::Unix) == Some(p),
    decreases runs.len(),
{
    lemma_cycles_keep_request(started_status(body, t0), runs);
}

/// Runs and exits never change the request in effect.
pub proof fn lemma_cycles_keep_request(s: ClashStatus, runs: Seq<(u32, i64, i64)>)
    ensures
        run_cycles(s, runs).info == s.info,
    decreases runs.len(),
{
    if runs.len() > 0 {
        lemma_cycles_keep_request(s, runs.drop_last());
    }
}

/// When the budget is spent, an exit of the current core after a run of at
/// most `STABLE_RUN_MS` spawns nothing: the supervisor gives up, the budget
/// stays spent, and a query fails because the retries are exceeded.
pub proof fn lemma_spent_budget_gives_up(s: ClashStatus, pid: u32, now: i64)
    requires
        status_invariant(s),
        s.child == Some(pid),
        s.auto_restart,
        s.restart_retry_count == 0,
        now - s.last_running_time <= STABLE_RUN_MS,
    ensures
        exit_kind(s, pid, now) == ExitKind::GiveUp,
        exited_status(s, pid, now).restart_retry_count == 0,
        clash_query(exited_status(s, pid, now)) == Err::<(), SupervisorError>(
            SupervisorError::RetryExceeded,
        ),
{
}

} // verus!
