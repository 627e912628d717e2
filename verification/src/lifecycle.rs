//! The lifecycle of the periodic client and server tasks.
//!
//! A task is a loop that the caller runs. The library holds its state and
//! decides, for every event that the caller reports, what the caller does
//! next. Cancellation is cooperative: a stop takes effect when the task
//! waits on its timer, never in the middle of a cycle.

use crate::error::{ErrorKind, SyncError};
use crate::models::{LogLevel, LogPayload};
use vstd::prelude::*;

verus! {

/// Seconds that a stopping server task waits for its HTTP endpoint.
pub const SHUTDOWN_WAIT_SECONDS: u64 = 3;

/// The interval, in minutes, that replaces one below the minimum.
pub const FALLBACK_INTERVAL_MINUTES: u32 = 60;

/// The two roles.
#[derive(Debug, Clone, Copy, PartialEq, Eq, Structural)]
pub enum Role {
    Client,
    Server,
}

/// The state of a task as its users see it.
#[derive(Debug, Clone, Copy, PartialEq, Eq, Structural)]
pub enum TaskState {
    Idle,
    Running,
    Stopping,
}

/// What a task is doing.
#[derive(Debug, Clone, Copy, PartialEq, Eq, Structural)]
pub enum Activity {
    /// Not started, or over.
    Idle,
    /// The first cycle, run before the task counts as running.
    FirstCycle,
    /// The HTTP endpoint is taking its port.
    Binding,
    /// Waiting on the timer.
    Waiting,
    /// A cycle is under way.
    Cycling,
    /// A stop was asked for while a cycle was under way.
    Draining,
    /// The HTTP endpoint is shutting down.
    ShuttingDown,
}

/// A periodic task.
#[derive(Debug, Clone, Copy, PartialEq, Eq, Structural)]
pub struct Task {
    pub role: Role,
    pub activity: Activity,
    /// Seconds between two cycles.
    pub interval_seconds: u64,
    /// The port of the HTTP endpoint; read for the server role only.
    pub port: u16,
}

/// What the caller reports to a task.
#[derive(Debug, PartialEq, Eq)]
pub enum TaskEvent {
    /// The cycle that was asked for ended.
    CycleDone(Result<(), SyncError>),
    /// The timer fired.
    TimerFired,
    /// The cancellation signal was seen.
    StopRequested,
    /// The HTTP endpoint took its port, or failed to with this message.
    HttpBound(Result<(), String>),
    /// The HTTP endpoint is gone, or the wait for it ran out.
    HttpStopped,
}

/// What the caller does for a task.
#[derive(Debug, PartialEq, Eq)]
pub enum TaskAction {
    /// Run one cycle and report how it ended.
    RunCycle,
    /// Flush the DNS cache; how that ends is not reported.
    FlushDns,
    /// Hand the log event to the presentation layer.
    Emit(LogPayload),
    /// Wait this many seconds on the timer, for the timer or a stop.
    WaitTimer(u64),
    /// Start the HTTP endpoint on this port and report the bind.
    StartHttp(u16),
    /// Signal the HTTP endpoint to shut down, wait at most this many
    /// seconds for it, and report.
    ShutdownHttp(u64),
    /// The task could not start; hand the failure to who started it.
    Fail(SyncError),
    /// The task is over.
    Exit,
}

/// A log event, with texts as character sequences.
pub struct LogView {
    pub key: Seq<char>,
    pub level: LogLevel,
    pub failure: Option<(ErrorKind, Seq<char>)>,
}

/// An action, with texts as character sequences.
pub enum TaskActionView {
    RunCycle,
    FlushDns,
    Emit(LogView),
    WaitTimer(u64),
    StartHttp(u16),
    ShutdownHttp(u64),
    Fail(ErrorKind, Seq<char>),
    Exit,
}

impl LogPayload {
    pub open spec fn view(&self) -> LogView {
        LogView {
            key: self.key@,
            level: self.level,
            failure: match self.params {
                Some(e) => Some((e.kind, e.detail@)),
                None => None,
            },
        }
    }
}

impl TaskAction {
    pub open spec fn view(&self) -> TaskActionView {
        match self {
            TaskAction::RunCycle => TaskActionView::RunCycle,
            TaskAction::FlushDns => TaskActionView::FlushDns,
            TaskAction::Emit(log) => TaskActionView::Emit(log@),
            TaskAction::WaitTimer(seconds) => TaskActionView::WaitTimer(*seconds),
            TaskAction::StartHttp(port) => TaskActionView::StartHttp(*port),
            TaskAction::ShutdownHttp(seconds) => TaskActionView::ShutdownHttp(*seconds),
            TaskAction::Fail(e) => TaskActionView::Fail(e.kind, e.detail@),
            TaskAction::Exit => TaskActionView::Exit,
        }
    }
}

/// The views of `actions`.
pub open spec fn action_views(actions: Seq<TaskAction>) -> Seq<TaskActionView> {
    Seq::new(actions.len(), |i: int| actions[i]@)
}

/// The state of a task that is doing `activity`. A task counts as running
/// once its first cycle is over and, for the server role, its endpoint has
/// its port.
pub open spec fn state_of(activity: Activity) -> TaskState {
    match activity {
        Activity::Idle | Activity::FirstCycle | Activity::Binding => TaskState::Idle,
        Activity::Waiting | Activity::Cycling => TaskState::Running,
        Activity::Draining | Activity::ShuttingDown => TaskState::Stopping,
    }
}

/// The interval in minutes that a task uses for a configured one: the
/// configured interval, or the fallback where it is below one minute.
pub open spec fn coerced_minutes(minutes: u32) -> u32 {
    if minutes < 1 {
        FALLBACK_INTERVAL_MINUTES
    } else {
        minutes
    }
}

/// The message key of a cycle that worked.
pub open spec fn success_key(role: Role) -> Seq<char> {
    match role {
        Role::Client => "client.fetchSuccess"@,
        Role::Server => "server.fetchSuccess"@,
    }
}

/// The message key of a cycle that failed.
pub open spec fn failure_key(role: Role) -> Seq<char> {
    match role {
        Role::Client => "client.fetchFailed"@,
        Role::Server => "server.fetchFailed"@,
    }
}

/// The message key of the last event of a task.
pub open spec fn stopped_key(role: Role) -> Seq<char> {
    match role {
        Role::Client => "client.stopped"@,
        Role::Server => "server.stopped"@,
    }
}

/// The log event of a cycle: a success, or an error with the failure.
pub open spec fn cycle_log(role: Role, result: Result<(), SyncError>) -> LogView {
    match result {
        Ok(_) => LogView { key: success_key(role), level: LogLevel::Success, failure: None },
        Err(e) => LogView {
            key: failure_key(role),
            level: LogLevel::Error,
            failure: Some((e.kind, e.detail@)),
        },
    }
}

/// The last log event of a task.
pub open spec fn stopped_log(role: Role) -> LogView {
    LogView { key: stopped_key(role), level: LogLevel::Info, failure: None }
}

/// The log event of an endpoint that could not take its port.
pub open spec fn bind_log(message: Seq<char>) -> LogView {
    LogView {
        key: "server.bindFailed"@,
        level: LogLevel::Error,
        failure: Some((ErrorKind::BindFailure, message)),
    }
}

/// What a task does when a cycle has ended and the task goes on: it
/// reports the cycle, after a DNS flush where a client cycle worked.
pub open spec fn cycle_report(role: Role, result: Result<(), SyncError>) -> Seq<TaskActionView> {
    if role == Role::Client && result is Ok {
        seq![TaskActionView::FlushDns, TaskActionView::Emit(cycle_log(role, result))]
    } else {
        seq![TaskActionView::Emit(cycle_log(role, result))]
    }
}

/// `task`, doing `activity`.
pub open spec fn doing(task: Task, activity: Activity) -> Task {
    Task { activity, ..task }
}

/// The lifecycle. For every activity and event: the task afterwards and
/// the actions for the caller, in order. An event that does not fit the
/// activity changes nothing and asks for nothing.
pub open spec fn task_transition(task: Task, event: TaskEvent) -> (Task, Seq<TaskActionView>) {
    let wait = TaskActionView::WaitTimer(task.interval_seconds);
    let shutdown = TaskActionView::ShutdownHttp(SHUTDOWN_WAIT_SECONDS);
    let last = seq![TaskActionView::Emit(stopped_log(task.role)), TaskActionView::Exit];
    match (task.activity, event) {
        (Activity::FirstCycle, TaskEvent::CycleDone(result)) => match (task.role, result) {
            (Role::Client, Err(e)) => (
                doing(task, Activity::Idle),
                seq![
                    TaskActionView::Emit(cycle_log(task.role, result)),
                    TaskActionView::Fail(e.kind, e.detail@),
                ],
            ),
            (Role::Client, Ok(_)) => (
                doing(task, Activity::Waiting),
                cycle_report(task.role, result).push(wait),
            ),
            (Role::Server, _) => (
                doing(task, Activity::Binding),
                cycle_report(task.role, result).push(TaskActionView::StartHttp(task.port)),
            ),
        },
        (Activity::Binding, TaskEvent::HttpBound(Ok(_))) => (
            doing(task, Activity::Waiting),
            seq![wait],
        ),
        (Activity::Binding, TaskEvent::HttpBound(Err(message))) => (
            doing(task, Activity::Idle),
            seq![
                TaskActionView::Emit(bind_log(message@)),
                TaskActionView::Fail(ErrorKind::BindFailure, message@),
            ],
        ),
        (Activity::Waiting, TaskEvent::TimerFired) => (
            doing(task, Activity::Cycling),
            seq![TaskActionView::RunCycle],
        ),
        (Activity::Cycling, TaskEvent::CycleDone(result)) => (
            doing(task, Activity::Waiting),
            cycle_report(task.role, result).push(wait),
        ),
        (Activity::Waiting, TaskEvent::StopRequested) => match task.role {
            Role::Client => (doing(task, Activity::Idle), last),
            Role::Server => (doing(task, Activity::ShuttingDown), seq![shutdown]),
        },
        (Activity::Binding, TaskEvent::StopRequested) => (
            doing(task, Activity::ShuttingDown),
            seq![shutdown],
        ),
        (Activity::FirstCycle, TaskEvent::StopRequested) => (
            doing(task, Activity::Draining),
            Seq::empty(),
        ),
        (Activity::Cycling, TaskEvent::StopRequested) => (
            doing(task, Activity::Draining),
            Seq::empty(),
        ),
        (Activity::Draining, TaskEvent::CycleDone(result)) => match task.role {
            Role::Client => (
                doing(task, Activity::Idle),
                cycle_report(task.role, result) + last,
            ),
            Role::Server => (
                doing(task, Activity::ShuttingDown),
                cycle_report(task.role, result).push(shutdown),
            ),
        },
        (Activity::ShuttingDown, TaskEvent::HttpStopped) => (doing(task, Activity::Idle), last),
        _ => (task, Seq::empty()),
    }
}

/// A failed cycle never stops the cycles to come: whatever a cycle of a
/// running task returned, the task is running afterwards and its last
/// action is the wait for the next cycle.
pub proof fn lemma_cycle_result_keeps_task_running(task: Task, result: Result<(), SyncError>)
    requires
        task.activity == Activity::Cycling,
    ensures
        state_of(task_transition(task, TaskEvent::CycleDone(result)).0.activity)
            == TaskState::Running,
        task_transition(task, TaskEvent::CycleDone(result)).1.last() == TaskActionView::WaitTimer(
            task.interval_seconds,
        ),
{
}

/// An endpoint that cannot take its port ends the server task: the task is
/// idle afterwards, and what it hands to who started it is a
/// [`ErrorKind::BindFailure`], which no failed cycle produces.
pub proof fn lemma_bind_failure_is_terminal(task: Task, message: String)
    requires
        task.activity == Activity::Binding,
    ensures
        task_transition(task, TaskEvent::HttpBound(Err(message))).0.activity == Activity::Idle,
        task_transition(task, TaskEvent::HttpBound(Err(message))).1.last() == TaskActionView::Fail(
            ErrorKind::BindFailure,
            message@,
        ),
{
}

/// A stop takes effect only where the task waits on its timer. A stop that
/// arrives during a cycle asks for nothing; the cycle ends first, and its
/// report comes before the task's last event.
pub proof fn lemma_stop_waits_for_the_cycle(task: Task, result: Result<(), SyncError>)
    requires
        task.activity == Activity::Cycling,
        task.role == Role::Client,
    ensures
        ({
            let stopping = task_transition(task, TaskEvent::StopRequested);
            let ended = task_transition(stopping.0, TaskEvent::CycleDone(result));
            &&& stopping.1 == Seq::<TaskActionView>::empty()
            &&& state_of(stopping.0.activity) == TaskState::Stopping
            &&& ended.0.activity == Activity::Idle
            &&& ended.1 == cycle_report(task.role, result) + seq![
                TaskActionView::Emit(stopped_log(task.role)),
                TaskActionView::Exit,
            ]
        }),
{
}

/// The interval that a task uses for a configured one. An interval below
/// one minute is not refused: the fallback takes its place.
pub fn coerce_interval(minutes: u32) -> (r: u32)
    ensures
        r == coerced_minutes(minutes),
        r >= 1,
{
    if minutes < 1 {
        FALLBACK_INTERVAL_MINUTES
    } else {
        minutes
    }
}

/// A log event.
fn log(key: &str, level: LogLevel, params: Option<SyncError>) -> (r: LogPayload)
    ensures
        r.key@ == key@,
        r.level == level,
        r.params == params,
{
    LogPayload { key: key.to_owned(), params, level }
}

/// The log event of a cycle.
pub fn log_cycle(role: Role, result: Result<(), SyncError>) -> (r: LogPayload)
    ensures
        r@ == cycle_log(role, result),
{
    match result {
        Ok(_) => match role {
            Role::Client => log("client.fetchSuccess", LogLevel::Success, None),
            Role::Server => log("server.fetchSuccess", LogLevel::Success, None),
        },
        Err(e) => match role {
            Role::Client => log("client.fetchFailed", LogLevel::Error, Some(e)),
            Role::Server => log("server.fetchFailed", LogLevel::Error, Some(e)),
        },
    }
}

/// The last log event of a task.
pub fn log_stopped(role: Role) -> (r: LogPayload)
    ensures
        r@ == stopped_log(role),
{
    match role {
        Role::Client => log("client.stopped", LogLevel::Info, None),
        Role::Server => log("server.stopped", LogLevel::Info, None),
    }
}

/// The actions that report a cycle.
fn report_cycle(role: Role, result: Result<(), SyncError>) -> (actions: Vec<TaskAction>)
    ensures
        action_views(actions@) == cycle_report(role, result),
{
    let mut actions: Vec<TaskAction> = Vec::new();
    let flush = match (&role, &result) {
        (Role::Client, Ok(_)) => true,
        _ => false,
    };
    if flush {
        actions.push(TaskAction::FlushDns);
    }
    actions.push(TaskAction::Emit(log_cycle(role, result)));
    assert(action_views(actions@) == cycle_report(role, result));
    actions
}

/// `actions` and one more.
fn with(actions: Vec<TaskAction>, action: TaskAction) -> (r: Vec<TaskAction>)
    ensures
        action_views(r@) == action_views(actions@).push(action@),
{
    let mut r = actions;
    r.push(action);
    assert(action_views(r@) == action_views(actions@).push(action@));
    r
}

/// No actions.
fn nothing() -> (r: Vec<TaskAction>)
    ensures
        action_views(r@) == Seq::<TaskActionView>::empty(),
{
    let r: Vec<TaskAction> = Vec::new();
    assert(action_views(r@) == Seq::<TaskActionView>::empty());
    r
}

impl Task {
    /// A task that is not started.
    pub fn new(role: Role, interval_minutes: u32, port: u16) -> (task: Task)
        ensures
            task.role == role,
            task.activity == Activity::Idle,
            task.interval_seconds == coerced_minutes(interval_minutes) * 60,
            task.port == port,
    {
        let minutes: u64 = coerce_interval(interval_minutes) as u64;
        Task { role, activity: Activity::Idle, interval_seconds: minutes * 60, port }
    }

    /// The state of the task.
    pub fn state(&self) -> (s: TaskState)
        ensures
            s == state_of(self.activity),
    {
        match self.activity {
            Activity::Idle | Activity::FirstCycle | Activity::Binding => TaskState::Idle,
            Activity::Waiting | Activity::Cycling => TaskState::Running,
            Activity::Draining | Activity::ShuttingDown => TaskState::Stopping,
        }
    }

    /// Starts the task: its first cycle is to run at once, so that a
    /// failure reaches who started it. A task that is under way stays as
    /// it is.
    pub fn start(&mut self) -> (actions: Vec<TaskAction>)
        ensures
            old(self).activity == Activity::Idle ==> *final(self) == doing(
                *old(self),
                Activity::FirstCycle,
            ) && action_views(actions@) == seq![TaskActionView::RunCycle],
            old(self).activity != Activity::Idle ==> *final(self) == *old(self) && action_views(
                actions@,
            ) == Seq::<TaskActionView>::empty(),
    {
        match self.activity {
            Activity::Idle => {
                self.activity = Activity::FirstCycle;
                with(nothing(), TaskAction::RunCycle)
            },
            _ => nothing(),
        }
    }

    /// Takes an event and gives the actions that follow, in order, as
    /// [`task_transition`] lays down.
    pub fn step(&mut self, event: TaskEvent) -> (actions: Vec<TaskAction>)
        ensures
            *final(self) == task_transition(*old(self), event).0,
            action_views(actions@) == task_transition(*old(self), event).1,
    {
        let role = self.role;
        let wait = TaskAction::WaitTimer(self.interval_seconds);
        match self.activity {
            Activity::FirstCycle => match event {
                TaskEvent::CycleDone(result) => match role {
                    Role::Client => match result {
                        Err(e) => {
                            self.activity = Activity::Idle;
                            let copy = SyncError { kind: e.kind, detail: e.detail.clone() };
                            with(
                                with(nothing(), TaskAction::Emit(log_cycle(role, Err(copy)))),
                                TaskAction::Fail(e),
                            )
                        },
                        Ok(_) => {
                            self.activity = Activity::Waiting;
                            with(report_cycle(role, Ok(())), wait)
                        },
                    },
                    Role::Server => {
                        self.activity = Activity::Binding;
                        with(report_cycle(role, result), TaskAction::StartHttp(self.port))
                    },
                },
                TaskEvent::StopRequested => {
                    self.activity = Activity::Draining;
                    nothing()
                },
                _ => nothing(),
            },
            Activity::Binding => match event {
                TaskEvent::HttpBound(Ok(_)) => {
                    self.activity = Activity::Waiting;
                    with(nothing(), wait)
                },
                TaskEvent::HttpBound(Err(message)) => {
                    self.activity = Activity::Idle;
                    let failure = SyncError {
                        kind: ErrorKind::BindFailure,
                        detail: message.clone(),
                    };
                    with(
                        with(
                            nothing(),
                            TaskAction::Emit(
                                log("server.bindFailed", LogLevel::Error, Some(failure)),
                            ),
                        ),
                        TaskAction::Fail(
                            SyncError { kind: ErrorKind::BindFailure, detail: message },
                        ),
                    )
                },
                TaskEvent::StopRequested => {
                    self.activity = Activity::ShuttingDown;
                    with(nothing(), TaskAction::ShutdownHttp(SHUTDOWN_WAIT_SECONDS))
                },
                _ => nothing(),
            },
            Activity::Waiting => match event {
                TaskEvent::TimerFired => {
                    self.activity = Activity::Cycling;
                    with(nothing(), TaskAction::RunCycle)
                },
                TaskEvent::StopRequested => match role {
                    Role::Client => {
                        self.activity = Activity::Idle;
                        with(
                            with(nothing(), TaskAction::Emit(log_stopped(role))),
                            TaskAction::Exit,
                        )
                    },
                    Role::Server => {
                        self.activity = Activity::ShuttingDown;
                        with(nothing(), TaskAction::ShutdownHttp(SHUTDOWN_WAIT_SECONDS))
                    },
                },
                _ => nothing(),
            },
            Activity::Cycling => match event {
                TaskEvent::CycleDone(result) => {
                    self.activity = Activity::Waiting;
                    with(report_cycle(role, result), wait)
                },
                TaskEvent::StopRequested => {
                    self.activity = Activity::Draining;
                    nothing()
                },
                _ => nothing(),
            },
            Activity::Draining => match event {
                TaskEvent::CycleDone(result) => match role {
                    Role::Client => {
                        self.activity = Activity::Idle;
                        let ghost report = cycle_report(role, result);
                        let actions = with(
                            with(report_cycle(role, result), TaskAction::Emit(log_stopped(role))),
                            TaskAction::Exit,
                        );
                        assert(report.push(TaskActionView::Emit(stopped_log(role))).push(
                            TaskActionView::Exit,
                        ) == report + seq![
                            TaskActionView::Emit(stopped_log(role)),
                            TaskActionView::Exit,
                        ]);
                        actions
                    },
                    Role::Server => {
                        self.activity = Activity::ShuttingDown;
                        with(
                            report_cycle(role, result),
                            TaskAction::ShutdownHttp(SHUTDOWN_WAIT_SECONDS),
                        )
                    },
                },
                _ => nothing(),
            },
            Activity::ShuttingDown => match event {
                TaskEvent::HttpStopped => {
                    self.activity = Activity::Idle;
                    with(with(nothing(), TaskAction::Emit(log_stopped(role))), TaskAction::Exit)
                },
                _ => nothing(),
            },
            Activity::Idle => nothing(),
        }
    }
}

} // verus!
