//! The decisions of the relay server: which servers and tasks its
//! configuration starts, and what each pull and push task does on every
//! event it receives. Running servers, connecting, sleeping and waiting on
//! the hub is left to the caller, which performs the actions returned here
//! and hands back what happened.

use vstd::prelude::*;
use crate::kpserver::config::KPConfig;
use crate::kpserver::message::{KPServerMessage, KPServerMessageView, KPHubEvent, KPStreamIdentifier};
use crate::kpserver::parse_url::{get_url_info, url_info_of, UrlInfoError, url_info_matches};
use crate::config::json::opt_str;
use crate::util::text::{decimal, push_char, append_decimal, string_of, append_str};

verus! {

/// An option of a string, copied.
pub fn clone_opt_string(o: &Option<String>) -> (res: Option<String>)
    ensures
        res == *o,
{
    match o {
        Some(s) => Some(s.clone()),
        None => None,
    }
}

// ---------------------------------------------------------------------
// Pull tasks
// ---------------------------------------------------------------------

/// Where a pull task stands.
#[derive(Debug, Clone, Copy, PartialEq, Eq, Structural)]
pub enum PullPhase {
    /// Not started yet.
    Idle,
    /// Waiting until a player asks for the source stream.
    AwaitSubscriber,
    /// An attempt to pull the source is running.
    Pulling,
    /// Waiting for the retry interval to pass before the next attempt.
    RetryWait,
    /// The task is over.
    Finished,
}

/// A task that pulls an RTMP source into the hub, retrying where configured.
#[derive(Debug)]
pub struct KPPullTask {
    pub name: String,
    pub source_url: String,
    pub app_name: Option<String>,
    pub stream_name: Option<String>,
    pub keep_alive: bool,
    pub timeout: Option<u64>,
    pub retry_interval: Option<u64>,
    pub phase: PullPhase,
    /// The number of the current or last attempt, counted from one.
    pub retry_count: usize,
}

/// What happened to a pull or push task.
#[derive(Debug)]
pub enum TaskEvent {
    /// The task was spawned.
    Start,
    /// The hub broadcast an event.
    Hub(KPHubEvent),
    /// Receiving from the hub failed; the receiver's message.
    HubClosed(String),
    /// The wait for a published stream ran out of time.
    TimedOut,
    /// The session ended; the error text where it failed.
    SessionEnded(Option<String>),
    /// The retry interval has passed.
    RetryElapsed,
}

/// What a task asks its runner to do next, in order.
#[derive(Debug)]
pub enum TaskAction {
    /// Report the message.
    Notify(KPServerMessage),
    /// Wait for the next event of the hub.
    WaitHubEvent,
    /// Start a deadline of this many milliseconds for the wait on the hub.
    ArmTimeout(u64),
    /// Open the RTMP session of the task.
    Connect,
    /// Sleep this many milliseconds.
    Sleep(u64),
    /// The task is over.
    Stop,
}

#[verifier::ext_equal]
pub enum TaskActionView {
    Notify(KPServerMessageView),
    WaitHubEvent,
    ArmTimeout(u64),
    Connect,
    Sleep(u64),
    Stop,
}

impl View for TaskAction {
    type V = TaskActionView;

    open spec fn view(&self) -> TaskActionView {
        match self {
            TaskAction::Notify(m) => TaskActionView::Notify(m@),
            TaskAction::WaitHubEvent => TaskActionView::WaitHubEvent,
            TaskAction::ArmTimeout(t) => TaskActionView::ArmTimeout(*t),
            TaskAction::Connect => TaskActionView::Connect,
            TaskAction::Sleep(t) => TaskActionView::Sleep(*t),
            TaskAction::Stop => TaskActionView::Stop,
        }
    }
}

/// The views of a sequence of actions.
pub open spec fn actions_view(v: Seq<TaskAction>) -> Seq<TaskActionView> {
    v.map_values(|a: TaskAction| a@)
}

/// The application and stream names of a source URL, where it has them.
pub open spec fn source_names(url: Seq<char>) -> Option<(Seq<char>, Seq<char>)> {
    match url_info_of(url) {
        Ok(t) => Some((t.1, t.2)),
        Err(_) => None,
    }
}

/// The report that attempt `count` of a pull begins.
pub open spec fn pull_start_message(t: KPPullTask, count: usize) -> KPServerMessageView {
    KPServerMessageView::RtmpPullStart {
        name: t.name@,
        source_url: t.source_url@,
        retry_interval: t.retry_interval,
        retry_count: match t.retry_interval {
            Some(_) => Some(count),
            None => None,
        },
    }
}

/// The phase, attempt number and actions that follow one event of a pull
/// task.
pub struct PullOutcome {
    pub phase: PullPhase,
    pub retry_count: usize,
    pub actions: Seq<TaskActionView>,
}

/// Begins attempt `count`: reports it and connects.
pub open spec fn pull_attempt(t: KPPullTask, count: usize) -> PullOutcome {
    PullOutcome {
        phase: PullPhase::Pulling,
        retry_count: count,
        actions: seq![TaskActionView::Notify(pull_start_message(t, count)), TaskActionView::Connect],
    }
}

/// The task left as it was, with nothing to do.
pub open spec fn pull_unchanged(t: KPPullTask) -> PullOutcome {
    PullOutcome { phase: t.phase, retry_count: t.retry_count, actions: seq![] }
}

/// What a pull task does on an event.
///
/// Unless kept alive, the task first waits for a player to ask for the
/// stream named by the source URL (an unreadable source URL ends the task
/// silently; a failure to receive from the hub is reported as `Unknown`).
/// Each attempt is reported with `RtmpPullStart`; a failed attempt is
/// reported with `RtmpPullStop` and its error. With a retry interval the task
/// sleeps and tries again, numbering attempts from one; without one it
/// reports `RtmpPullStop` without error and ends.
pub open spec fn pull_step(t: KPPullTask, ev: TaskEvent) -> PullOutcome {
    match t.phase {
        PullPhase::Idle => match ev {
            TaskEvent::Start => if !t.keep_alive {
                PullOutcome { phase: PullPhase::AwaitSubscriber, retry_count: t.retry_count, actions: seq![TaskActionView::WaitHubEvent] }
            } else {
                pull_attempt(t, 1)
            },
            _ => pull_unchanged(t),
        },
        PullPhase::AwaitSubscriber => match ev {
            TaskEvent::Hub(KPHubEvent::Subscribe { identifier: KPStreamIdentifier::Rtmp { app_name, stream_name } }) =>
                match source_names(t.source_url@) {
                    None => PullOutcome { phase: PullPhase::Finished, retry_count: t.retry_count, actions: seq![TaskActionView::Stop] },
                    Some(names) => if names.0 == app_name@ && names.1 == stream_name@ {
                        pull_attempt(t, 1)
                    } else {
                        PullOutcome { phase: PullPhase::AwaitSubscriber, retry_count: t.retry_count, actions: seq![TaskActionView::WaitHubEvent] }
                    },
                },
            TaskEvent::Hub(_) =>
                PullOutcome { phase: PullPhase::AwaitSubscriber, retry_count: t.retry_count, actions: seq![TaskActionView::WaitHubEvent] },
            TaskEvent::HubClosed(err) => PullOutcome {
                phase: PullPhase::Finished,
                retry_count: t.retry_count,
                actions: seq![
                    TaskActionView::Notify(KPServerMessageView::Unknown { name: t.name@, error: err@ }),
                    TaskActionView::Stop,
                ],
            },
            _ => pull_unchanged(t),
        },
        PullPhase::Pulling => match ev {
            TaskEvent::SessionEnded(res) => {
                let failed: Seq<TaskActionView> = match res {
                    Some(e) => seq![TaskActionView::Notify(KPServerMessageView::RtmpPullStop {
                        name: t.name@, source: t.source_url@, error: Some(e@) })],
                    None => seq![],
                };
                match t.retry_interval {
                    Some(d) => PullOutcome {
                        phase: PullPhase::RetryWait,
                        retry_count: t.retry_count,
                        actions: failed.push(TaskActionView::Sleep(d)),
                    },
                    None => PullOutcome {
                        phase: PullPhase::Finished,
                        retry_count: t.retry_count,
                        actions: failed
                            .push(TaskActionView::Notify(KPServerMessageView::RtmpPullStop {
                                name: t.name@, source: t.source_url@, error: None }))
                            .push(TaskActionView::Stop),
                    },
                }
            },
            _ => pull_unchanged(t),
        },
        PullPhase::RetryWait => match ev {
            TaskEvent::RetryElapsed => pull_attempt(t, (t.retry_count + 1) as usize),
            _ => pull_unchanged(t),
        },
        PullPhase::Finished => pull_unchanged(t),
    }
}

/// Whether a pull task may take the event: counting one more attempt must
/// not overflow.
pub open spec fn pull_step_allowed(t: KPPullTask, ev: TaskEvent) -> bool {
    t.phase == PullPhase::RetryWait && ev is RetryElapsed ==> t.retry_count < usize::MAX
}

impl KPPullTask {
    /// The pull task of a configuration entry; `None` for other entries.
    pub fn from_config(cfg: KPConfig) -> (res: Option<KPPullTask>)
        ensures
            match cfg {
                KPConfig::rtmp_pull { name, source_url, app_name, stream_name, keep_alive, timeout, retry_interval } =>
                    res == Some(KPPullTask {
                        name, source_url, app_name, stream_name, keep_alive, timeout, retry_interval,
                        phase: PullPhase::Idle,
                        retry_count: 0,
                    }),
                _ => res is None,
            },
    {
        match cfg {
            KPConfig::rtmp_pull { name, source_url, app_name, stream_name, keep_alive, timeout, retry_interval } =>
                Some(KPPullTask {
                    name, source_url, app_name, stream_name, keep_alive, timeout, retry_interval,
                    phase: PullPhase::Idle,
                    retry_count: 0,
                }),
            _ => None,
        }
    }

    fn start_message(&self, count: usize) -> (res: KPServerMessage)
        ensures
            res@ == pull_start_message(*self, count),
    {
        KPServerMessage::RtmpPullStart {
            name: self.name.clone(),
            source_url: self.source_url.clone(),
            retry_interval: self.retry_interval,
            retry_count: match self.retry_interval {
                Some(_) => Some(count),
                None => None,
            },
        }
    }

    fn attempt(&mut self, count: usize) -> (res: Vec<TaskAction>)
        ensures
            final(self).phase == PullPhase::Pulling,
            final(self).retry_count == count,
            actions_view(res@) == pull_attempt(*old(self), count).actions,
            final(self).name == old(self).name,
            final(self).source_url == old(self).source_url,
            final(self).app_name == old(self).app_name,
            final(self).stream_name == old(self).stream_name,
            final(self).keep_alive == old(self).keep_alive,
            final(self).timeout == old(self).timeout,
            final(self).retry_interval == old(self).retry_interval,
    {
        let msg = self.start_message(count);
        self.phase = PullPhase::Pulling;
        self.retry_count = count;
        let res = vec![TaskAction::Notify(msg), TaskAction::Connect];
        assert(actions_view(res@) =~= pull_attempt(*old(self), count).actions);
        res
    }

    /// Takes one event and returns what to do next, as `pull_step` says.
    pub fn step(&mut self, ev: TaskEvent) -> (res: Vec<TaskAction>)
        requires
            pull_step_allowed(*old(self), ev),
        ensures
            final(self).phase == pull_step(*old(self), ev).phase,
            final(self).retry_count == pull_step(*old(self), ev).retry_count,
            actions_view(res@) == pull_step(*old(self), ev).actions,
            final(self).name == old(self).name,
            final(self).source_url == old(self).source_url,
            final(self).app_name == old(self).app_name,
            final(self).stream_name == old(self).stream_name,
            final(self).keep_alive == old(self).keep_alive,
            final(self).timeout == old(self).timeout,
            final(self).retry_interval == old(self).retry_interval,
    {
        let ghost t0 = *self;
        let empty: Vec<TaskAction> = Vec::new();
        proof { assert(actions_view(empty@) =~= seq![]); }
        match self.phase {
            PullPhase::Idle => match ev {
                TaskEvent::Start => {
                    if !self.keep_alive {
                        self.phase = PullPhase::AwaitSubscriber;
                        let res = vec![TaskAction::WaitHubEvent];
                        assert(actions_view(res@) =~= pull_step(t0, ev).actions);
                        res
                    } else {
                        self.attempt(1)
                    }
                },
                _ => empty,
            },
            PullPhase::AwaitSubscriber => match ev {
                TaskEvent::Hub(KPHubEvent::Subscribe { identifier: KPStreamIdentifier::Rtmp { app_name, stream_name } }) => {
                    match get_url_info(&self.source_url) {
                        Err(_) => {
                            self.phase = PullPhase::Finished;
                            let res = vec![TaskAction::Stop];
                            assert(actions_view(res@) =~= pull_step(t0, ev).actions);
                            res
                        },
                        Ok(info) => {
                            if info.1 == app_name && info.2 == stream_name {
                                self.attempt(1)
                            } else {
                                let res = vec![TaskAction::WaitHubEvent];
                                assert(actions_view(res@) =~= pull_step(t0, ev).actions);
                                res
                            }
                        },
                    }
                },
                TaskEvent::Hub(_) => {
                    let res = vec![TaskAction::WaitHubEvent];
                    assert(actions_view(res@) =~= pull_step(t0, ev).actions);
                    res
                },
                TaskEvent::HubClosed(err) => {
                    self.phase = PullPhase::Finished;
                    let res = vec![
                        TaskAction::Notify(KPServerMessage::Unknown { name: self.name.clone(), error: err }),
                        TaskAction::Stop,
                    ];
                    assert(actions_view(res@) =~= pull_step(t0, ev).actions);
                    res
                },
                _ => empty,
            },
            PullPhase::Pulling => match ev {
                TaskEvent::SessionEnded(result) => {
                    let mut res: Vec<TaskAction> = Vec::new();
                    let ghost had_error = result is Some;
                    match result {
                        Some(e) => {
                            res.push(TaskAction::Notify(KPServerMessage::RtmpPullStop {
                                name: self.name.clone(),
                                source: self.source_url.clone(),
                                error: Some(e),
                            }));
                        },
                        None => {},
                    }
                    match self.retry_interval {
                        Some(d) => {
                            self.phase = PullPhase::RetryWait;
                            res.push(TaskAction::Sleep(d));
                        },
                        None => {
                            self.phase = PullPhase::Finished;
                            res.push(TaskAction::Notify(KPServerMessage::RtmpPullStop {
                                name: self.name.clone(),
                                source: self.source_url.clone(),
                                error: None,
                            }));
                            res.push(TaskAction::Stop);
                        },
                    }
                    assert(actions_view(res@) =~= pull_step(t0, ev).actions);
                    res
                },
                _ => empty,
            },
            PullPhase::RetryWait => match ev {
                TaskEvent::RetryElapsed => {
                    let next = self.retry_count + 1;
                    self.attempt(next)
                },
                _ => empty,
            },
            PullPhase::Finished => empty,
        }
    }
}

// ---------------------------------------------------------------------
// Push tasks
// ---------------------------------------------------------------------

/// Where a push task stands.
#[derive(Debug, Clone, Copy, PartialEq, Eq, Structural)]
pub enum PushPhase {
    /// Not started yet.
    Idle,
    /// Waiting, within the timeout, until the stream to push is published.
    AwaitPublisher,
    /// The push session is running.
    Pushing,
    /// The task is over.
    Finished,
}

/// A task that pushes one stream of the hub to an RTMP sink.
#[derive(Debug)]
pub struct KPPushTask {
    pub name: String,
    pub app_name: String,
    pub stream_name: String,
    pub sink_url: String,
    pub timeout: Option<u64>,
    pub retry_interval: Option<u64>,
    pub phase: PushPhase,
}

/// The text reported where no publisher appeared before the timeout.
pub open spec fn push_timeout_error() -> Seq<char> {
    "find source resource timeout, error: deadline has elapsed"@
}

/// The phase and actions that follow one event of a push task.
pub struct PushOutcome {
    pub phase: PushPhase,
    pub actions: Seq<TaskActionView>,
}

/// The report that the push begins.
pub open spec fn push_start_message(t: KPPushTask) -> KPServerMessageView {
    KPServerMessageView::RtmpPushStart { name: t.name@, sink_url: t.sink_url@ }
}

/// Begins the push: reports it and connects.
pub open spec fn push_begin(t: KPPushTask) -> PushOutcome {
    PushOutcome {
        phase: PushPhase::Pushing,
        actions: seq![TaskActionView::Notify(push_start_message(t)), TaskActionView::Connect],
    }
}

/// Whether a hub event publishes the stream that the task pushes.
pub open spec fn publishes_target(t: KPPushTask, e: KPHubEvent) -> bool {
    match e {
        KPHubEvent::Publish { identifier: KPStreamIdentifier::Rtmp { app_name, stream_name } } =>
            app_name@ == t.app_name@ && stream_name@ == t.stream_name@,
        _ => false,
    }
}

/// What a push task does on an event.
///
/// With a timeout, the task first waits until the stream it pushes is
/// published; where the time runs out it reports `RtmpPushStop` with the
/// timeout error and pushes anyway, and where the hub closes it pushes
/// without a report. The push is reported with `RtmpPushStart`, and its end
/// with `RtmpPushStop` and the session's error, after which the task ends.
pub open spec fn push_step(t: KPPushTask, ev: TaskEvent) -> PushOutcome {
    match t.phase {
        PushPhase::Idle => match ev {
            TaskEvent::Start => match t.timeout {
                Some(d) => PushOutcome {
                    phase: PushPhase::AwaitPublisher,
                    actions: seq![TaskActionView::ArmTimeout(d), TaskActionView::WaitHubEvent],
                },
                None => push_begin(t),
            },
            _ => PushOutcome { phase: t.phase, actions: seq![] },
        },
        PushPhase::AwaitPublisher => match ev {
            TaskEvent::Hub(e) => if publishes_target(t, e) {
                push_begin(t)
            } else {
                PushOutcome { phase: PushPhase::AwaitPublisher, actions: seq![TaskActionView::WaitHubEvent] }
            },
            TaskEvent::HubClosed(_) => push_begin(t),
            TaskEvent::TimedOut => PushOutcome {
                phase: PushPhase::Pushing,
                actions: seq![
                    TaskActionView::Notify(KPServerMessageView::RtmpPushStop {
                        name: t.name@, sink_url: t.sink_url@, error: Some(push_timeout_error()) }),
                    TaskActionView::Notify(push_start_message(t)),
                    TaskActionView::Connect,
                ],
            },
            _ => PushOutcome { phase: t.phase, actions: seq![] },
        },
        PushPhase::Pushing => match ev {
            TaskEvent::SessionEnded(res) => PushOutcome {
                phase: PushPhase::Finished,
                actions: seq![
                    TaskActionView::Notify(KPServerMessageView::RtmpPushStop {
                        name: t.name@, sink_url: t.sink_url@, error: opt_str(res) }),
                    TaskActionView::Stop,
                ],
            },
            _ => PushOutcome { phase: t.phase, actions: seq![] },
        },
        PushPhase::Finished => PushOutcome { phase: t.phase, actions: seq![] },
    }
}

impl KPPushTask {
    /// The push task of a configuration entry; `None` for other entries.
    pub fn from_config(cfg: KPConfig) -> (res: Option<KPPushTask>)
        ensures
            match cfg {
                KPConfig::rtmp_push { name, app_name, stream_name, sink_url, timeout, retry_interval } =>
                    res == Some(KPPushTask {
                        name, app_name, stream_name, sink_url, timeout, retry_interval,
                        phase: PushPhase::Idle,
                    }),
                _ => res is None,
            },
    {
        match cfg {
            KPConfig::rtmp_push { name, app_name, stream_name, sink_url, timeout, retry_interval } =>
                Some(KPPushTask {
                    name, app_name, stream_name, sink_url, timeout, retry_interval,
                    phase: PushPhase::Idle,
                }),
            _ => None,
        }
    }

    fn begin(&mut self) -> (res: Vec<TaskAction>)
        ensures
            final(self).phase == PushPhase::Pushing,
            actions_view(res@) == push_begin(*old(self)).actions,
            final(self).name == old(self).name,
            final(self).app_name == old(self).app_name,
            final(self).stream_name == old(self).stream_name,
            final(self).sink_url == old(self).sink_url,
            final(self).timeout == old(self).timeout,
            final(self).retry_interval == old(self).retry_interval,
    {
        self.phase = PushPhase::Pushing;
        let res = vec![
            TaskAction::Notify(KPServerMessage::RtmpPushStart { name: self.name.clone(), sink_url: self.sink_url.clone() }),
            TaskAction::Connect,
        ];
        assert(actions_view(res@) =~= push_begin(*old(self)).actions);
        res
    }

    /// Takes one event and returns what to do next, as `push_step` says.
    pub fn step(&mut self, ev: TaskEvent) -> (res: Vec<TaskAction>)
        ensures
            final(self).phase == push_step(*old(self), ev).phase,
            actions_view(res@) == push_step(*old(self), ev).actions,
            final(self).name == old(self).name,
            final(self).app_name == old(self).app_name,
            final(self).stream_name == old(self).stream_name,
            final(self).sink_url == old(self).sink_url,
            final(self).timeout == old(self).timeout,
            final(self).retry_interval == old(self).retry_interval,
    {
        let ghost t0 = *self;
        let empty: Vec<TaskAction> = Vec::new();
        proof { assert(actions_view(empty@) =~= seq![]); }
        match self.phase {
            PushPhase::Idle => match ev {
                TaskEvent::Start => match self.timeout {
                    Some(d) => {
                        self.phase = PushPhase::AwaitPublisher;
                        let res = vec![TaskAction::ArmTimeout(d), TaskAction::WaitHubEvent];
                        assert(actions_view(res@) =~= push_step(t0, ev).actions);
                        res
                    },
                    None => self.begin(),
                },
                _ => empty,
            },
            PushPhase::AwaitPublisher => match ev {
                TaskEvent::Hub(e) => {
                    let hit = match &e {
                        KPHubEvent::Publish { identifier: KPStreamIdentifier::Rtmp { app_name, stream_name } } =>
                            *app_name == self.app_name && *stream_name == self.stream_name,
                        _ => false,
                    };
                    if hit {
                        self.begin()
                    } else {
                        let res = vec![TaskAction::WaitHubEvent];
                        assert(actions_view(res@) =~= push_step(t0, ev).actions);
                        res
                    }
                },
                TaskEvent::HubClosed(_) => self.begin(),
                TaskEvent::TimedOut => {
                    self.phase = PushPhase::Pushing;
                    let res = vec![
                        TaskAction::Notify(KPServerMessage::RtmpPushStop {
                            name: self.name.clone(),
                            sink_url: self.sink_url.clone(),
                            error: Some(string_of("find source resource timeout, error: deadline has elapsed")),
                        }),
                        TaskAction::Notify(KPServerMessage::RtmpPushStart {
                            name: self.name.clone(),
                            sink_url: self.sink_url.clone(),
                        }),
                        TaskAction::Connect,
                    ];
                    proof { reveal_strlit("find source resource timeout, error: deadline has elapsed"); }
                    assert(actions_view(res@) =~= push_step(t0, ev).actions);
                    res
                },
                _ => empty,
            },
            PushPhase::Pushing => match ev {
                TaskEvent::SessionEnded(result) => {
                    self.phase = PushPhase::Finished;
                    let res = vec![
                        TaskAction::Notify(KPServerMessage::RtmpPushStop {
                            name: self.name.clone(),
                            sink_url: self.sink_url.clone(),
                            error: result,
                        }),
                        TaskAction::Stop,
                    ];
                    assert(actions_view(res@) =~= push_step(t0, ev).actions);
                    res
                },
                _ => empty,
            },
            PushPhase::Finished => empty,
        }
    }
}

// ---------------------------------------------------------------------
// Sessions
// ---------------------------------------------------------------------

/// How to open an RTMP session: the address to connect to, the names of
/// the stream at the remote end and the names it has in the local hub.
#[derive(Debug)]
pub struct KPSessionPlan {
    pub address: String,
    pub remote_app: String,
    pub remote_stream: String,
    pub local_app: String,
    pub local_stream: String,
}

/// Whether a session plan, or its error, matches the connection details of
/// `url` and the local names `local_app` / `local_stream`, which are given
/// as functions of the remote names.
pub open spec fn plan_matches(
    res: Result<KPSessionPlan, UrlInfoError>,
    url: Seq<char>,
    local_app: Option<Seq<char>>,
    local_stream: Option<Seq<char>>,
) -> bool {
    match url_info_of(url) {
        Err(e) => res matches Err(x) && x@ == e,
        Ok(t) => res matches Ok(plan) && {
            &&& plan.address@ == t.0
            &&& plan.remote_app@ == t.1
            &&& plan.remote_stream@ == t.2
            &&& plan.local_app@ == (match local_app { Some(a) => a, None => t.1 })
            &&& plan.local_stream@ == (match local_stream { Some(a) => a, None => t.2 })
        },
    }
}

/// The session of a pull: it connects to the source URL and publishes the
/// source stream in the hub under `app_name` and `stream_name`, each
/// defaulting to the source's own name.
pub fn pull_session_plan(source_url: &String, app_name: &Option<String>, stream_name: &Option<String>)
    -> (res: Result<KPSessionPlan, UrlInfoError>)
    ensures
        plan_matches(res, source_url@, opt_str(*app_name), opt_str(*stream_name)),
{
    match get_url_info(source_url) {
        Err(e) => Err(e),
        Ok((address, remote_app, remote_stream)) => {
            let local_app = match app_name { Some(a) => a.clone(), None => remote_app.clone() };
            let local_stream = match stream_name { Some(a) => a.clone(), None => remote_stream.clone() };
            Ok(KPSessionPlan { address, remote_app, remote_stream, local_app, local_stream })
        },
    }
}

/// The session of a push: it connects to the sink URL and plays the hub's
/// stream `app_name` / `stream_name` to it.
pub fn push_session_plan(sink_url: &String, app_name: &String, stream_name: &String)
    -> (res: Result<KPSessionPlan, UrlInfoError>)
    ensures
        plan_matches(res, sink_url@, Some(app_name@), Some(stream_name@)),
{
    match get_url_info(sink_url) {
        Err(e) => Err(e),
        Ok((address, remote_app, remote_stream)) => {
            Ok(KPSessionPlan {
                address,
                remote_app,
                remote_stream,
                local_app: app_name.clone(),
                local_stream: stream_name.clone(),
            })
        },
    }
}

/// The error text of a session that failed with `err`.
pub fn session_failure_message(err: &str) -> (res: String)
    ensures
        res@ == "client session failed. error: "@ + err@,
{
    let mut m = string_of("client session failed. error: ");
    append_str(&mut m, err);
    m
}

// ---------------------------------------------------------------------
// Starting the configured servers
// ---------------------------------------------------------------------

/// What starting the relay asks its runner to do, in order.
#[derive(Debug)]
pub enum ServerAction {
    /// Run an HTTP-FLV server; when it ends, report `HttpflvStop`.
    RunHttpflv { name: String, port: usize },
    /// Run the HLS remuxer; when it ends, report `HlsStop`.
    RunHlsRemuxer { name: String },
    /// Run the HLS HTTP server; when it ends, report `HlsStop`.
    RunHlsServer { name: String, port: usize },
    /// Turn HLS on in the hub.
    EnableHls,
    /// Run an RTMP server on `bind_address`; when it ends, report `RtmpStop`.
    RunRtmp { name: String, bind_address: String, gop_number: usize },
    /// Spawn the pull task.
    SpawnPull(KPPullTask),
    /// Turn pulling on in the hub.
    EnablePull,
    /// Spawn the push task.
    SpawnPush(KPPushTask),
    /// Turn pushing on in the hub.
    EnablePush,
    /// Report the message.
    Notify(KPServerMessage),
}

pub enum ServerActionView {
    RunHttpflv { name: Seq<char>, port: usize },
    RunHlsRemuxer { name: Seq<char> },
    RunHlsServer { name: Seq<char>, port: usize },
    EnableHls,
    RunRtmp { name: Seq<char>, bind_address: Seq<char>, gop_number: usize },
    SpawnPull(KPPullTask),
    EnablePull,
    SpawnPush(KPPushTask),
    EnablePush,
    Notify(KPServerMessageView),
}

impl View for ServerAction {
    type V = ServerActionView;

    open spec fn view(&self) -> ServerActionView {
        match self {
            ServerAction::RunHttpflv { name, port } => ServerActionView::RunHttpflv { name: name@, port: *port },
            ServerAction::RunHlsRemuxer { name } => ServerActionView::RunHlsRemuxer { name: name@ },
            ServerAction::RunHlsServer { name, port } => ServerActionView::RunHlsServer { name: name@, port: *port },
            ServerAction::EnableHls => ServerActionView::EnableHls,
            ServerAction::RunRtmp { name, bind_address, gop_number } =>
                ServerActionView::RunRtmp { name: name@, bind_address: bind_address@, gop_number: *gop_number },
            ServerAction::SpawnPull(t) => ServerActionView::SpawnPull(*t),
            ServerAction::EnablePull => ServerActionView::EnablePull,
            ServerAction::SpawnPush(t) => ServerActionView::SpawnPush(*t),
            ServerAction::EnablePush => ServerActionView::EnablePush,
            ServerAction::Notify(m) => ServerActionView::Notify(m@),
        }
    }
}

/// The views of a sequence of server actions.
pub open spec fn server_actions_view(v: Seq<ServerAction>) -> Seq<ServerActionView> {
    v.map_values(|a: ServerAction| a@)
}

/// The address an RTMP server binds: `address:port`.
pub open spec fn bind_address(address: Seq<char>, port: usize) -> Seq<char> {
    address + seq![':'] + decimal(port as nat)
}

/// What starting one configuration entry asks for.
///
/// An HTTP-FLV server is run, then reported started. HLS runs the remuxer,
/// reports HLS started, runs its HTTP server, turns HLS on in the hub and
/// reports HLS started again. An RTMP server is run on `address:port`, then
/// reported started. Pull and push entries spawn their task and turn
/// pulling or pushing on in the hub.
pub open spec fn config_actions(c: KPConfig) -> Seq<ServerActionView> {
    match c {
        KPConfig::httpflv { name, port } => seq![
            ServerActionView::RunHttpflv { name: name@, port },
            ServerActionView::Notify(KPServerMessageView::HttpflvStart { name: name@ }),
        ],
        KPConfig::hls { name, port } => seq![
            ServerActionView::RunHlsRemuxer { name: name@ },
            ServerActionView::Notify(KPServerMessageView::HlsStart { name: name@ }),
            ServerActionView::RunHlsServer { name: name@, port },
            ServerActionView::EnableHls,
            ServerActionView::Notify(KPServerMessageView::HlsStart { name: name@ }),
        ],
        KPConfig::rtmp { name, address, port, gop_number } => seq![
            ServerActionView::RunRtmp { name: name@, bind_address: bind_address(address@, port), gop_number },
            ServerActionView::Notify(KPServerMessageView::RtmpStart { name: name@, address: address@, port }),
        ],
        KPConfig::rtmp_pull { name, source_url, app_name, stream_name, keep_alive, timeout, retry_interval } => seq![
            ServerActionView::SpawnPull(KPPullTask {
                name, source_url, app_name, stream_name, keep_alive, timeout, retry_interval,
                phase: PullPhase::Idle,
                retry_count: 0,
            }),
            ServerActionView::EnablePull,
        ],
        KPConfig::rtmp_push { name, app_name, stream_name, sink_url, timeout, retry_interval } => seq![
            ServerActionView::SpawnPush(KPPushTask {
                name, app_name, stream_name, sink_url, timeout, retry_interval,
                phase: PushPhase::Idle,
            }),
            ServerActionView::EnablePush,
        ],
    }
}

/// What starting all configuration entries asks for: each entry's actions,
/// in the order of the entries.
pub open spec fn plan_spec(cs: Seq<KPConfig>) -> Seq<ServerActionView>
    decreases cs.len(),
{
    if cs.len() == 0 {
        seq![]
    } else {
        plan_spec(cs.drop_last()) + config_actions(cs.last())
    }
}

/// The actions that start one configuration entry.
pub fn config_plan(c: KPConfig) -> (res: Vec<ServerAction>)
    ensures
        server_actions_view(res@) == config_actions(c),
{
    let ghost c0 = c;
    let res = match c {
        KPConfig::httpflv { name, port } => vec![
            ServerAction::RunHttpflv { name: name.clone(), port },
            ServerAction::Notify(KPServerMessage::HttpflvStart { name }),
        ],
        KPConfig::hls { name, port } => vec![
            ServerAction::RunHlsRemuxer { name: name.clone() },
            ServerAction::Notify(KPServerMessage::HlsStart { name: name.clone() }),
            ServerAction::RunHlsServer { name: name.clone(), port },
            ServerAction::EnableHls,
            ServerAction::Notify(KPServerMessage::HlsStart { name }),
        ],
        KPConfig::rtmp { name, address, port, gop_number } => {
            let mut bind = address.clone();
            push_char(&mut bind, ':');
            append_decimal(&mut bind, port as u64);
            assert(bind@ =~= bind_address(address@, port));
            vec![
                ServerAction::RunRtmp { name: name.clone(), bind_address: bind, gop_number },
                ServerAction::Notify(KPServerMessage::RtmpStart { name, address, port }),
            ]
        },
        KPConfig::rtmp_pull { name, source_url, app_name, stream_name, keep_alive, timeout, retry_interval } => vec![
            ServerAction::SpawnPull(KPPullTask {
                name, source_url, app_name, stream_name, keep_alive, timeout, retry_interval,
                phase: PullPhase::Idle,
                retry_count: 0,
            }),
            ServerAction::EnablePull,
        ],
        KPConfig::rtmp_push { name, app_name, stream_name, sink_url, timeout, retry_interval } => vec![
            ServerAction::SpawnPush(KPPushTask {
                name, app_name, stream_name, sink_url, timeout, retry_interval,
                phase: PushPhase::Idle,
            }),
            ServerAction::EnablePush,
        ],
    };
    assert(server_actions_view(res@) =~= config_actions(c0));
    res
}

/// The actions that start every configuration entry, in order, as
/// `plan_spec` gives them.
pub fn initialize_plan(configs: Vec<KPConfig>) -> (res: Vec<ServerAction>)
    ensures
        server_actions_view(res@) == plan_spec(configs@),
{
    let ghost orig = configs@;
    let mut rest = configs;
    let mut res: Vec<ServerAction> = Vec::new();
    let ghost mut k: int = 0;
    proof {
        assert(orig.take(0) =~= Seq::<KPConfig>::empty());
        assert(server_actions_view(res@) =~= seq![]);
        assert(rest@ =~= orig.skip(0));
    }
    while rest.len() > 0
        invariant
            0 <= k <= orig.len(),
            rest@ == orig.skip(k),
            server_actions_view(res@) == plan_spec(orig.take(k)),
        decreases rest.len(),
    {
        let c = rest.remove(0);
        let mut acts = config_plan(c);
        let ghost before = res@;
        res.append(&mut acts);
        proof {
            assert(c == orig[k]);
            assert(orig.take(k + 1).drop_last() =~= orig.take(k));
            assert(orig.take(k + 1).last() == orig[k]);
            assert(server_actions_view(res@) =~= server_actions_view(before) + config_actions(c));
            assert(rest@ =~= orig.skip(k + 1));
            k = k + 1;
        }
    }
    proof {
        assert(orig.take(k) =~= orig);
    }
    res
}

/// The configuration of a relay service: its entries, in the order they
/// were appended.
#[derive(Debug)]
pub struct KPService {
    pub config: Vec<KPConfig>,
}

impl KPService {
    /// A service with no entry.
    pub fn new() -> (res: KPService)
        ensures
            res.config@.len() == 0,
    {
        KPService { config: Vec::new() }
    }

    /// Appends an entry.
    pub fn append(&mut self, cfg: KPConfig)
        ensures
            final(self).config@ == old(self).config@.push(cfg),
    {
        self.config.push(cfg);
    }
}

/// The relay server of a service.
#[derive(Debug)]
pub struct KPServer {
    pub service: KPService,
}

impl KPServer {
    /// The server of the service.
    pub fn new(service: KPService) -> (res: KPServer)
        ensures
            res.service == service,
    {
        KPServer { service }
    }

    /// What starting the service asks for, as `plan_spec` gives it.
    pub fn initialize(self) -> (res: Vec<ServerAction>)
        ensures
            server_actions_view(res@) == plan_spec(self.service.config@),
    {
        initialize_plan(self.service.config)
    }
}

// ---------------------------------------------------------------------
// Laws
// ---------------------------------------------------------------------

/// Whether a pull task's attempt number agrees with its phase: none before
/// the first attempt, and at least one from the first attempt on.
pub open spec fn pull_count_consistent(t: KPPullTask) -> bool {
    &&& (t.phase == PullPhase::Idle || t.phase == PullPhase::AwaitSubscriber) ==> t.retry_count == 0
    &&& (t.phase == PullPhase::Pulling || t.phase == PullPhase::RetryWait) ==> t.retry_count >= 1
}

/// Attempts of a pull task are numbered from one: every step keeps the
/// attempt number consistent with the phase, and a step that begins an
/// attempt either begins the first one or the one after the last.
pub proof fn lemma_pull_attempts_numbered(t: KPPullTask, ev: TaskEvent)
    requires
        pull_count_consistent(t),
        pull_step_allowed(t, ev),
    ensures
        ({
            let next = KPPullTask { phase: pull_step(t, ev).phase, retry_count: pull_step(t, ev).retry_count, ..t };
            &&& pull_count_consistent(next)
            &&& (pull_step(t, ev).phase == PullPhase::Pulling && t.phase != PullPhase::Pulling) ==> {
                ||| (t.phase != PullPhase::RetryWait && pull_step(t, ev).retry_count == 1)
                ||| (t.phase == PullPhase::RetryWait && pull_step(t, ev).retry_count == t.retry_count + 1)
            }
        }),
{
}

/// Every attempt of a pull task is announced, with its number where the
/// pull is retried, just before the task connects; and nothing else makes
/// it connect.
pub proof fn lemma_pull_connect_announced(t: KPPullTask, ev: TaskEvent)
    requires
        pull_step_allowed(t, ev),
    ensures
        pull_step(t, ev).actions.contains(TaskActionView::Connect) ==>
            pull_step(t, ev).actions == seq![
                TaskActionView::Notify(pull_start_message(t, pull_step(t, ev).retry_count)),
                TaskActionView::Connect,
            ],
{
    let o = pull_step(t, ev);
    if o.actions.contains(TaskActionView::Connect) {
        let i = choose|i: int| 0 <= i < o.actions.len() && o.actions[i] == TaskActionView::Connect;
        assert(o.actions[i] == TaskActionView::Connect);
    }
}

/// A failed pull attempt is always reported first, with its error.
pub proof fn lemma_pull_failure_reported(t: KPPullTask, e: String)
    requires
        t.phase == PullPhase::Pulling,
    ensures
        pull_step(t, TaskEvent::SessionEnded(Some(e))).actions[0] == TaskActionView::Notify(
            KPServerMessageView::RtmpPullStop { name: t.name@, source: t.source_url@, error: Some(e@) }),
{
}

/// Without a retry interval a pull makes one attempt: when its session ends
/// the task reports `RtmpPullStop` without error and ends; with one it
/// sleeps for the interval and stays alive.
pub proof fn lemma_pull_retry_or_finish(t: KPPullTask, r: Option<String>)
    requires
        t.phase == PullPhase::Pulling,
    ensures
        ({
            let o = pull_step(t, TaskEvent::SessionEnded(r));
            match t.retry_interval {
                None => {
                    &&& o.phase == PullPhase::Finished
                    &&& o.actions.last() == TaskActionView::Stop
                    &&& o.actions[o.actions.len() - 2] == TaskActionView::Notify(
                        KPServerMessageView::RtmpPullStop { name: t.name@, source: t.source_url@, error: None })
                },
                Some(d) => {
                    &&& o.phase == PullPhase::RetryWait
                    &&& o.actions.last() == TaskActionView::Sleep(d)
                },
            }
        }),
{
}

/// A finished pull or push task stays finished and does nothing more,
/// whatever happens.
pub proof fn lemma_finished_tasks_inert(p: KPPullTask, q: KPPushTask, ev: TaskEvent)
    requires
        p.phase == PullPhase::Finished,
        q.phase == PushPhase::Finished,
    ensures
        pull_step(p, ev).phase == PullPhase::Finished,
        pull_step(p, ev).actions.len() == 0,
        push_step(q, ev).phase == PushPhase::Finished,
        push_step(q, ev).actions.len() == 0,
{
}

/// A push is announced just before the task connects, and nothing else
/// makes it connect; the announcement follows the publication of the
/// pushed stream, the closing of the hub, the timeout, or a start without
/// timeout.
pub proof fn lemma_push_connect_announced(t: KPPushTask, ev: TaskEvent)
    ensures
        push_step(t, ev).actions.contains(TaskActionView::Connect) ==> {
            &&& push_step(t, ev).actions.last() == TaskActionView::Connect
            &&& push_step(t, ev).actions[push_step(t, ev).actions.len() - 2]
                == TaskActionView::Notify(push_start_message(t))
            &&& push_step(t, ev).phase == PushPhase::Pushing
            &&& ({
                ||| (t.phase == PushPhase::Idle && ev is Start && t.timeout is None)
                ||| (t.phase == PushPhase::AwaitPublisher && (ev matches TaskEvent::Hub(e) && publishes_target(t, e)))
                ||| (t.phase == PushPhase::AwaitPublisher && ev is HubClosed)
                ||| (t.phase == PushPhase::AwaitPublisher && ev is TimedOut)
            })
        },
{
    let o = push_step(t, ev);
    if o.actions.contains(TaskActionView::Connect) {
        let i = choose|i: int| 0 <= i < o.actions.len() && o.actions[i] == TaskActionView::Connect;
        assert(o.actions[i] == TaskActionView::Connect);
    }
}

/// The end of a push session is reported once, with the session's error,
/// and ends the task.
pub proof fn lemma_push_end_reported(t: KPPushTask, r: Option<String>)
    requires
        t.phase == PushPhase::Pushing,
    ensures
        push_step(t, TaskEvent::SessionEnded(r)).phase == PushPhase::Finished,
        push_step(t, TaskEvent::SessionEnded(r)).actions == seq![
            TaskActionView::Notify(KPServerMessageView::RtmpPushStop {
                name: t.name@, sink_url: t.sink_url@, error: opt_str(r) }),
            TaskActionView::Stop,
        ],
{
}

/// A pull task after a run of events, and every action it asked for on
/// the way, in order.
pub open spec fn pull_run(t: KPPullTask, evs: Seq<TaskEvent>) -> (KPPullTask, Seq<TaskActionView>)
    decreases evs.len(),
{
    if evs.len() == 0 {
        (t, seq![])
    } else {
        let (t1, acts) = pull_run(t, evs.drop_last());
        let o = pull_step(t1, evs.last());
        (KPPullTask { phase: o.phase, retry_count: o.retry_count, ..t1 }, acts + o.actions)
    }
}

/// Whether every event of a run may be taken by the task it reaches.
pub open spec fn pull_run_allowed(t: KPPullTask, evs: Seq<TaskEvent>) -> bool
    decreases evs.len(),
{
    if evs.len() == 0 {
        true
    } else {
        pull_run_allowed(t, evs.drop_last()) && pull_step_allowed(pull_run(t, evs.drop_last()).0, evs.last())
    }
}

/// The attempt numbers announced by the `RtmpPullStart` reports among the
/// actions, in order.
pub open spec fn announced_attempts(acts: Seq<TaskActionView>) -> Seq<usize>
    decreases acts.len(),
{
    if acts.len() == 0 {
        seq![]
    } else {
        let rest = announced_attempts(acts.drop_last());
        match acts.last() {
            TaskActionView::Notify(KPServerMessageView::RtmpPullStart { retry_count: Some(c), .. }) => rest.push(c),
            _ => rest,
        }
    }
}

/// The numbers from one to `n`, in order.
pub open spec fn one_to(n: nat) -> Seq<usize> {
    Seq::new(n, |i: int| (i + 1) as usize)
}

proof fn lemma_announced_concat(a: Seq<TaskActionView>, b: Seq<TaskActionView>)
    ensures
        announced_attempts(a + b) == announced_attempts(a) + announced_attempts(b),
    decreases b.len(),
{
    if b.len() == 0 {
        assert(a + b =~= a);
        assert(announced_attempts(a) + announced_attempts(b) =~= announced_attempts(a));
    } else {
        lemma_announced_concat(a, b.drop_last());
        assert((a + b).drop_last() =~= a + b.drop_last());
        assert((a + b).last() == b.last());
        let x = announced_attempts(a);
        let y = announced_attempts(b.drop_last());
        match b.last() {
            TaskActionView::Notify(KPServerMessageView::RtmpPullStart { retry_count: Some(c), .. }) => {
                assert(x + y.push(c) =~= (x + y).push(c));
            },
            _ => {},
        }
    }
}

proof fn lemma_pull_step_announces(t: KPPullTask, ev: TaskEvent)
    requires
        pull_count_consistent(t),
        pull_step_allowed(t, ev),
        t.retry_interval is Some,
    ensures
        ({
            let o = pull_step(t, ev);
            &&& (o.retry_count == t.retry_count && announced_attempts(o.actions) == Seq::<usize>::empty())
                || (o.retry_count == t.retry_count + 1 && announced_attempts(o.actions) == seq![o.retry_count])
        }),
{
    let o = pull_step(t, ev);
    let acts = o.actions;
    lemma_pull_attempts_numbered(t, ev);
    if acts.len() == 2 && acts[1] == TaskActionView::Connect {
        assert(acts.contains(TaskActionView::Connect));
        lemma_pull_connect_announced(t, ev);
        assert(t.phase != PullPhase::Pulling);
        assert(o.phase == PullPhase::Pulling);
        let a0 = seq![acts[0]];
        assert(acts.drop_last() =~= a0);
        assert(a0.drop_last() =~= Seq::<TaskActionView>::empty());
        assert(acts[0] == TaskActionView::Notify(pull_start_message(t, o.retry_count)));
        assert(pull_start_message(t, o.retry_count) matches KPServerMessageView::RtmpPullStart { retry_count: Some(c), .. } && c == o.retry_count);
        assert(announced_attempts(a0) == announced_attempts(a0.drop_last()).push(o.retry_count));
        assert(announced_attempts(acts) == announced_attempts(a0));
        assert(announced_attempts(acts) =~= seq![o.retry_count]);
    } else {
        assert(o.retry_count == t.retry_count);
        assert forall|k: nat| k <= acts.len() implies announced_attempts(acts.take(k as int)) == Seq::<usize>::empty() by {
            lemma_no_announcement_prefix(t, ev, k);
        }
        assert(acts.take(acts.len() as int) =~= acts);
    }
}

proof fn lemma_no_announcement_prefix(t: KPPullTask, ev: TaskEvent, k: nat)
    requires
        pull_count_consistent(t),
        pull_step_allowed(t, ev),
        !(pull_step(t, ev).actions.len() == 2 && pull_step(t, ev).actions[1] == TaskActionView::Connect),
        k <= pull_step(t, ev).actions.len(),
    ensures
        announced_attempts(pull_step(t, ev).actions.take(k as int)) == Seq::<usize>::empty(),
    decreases k,
{
    let acts = pull_step(t, ev).actions;
    if k > 0 {
        lemma_no_announcement_prefix(t, ev, (k - 1) as nat);
        assert(acts.take(k as int).drop_last() =~= acts.take(k - 1));
        assert(acts.take(k as int).last() == acts[k - 1]);
    }
}

/// Over any run of a retried pull task from its start, the attempts it
/// announces are numbered one, two, three and so on, with no number
/// skipped or repeated, and the last number is the task's attempt count.
pub proof fn lemma_pull_run_numbers_attempts(t: KPPullTask, evs: Seq<TaskEvent>)
    requires
        t.phase == PullPhase::Idle,
        t.retry_count == 0,
        t.retry_interval is Some,
        pull_run_allowed(t, evs),
    ensures
        announced_attempts(pull_run(t, evs).1) == one_to(pull_run(t, evs).0.retry_count as nat),
        pull_count_consistent(pull_run(t, evs).0),
        pull_run(t, evs).0.retry_interval == t.retry_interval,
    decreases evs.len(),
{
    if evs.len() == 0 {
        assert(one_to(0) =~= Seq::<usize>::empty());
    } else {
        lemma_pull_run_numbers_attempts(t, evs.drop_last());
        let (t1, acts) = pull_run(t, evs.drop_last());
        let ev = evs.last();
        let o = pull_step(t1, ev);
        lemma_pull_attempts_numbered(t1, ev);
        lemma_pull_step_announces(t1, ev);
        lemma_announced_concat(acts, o.actions);
        if o.retry_count == t1.retry_count + 1 {
            assert(one_to(t1.retry_count as nat).push(o.retry_count) =~= one_to(o.retry_count as nat));
        } else {
            assert(one_to(t1.retry_count as nat) + Seq::<usize>::empty() =~= one_to(o.retry_count as nat));
        }
    }
}

/// A push task after a run of events, and every action it asked for on
/// the way, in order.
pub open spec fn push_run(t: KPPushTask, evs: Seq<TaskEvent>) -> (KPPushTask, Seq<TaskActionView>)
    decreases evs.len(),
{
    if evs.len() == 0 {
        (t, seq![])
    } else {
        let (t1, acts) = push_run(t, evs.drop_last());
        let o = push_step(t1, evs.last());
        (KPPushTask { phase: o.phase, ..t1 }, acts + o.actions)
    }
}

/// How many times the actions ask to connect.
pub open spec fn connect_count(acts: Seq<TaskActionView>) -> nat
    decreases acts.len(),
{
    if acts.len() == 0 {
        0
    } else {
        connect_count(acts.drop_last()) + if acts.last() == TaskActionView::Connect { 1nat } else { 0nat }
    }
}

proof fn lemma_connect_count_concat(a: Seq<TaskActionView>, b: Seq<TaskActionView>)
    ensures
        connect_count(a + b) == connect_count(a) + connect_count(b),
    decreases b.len(),
{
    if b.len() == 0 {
        assert(a + b =~= a);
    } else {
        lemma_connect_count_concat(a, b.drop_last());
        assert((a + b).drop_last() =~= a + b.drop_last());
        assert((a + b).last() == b.last());
    }
}

proof fn lemma_connect_count_literal(acts: Seq<TaskActionView>)
    ensures
        acts.len() <= 3 ==> connect_count(acts) == (
            (if acts.len() > 0 && acts[0] == TaskActionView::Connect { 1nat } else { 0nat })
            + (if acts.len() > 1 && acts[1] == TaskActionView::Connect { 1nat } else { 0nat })
            + (if acts.len() > 2 && acts[2] == TaskActionView::Connect { 1nat } else { 0nat })),
{
    let c = TaskActionView::Connect;
    if acts.len() == 1 {
        assert(acts.drop_last().len() == 0);
        assert(connect_count(acts.drop_last()) == 0);
        assert(acts.last() == acts[0]);
    } else if acts.len() == 2 {
        let d1 = acts.drop_last();
        assert(d1.len() == 1 && d1[0] == acts[0] && d1.last() == acts[0]);
        assert(d1.drop_last().len() == 0);
        assert(connect_count(d1.drop_last()) == 0);
        assert(acts.last() == acts[1]);
        assert(connect_count(d1) == (if acts[0] == c { 1nat } else { 0nat }));
    } else if acts.len() == 3 {
        let d1 = acts.drop_last();
        let d2 = d1.drop_last();
        assert(d2.len() == 1 && d2[0] == acts[0] && d2.last() == acts[0]);
        assert(d2.drop_last().len() == 0);
        assert(connect_count(d2.drop_last()) == 0);
        assert(d1.last() == acts[1]);
        assert(acts.last() == acts[2]);
        assert(connect_count(d2) == (if acts[0] == c { 1nat } else { 0nat }));
        assert(connect_count(d1) == connect_count(d2) + (if acts[1] == c { 1nat } else { 0nat }));
    }
}

/// Over any run of a push task from its start, the task connects at most
/// once: exactly once where it has begun pushing, and never before.
pub proof fn lemma_push_run_connects_once(t: KPPushTask, evs: Seq<TaskEvent>)
    requires
        t.phase == PushPhase::Idle,
    ensures
        connect_count(push_run(t, evs).1) == (if push_run(t, evs).0.phase == PushPhase::Idle
            || push_run(t, evs).0.phase == PushPhase::AwaitPublisher { 0nat } else { 1nat }),
    decreases evs.len(),
{
    if evs.len() > 0 {
        lemma_push_run_connects_once(t, evs.drop_last());
        let (t1, acts) = push_run(t, evs.drop_last());
        let o = push_step(t1, evs.last());
        lemma_connect_count_concat(acts, o.actions);
        lemma_connect_count_literal(o.actions);
        lemma_push_connect_announced(t1, evs.last());
    }
}

/// Starting a list of entries asks for what starting its first part and
/// then its second part asks for: entries are started one after another, in
/// order, each independently of the others.
pub proof fn lemma_plan_concat(a: Seq<KPConfig>, b: Seq<KPConfig>)
    ensures
        plan_spec(a + b) == plan_spec(a) + plan_spec(b),
    decreases b.len(),
{
    if b.len() == 0 {
        assert(a + b =~= a);
        assert(plan_spec(b) =~= seq![]);
        assert(plan_spec(a) + plan_spec(b) =~= plan_spec(a));
    } else {
        lemma_plan_concat(a, b.drop_last());
        assert((a + b).drop_last() =~= a + b.drop_last());
        assert((a + b).last() == b.last());
        assert(plan_spec(a + b) =~= plan_spec(a) + plan_spec(b));
    }
}


/// A pull entry spawns a pull task that carries every field of the entry
/// unchanged, not started and with no attempt counted, then turns pulling
/// on; a push entry likewise spawns a push task with every field of the
/// entry, not started, then turns pushing on.
pub proof fn lemma_entry_spawns_its_task(c: KPConfig)
    ensures
        match c {
            KPConfig::rtmp_pull { name, source_url, app_name, stream_name, keep_alive, timeout, retry_interval } => {
                &&& config_actions(c).len() == 2
                &&& config_actions(c)[0] matches ServerActionView::SpawnPull(t)
                    && t.name == name && t.source_url == source_url && t.app_name == app_name
                    && t.stream_name == stream_name && t.keep_alive == keep_alive && t.timeout == timeout
                    && t.retry_interval == retry_interval && t.phase == PullPhase::Idle && t.retry_count == 0
                &&& config_actions(c)[1] is EnablePull
            },
            KPConfig::rtmp_push { name, app_name, stream_name, sink_url, timeout, retry_interval } => {
                &&& config_actions(c).len() == 2
                &&& config_actions(c)[0] matches ServerActionView::SpawnPush(t)
                    && t.name == name && t.app_name == app_name && t.stream_name == stream_name
                    && t.sink_url == sink_url && t.timeout == timeout && t.retry_interval == retry_interval
                    && t.phase == PushPhase::Idle
                &&& config_actions(c)[1] is EnablePush
            },
            _ => true,
        },
{
}

/// Starting a list of entries spawns, for each pull entry, a task that
/// carries every field of that entry, not started and with no attempt
/// counted: it stands right after the actions of the entries before it.
pub proof fn lemma_plan_spawns_each_pull(cs: Seq<KPConfig>, k: int)
    requires
        0 <= k < cs.len(),
        cs[k] is rtmp_pull,
    ensures
        match cs[k] {
            KPConfig::rtmp_pull { name, source_url, app_name, stream_name, keep_alive, timeout, retry_interval } =>
                plan_spec(cs)[plan_spec(cs.take(k)).len() as int] matches ServerActionView::SpawnPull(t)
                    && t.name == name && t.source_url == source_url && t.app_name == app_name
                    && t.stream_name == stream_name && t.keep_alive == keep_alive && t.timeout == timeout
                    && t.retry_interval == retry_interval && t.phase == PullPhase::Idle && t.retry_count == 0,
            _ => true,
        },
{
    let front = cs.take(k);
    let one = seq![cs[k]];
    let back = cs.skip(k + 1);
    assert(cs =~= front + (one + back));
    lemma_plan_concat(front, one + back);
    lemma_plan_concat(one, back);
    assert(one.drop_last() =~= Seq::<KPConfig>::empty());
    assert(plan_spec(one.drop_last()) =~= Seq::<ServerActionView>::empty());
    assert(one.last() == cs[k]);
    assert(plan_spec(one) == plan_spec(one.drop_last()) + config_actions(one.last()));
    assert(plan_spec(one) =~= config_actions(cs[k]));
    lemma_entry_spawns_its_task(cs[k]);
    let p = plan_spec(cs);
    assert(p == plan_spec(front) + (config_actions(cs[k]) + plan_spec(back)));
    assert(p[plan_spec(front).len() as int] == config_actions(cs[k])[0]);
}

/// A pull task that waits for a player starts its first attempt on a
/// subscription exactly when the subscription names both the application
/// and the stream of its source URL; on any other subscription it keeps
/// waiting, with nothing else done. A source URL that does not read ends
/// the task.
pub proof fn lemma_pull_waits_for_source_stream(t: KPPullTask, app_name: String, stream_name: String)
    requires
        t.phase == PullPhase::AwaitSubscriber,
    ensures
        ({
            let o = pull_step(t, TaskEvent::Hub(KPHubEvent::Subscribe {
                identifier: KPStreamIdentifier::Rtmp { app_name, stream_name },
            }));
            match url_info_of(t.source_url@) {
                Ok(info) => {
                    &&& (o.phase == PullPhase::Pulling) <==> (app_name@ == info.1 && stream_name@ == info.2)
                    &&& o.phase == PullPhase::Pulling ==> o.retry_count == 1
                        && o.actions == seq![TaskActionView::Notify(pull_start_message(t, 1)), TaskActionView::Connect]
                    &&& o.phase != PullPhase::Pulling ==> o.phase == PullPhase::AwaitSubscriber
                        && o.retry_count == t.retry_count && o.actions == seq![TaskActionView::WaitHubEvent]
                },
                Err(_) => o.phase == PullPhase::Finished && o.actions == seq![TaskActionView::Stop],
            }
        }),
{
}

} // verus!
