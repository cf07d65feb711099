//! The decisions of the forwarder, which starts the configured pulls once a
//! player asks for their source stream, and of the pull loops it spawns.
//! Unlike the server's pull tasks, the forwarder reports nothing: a failure
//! while waiting ends the whole start with an error, and its pull loops
//! retry silently.

use vstd::prelude::*;
use crate::kpserver::config::KPConfig;
use crate::kpserver::message::{KPHubEvent, KPStreamIdentifier};
use crate::kpserver::parse_url::{get_url_info, url_info_of, url_info_error_message, url_info_matches, UrlInfoError};
use crate::kpserver::server::{TaskEvent, clone_opt_string};

verus! {

/// Where a forwarding pull loop stands.
#[derive(Debug, Clone, Copy, PartialEq, Eq, Structural)]
pub enum ForwardPullPhase {
    Idle,
    Pulling,
    RetryWait,
    Finished,
}

/// A pull loop of the forwarder: it pulls the source, and pulls it again
/// after the retry interval where one is given.
#[derive(Debug)]
pub struct KPForwardPull {
    pub name: String,
    pub source_url: String,
    pub app_name: Option<String>,
    pub stream_name: Option<String>,
    pub timeout: Option<u64>,
    pub retry_interval: Option<u64>,
    pub phase: ForwardPullPhase,
}

/// What a forwarding pull loop asks its runner to do.
#[derive(Debug, Clone, Copy, PartialEq, Eq, Structural)]
pub enum ForwardPullAction {
    /// Open the pull session.
    Connect,
    /// Sleep this many milliseconds.
    Sleep(u64),
    /// The loop is over.
    Stop,
}

/// What a forwarding pull loop does on an event: it connects when started
/// and after each retry interval; when a session ends it sleeps for the
/// retry interval where one is given and stops otherwise.
pub open spec fn forward_pull_step(t: KPForwardPull, ev: TaskEvent) -> (ForwardPullPhase, Option<ForwardPullAction>) {
    match (t.phase, ev) {
        (ForwardPullPhase::Idle, TaskEvent::Start) => (ForwardPullPhase::Pulling, Some(ForwardPullAction::Connect)),
        (ForwardPullPhase::Pulling, TaskEvent::SessionEnded(_)) => match t.retry_interval {
            Some(d) => (ForwardPullPhase::RetryWait, Some(ForwardPullAction::Sleep(d))),
            None => (ForwardPullPhase::Finished, Some(ForwardPullAction::Stop)),
        },
        (ForwardPullPhase::RetryWait, TaskEvent::RetryElapsed) => (ForwardPullPhase::Pulling, Some(ForwardPullAction::Connect)),
        _ => (t.phase, None),
    }
}

impl KPForwardPull {
    /// Takes one event and returns what to do next, as `forward_pull_step`
    /// says.
    pub fn step(&mut self, ev: TaskEvent) -> (res: Option<ForwardPullAction>)
        ensures
            (final(self).phase, res) == forward_pull_step(*old(self), ev),
            final(self).name == old(self).name,
            final(self).source_url == old(self).source_url,
            final(self).app_name == old(self).app_name,
            final(self).stream_name == old(self).stream_name,
            final(self).timeout == old(self).timeout,
            final(self).retry_interval == old(self).retry_interval,
    {
        match (self.phase, ev) {
            (ForwardPullPhase::Idle, TaskEvent::Start) => {
                self.phase = ForwardPullPhase::Pulling;
                Some(ForwardPullAction::Connect)
            },
            (ForwardPullPhase::Pulling, TaskEvent::SessionEnded(_)) => match self.retry_interval {
                Some(d) => {
                    self.phase = ForwardPullPhase::RetryWait;
                    Some(ForwardPullAction::Sleep(d))
                },
                None => {
                    self.phase = ForwardPullPhase::Finished;
                    Some(ForwardPullAction::Stop)
                },
            },
            (ForwardPullPhase::RetryWait, TaskEvent::RetryElapsed) => {
                self.phase = ForwardPullPhase::Pulling;
                Some(ForwardPullAction::Connect)
            },
            _ => None,
        }
    }
}

/// The forwarding pull loop of a configuration entry; `None` for entries
/// that are not pulls.
pub open spec fn forward_pull_of(c: KPConfig) -> Option<KPForwardPull> {
    match c {
        KPConfig::rtmp_pull { name, source_url, app_name, stream_name, keep_alive, timeout, retry_interval } =>
            Some(KPForwardPull { name, source_url, app_name, stream_name, timeout, retry_interval, phase: ForwardPullPhase::Idle }),
        _ => None,
    }
}

/// What starting the forwarder asks its runner to do, in order.
#[derive(Debug)]
pub enum ForwardAction {
    /// Wait for the next event of the hub.
    WaitHubEvent,
    /// Spawn a pull loop.
    SpawnPull(KPForwardPull),
    /// The start is over, with the error that ended it where one did.
    Done(Result<(), String>),
}

pub enum ForwardActionView {
    WaitHubEvent,
    SpawnPull(KPForwardPull),
    Done(Result<(), Seq<char>>),
}

impl View for ForwardAction {
    type V = ForwardActionView;

    open spec fn view(&self) -> ForwardActionView {
        match self {
            ForwardAction::WaitHubEvent => ForwardActionView::WaitHubEvent,
            ForwardAction::SpawnPull(p) => ForwardActionView::SpawnPull(*p),
            ForwardAction::Done(r) => ForwardActionView::Done(match r { Ok(_) => Ok(()), Err(e) => Err(e@) }),
        }
    }
}

/// The views of a sequence of forwarder actions.
pub open spec fn forward_actions_view(v: Seq<ForwardAction>) -> Seq<ForwardActionView> {
    v.map_values(|a: ForwardAction| a@)
}

/// The forwarder: the configuration it starts, the index of the next entry
/// to look at, and whether it waits for a player of that entry's source.
#[derive(Debug)]
pub struct KPForward {
    pub configs: Vec<KPConfig>,
    pub next: usize,
    pub waiting: bool,
    pub done: bool,
}

/// Where the forwarder stands after going through the entries from `i` on,
/// and the actions on the way: entries that are not pulls are passed over,
/// pulls kept alive get their loop at once, and the first other pull makes
/// the forwarder wait for a player of its source; past the last entry the
/// start is over.
pub open spec fn forward_advance(cs: Seq<KPConfig>, i: int) -> (int, bool, bool, Seq<ForwardActionView>)
    decreases cs.len() - i,
{
    if i < 0 || i >= cs.len() {
        (cs.len() as int, false, true, seq![ForwardActionView::Done(Ok(()))])
    } else {
        match cs[i] {
            KPConfig::rtmp_pull { keep_alive, .. } => if keep_alive {
                let rest = forward_advance(cs, i + 1);
                (rest.0, rest.1, rest.2, seq![ForwardActionView::SpawnPull(forward_pull_of(cs[i])->0)] + rest.3)
            } else {
                (i, true, false, seq![ForwardActionView::WaitHubEvent])
            },
            _ => forward_advance(cs, i + 1),
        }
    }
}

/// The forwarder's next index, waiting flag, done flag and actions after an
/// event.
///
/// Started, it goes through the entries. While it waits for a player of a
/// pull's source, a request for the RTMP stream named by the source URL
/// spawns the pull's loop and goes on with the next entries; other events
/// keep it waiting; an unreadable source URL, or a failure to receive from
/// the hub, ends the start with that error.
pub open spec fn forward_step(f: KPForward, ev: TaskEvent) -> (int, bool, bool, Seq<ForwardActionView>) {
    let cs = f.configs@;
    if f.done {
        (f.next as int, f.waiting, f.done, seq![])
    } else if !f.waiting {
        match ev {
            TaskEvent::Start => forward_advance(cs, f.next as int),
            _ => (f.next as int, f.waiting, f.done, seq![]),
        }
    } else {
        match ev {
            TaskEvent::Hub(KPHubEvent::Subscribe { identifier: KPStreamIdentifier::Rtmp { app_name, stream_name } }) =>
                match url_info_of(cs[f.next as int]->rtmp_pull_source_url@) {
                    Err(e) => (f.next as int, false, true, seq![ForwardActionView::Done(Err(url_info_error_message(e)))]),
                    Ok(t) => if t.1 == app_name@ && t.2 == stream_name@ {
                        let rest = forward_advance(cs, f.next + 1);
                        (rest.0, rest.1, rest.2, seq![ForwardActionView::SpawnPull(forward_pull_of(cs[f.next as int])->0)] + rest.3)
                    } else {
                        (f.next as int, true, false, seq![ForwardActionView::WaitHubEvent])
                    },
                },
            TaskEvent::Hub(_) => (f.next as int, true, false, seq![ForwardActionView::WaitHubEvent]),
            TaskEvent::HubClosed(err) => (f.next as int, false, true, seq![ForwardActionView::Done(Err(err@))]),
            _ => (f.next as int, f.waiting, f.done, seq![]),
        }
    }
}

/// Whether the forwarder's state is consistent: the next index is within
/// the entries, it waits only on a pull entry, and it never both waits and
/// is done.
pub open spec fn forward_wf(f: KPForward) -> bool {
    &&& f.next <= f.configs@.len()
    &&& f.waiting ==> f.next < f.configs@.len() && f.configs@[f.next as int] is rtmp_pull
    &&& !(f.waiting && f.done)
}

/// The forwarding pull loop of a pull entry, copied.
fn forward_pull_from(c: &KPConfig) -> (res: KPForwardPull)
    requires
        c is rtmp_pull,
    ensures
        Some(res) == forward_pull_of(*c),
{
    match c {
        KPConfig::rtmp_pull { name, source_url, app_name, stream_name, keep_alive, timeout, retry_interval } =>
            KPForwardPull {
                name: name.clone(),
                source_url: source_url.clone(),
                app_name: clone_opt_string(app_name),
                stream_name: clone_opt_string(stream_name),
                timeout: *timeout,
                retry_interval: *retry_interval,
                phase: ForwardPullPhase::Idle,
            },
        _ => {
            proof { assert(false); }
            KPForwardPull {
                name: String::new(),
                source_url: String::new(),
                app_name: None,
                stream_name: None,
                timeout: None,
                retry_interval: None,
                phase: ForwardPullPhase::Idle,
            }
        },
    }
}

impl KPForward {
    /// A forwarder for the entries, not started yet.
    pub fn new(configs: Vec<KPConfig>) -> (res: KPForward)
        ensures
            res.configs == configs,
            res.next == 0,
            !res.waiting,
            !res.done,
            forward_wf(res),
    {
        KPForward { configs, next: 0, waiting: false, done: false }
    }

    /// Goes through the entries from the next one on, as `forward_advance`
    /// says.
    fn advance(&mut self) -> (res: Vec<ForwardAction>)
        requires
            forward_wf(*old(self)),
            !old(self).waiting,
            !old(self).done,
        ensures
            final(self).configs == old(self).configs,
            (final(self).next as int, final(self).waiting, final(self).done, forward_actions_view(res@))
                == forward_advance(old(self).configs@, old(self).next as int),
            forward_wf(*final(self)),
    {
        let ghost cs = self.configs@;
        let ghost c0 = self.configs;
        let ghost start = self.next as int;
        let mut res: Vec<ForwardAction> = Vec::new();
        proof { assert(forward_actions_view(res@) =~= seq![]); }
        while self.next < self.configs.len()
            invariant
                self.configs == c0,
                c0 == old(self).configs,
                start == old(self).next,
                c0@ == cs,
                self.next <= cs.len(),
                !self.waiting,
                !self.done,
                ({
                    let a = forward_advance(cs, start);
                    let b = forward_advance(cs, self.next as int);
                    a.0 == b.0 && a.1 == b.1 && a.2 == b.2 && a.3 == forward_actions_view(res@) + b.3
                }),
            decreases cs.len() - self.next,
        {
            let i = self.next;
            let ghost before = res@;
            let is_pull = match &self.configs[i] { KPConfig::rtmp_pull { .. } => true, _ => false };
            if is_pull {
                let keep = match &self.configs[i] { KPConfig::rtmp_pull { keep_alive, .. } => *keep_alive, _ => false };
                if keep {
                    let p = forward_pull_from(&self.configs[i]);
                    res.push(ForwardAction::SpawnPull(p));
                    self.next = i + 1;
                    proof {
                        assert(forward_actions_view(res@) =~= forward_actions_view(before).push(ForwardActionView::SpawnPull(p)));
                        let b = forward_advance(cs, (i + 1) as int);
                        assert(forward_advance(cs, i as int).3 == seq![ForwardActionView::SpawnPull(p)] + b.3);
                        assert(forward_actions_view(before) + (seq![ForwardActionView::SpawnPull(p)] + b.3)
                            =~= forward_actions_view(res@) + b.3);
                    }
                } else {
                    self.waiting = true;
                    res.push(ForwardAction::WaitHubEvent);
                    proof {
                        assert(forward_actions_view(res@) =~= forward_actions_view(before).push(ForwardActionView::WaitHubEvent));
                        assert(forward_actions_view(before) + seq![ForwardActionView::WaitHubEvent] =~= forward_actions_view(res@));
                    }
                    return res;
                }
            } else {
                self.next = i + 1;
            }
        }
        self.done = true;
        let ghost before = res@;
        res.push(ForwardAction::Done(Ok(())));
        proof {
            assert(forward_actions_view(res@) =~= forward_actions_view(before) + seq![ForwardActionView::Done(Ok(()))]);
        }
        res
    }

    /// The connection details of a pull's source URL, as `get_url_info`
    /// gives them.
    pub fn get_source_url_info(source_url: &String) -> (res: Result<(String, String, String), UrlInfoError>)
        ensures
            url_info_matches(res, url_info_of(source_url@)),
    {
        get_url_info(source_url)
    }

    /// Starts the forwarder: what `forward_step` says of the start event.
    pub fn initialize(&mut self) -> (res: Vec<ForwardAction>)
        requires
            forward_wf(*old(self)),
        ensures
            final(self).configs == old(self).configs,
            (final(self).next as int, final(self).waiting, final(self).done, forward_actions_view(res@))
                == forward_step(*old(self), TaskEvent::Start),
            forward_wf(*final(self)),
    {
        self.step(TaskEvent::Start)
    }

    /// Takes one event and returns what to do next, as `forward_step` says.
    pub fn step(&mut self, ev: TaskEvent) -> (res: Vec<ForwardAction>)
        requires
            forward_wf(*old(self)),
        ensures
            final(self).configs == old(self).configs,
            (final(self).next as int, final(self).waiting, final(self).done, forward_actions_view(res@))
                == forward_step(*old(self), ev),
            forward_wf(*final(self)),
    {
        let ghost f0 = *self;
        let empty: Vec<ForwardAction> = Vec::new();
        proof { assert(forward_actions_view(empty@) =~= seq![]); }
        if self.done {
            return empty;
        }
        if !self.waiting {
            return match ev {
                TaskEvent::Start => self.advance(),
                _ => empty,
            };
        }
        match ev {
            TaskEvent::Hub(KPHubEvent::Subscribe { identifier: KPStreamIdentifier::Rtmp { app_name, stream_name } }) => {
                let i = self.next;
                assert(i < self.configs.len());
                let url = match &self.configs[i] {
                    KPConfig::rtmp_pull { source_url, .. } => source_url.clone(),
                    _ => { return empty; },
                };
                match get_url_info(&url) {
                    Err(e) => {
                        self.waiting = false;
                        self.done = true;
                        let res = vec![ForwardAction::Done(Err(e.message()))];
                        assert(forward_actions_view(res@) =~= forward_step(f0, ev).3);
                        res
                    },
                    Ok(info) => {
                        if info.1 == app_name && info.2 == stream_name {
                            let p = forward_pull_from(&self.configs[i]);
                            self.waiting = false;
                            self.next = i + 1;
                            let mut rest = self.advance();
                            let mut res = vec![ForwardAction::SpawnPull(p)];
                            let ghost rv = rest@;
                            res.append(&mut rest);
                            proof {
                                assert(forward_actions_view(res@) =~= seq![ForwardActionView::SpawnPull(p)] + forward_actions_view(rv));
                            }
                            res
                        } else {
                            let res = vec![ForwardAction::WaitHubEvent];
                            assert(forward_actions_view(res@) =~= forward_step(f0, ev).3);
                            res
                        }
                    },
                }
            },
            TaskEvent::Hub(_) => {
                let res = vec![ForwardAction::WaitHubEvent];
                assert(forward_actions_view(res@) =~= forward_step(f0, ev).3);
                res
            },
            TaskEvent::HubClosed(err) => {
                self.waiting = false;
                self.done = true;
                let res = vec![ForwardAction::Done(Err(err))];
                assert(forward_actions_view(res@) =~= forward_step(f0, ev).3);
                res
            },
            _ => empty,
        }
    }
}

/// A forwarder ends its start exactly once: once done it stays done and
/// asks for nothing more, and whenever a step ends the start, the last
/// action it asks for reports how the start ended.
pub proof fn lemma_forward_done_once(f: KPForward, ev: TaskEvent)
    requires
        forward_wf(f),
    ensures
        f.done ==> forward_step(f, ev).2 && forward_step(f, ev).3.len() == 0,
        (!f.done && forward_step(f, ev).2) ==> forward_step(f, ev).3.last() is Done,
{
    if !f.done && forward_step(f, ev).2 {
        if !f.waiting {
            lemma_forward_advance_ends(f.configs@, f.next as int);
        } else {
            lemma_forward_advance_ends(f.configs@, f.next + 1);
        }
    }
}

/// Going through the entries either stops at a pull that waits for a
/// player, asking last to wait on the hub, or ends the start, asking last to
/// report it.
pub proof fn lemma_forward_advance_ends(cs: Seq<KPConfig>, i: int)
    ensures
        forward_advance(cs, i).3.len() > 0,
        forward_advance(cs, i).2 ==> forward_advance(cs, i).3.last() == ForwardActionView::Done(Ok(())),
        !forward_advance(cs, i).2 ==> forward_advance(cs, i).1 && forward_advance(cs, i).3.last() == ForwardActionView::WaitHubEvent,
    decreases cs.len() - i,
{
    if i >= 0 && i < cs.len() {
        lemma_forward_advance_ends(cs, i + 1);
    }
}

} // verus!
