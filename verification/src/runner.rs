//! The rules of a processing run: which action a pull request's remote status
//! calls for, what the action asks of the remote, how it is announced, and
//! which pull requests leave the queue afterwards.

use crate::config::{clone_text, Configuration, Notification};
use crate::pull_request::PullRequest;
use crate::queue::{is_queue, without_all, PullRequestQueue};
use vstd::prelude::*;

verus! {

/// How long an announcement stays on the screen, in milliseconds.
pub const NOTICE_TIMEOUT_MS: u32 = 6000;

/// What a processing run does with one pull request.
#[derive(Debug, Clone, Copy, PartialEq, Eq)]
pub enum Action {
    /// Leave it queued and untouched.
    NoOp,
    /// Take it from the queue; nothing is asked of the remote.
    Drop,
    /// Bring its branch up to date; it stays queued.
    Update,
    /// Merge it, then take it from the queue.
    Merge,
}

/// Whether the remote holds a pull request open.
#[derive(Debug, Clone, Copy, PartialEq, Eq)]
pub enum IssueState {
    Open,
    Closed,
}

/// What the remote says of merging a pull request.
#[derive(Debug, Clone, Copy, PartialEq, Eq)]
pub enum MergeableState {
    /// The head is out of date.
    Behind,
    Blocked,
    /// Mergeable, and the checks have passed.
    Clean,
    Dirty,
    Draft,
    HasHooks,
    Unknown,
    Unstable,
}

/// What the remote reports of a pull request. Each part may be missing.
#[derive(Debug, Clone, Copy, PartialEq, Eq)]
pub struct RemoteStatus {
    pub state: Option<IssueState>,
    pub mergeable: Option<bool>,
    pub mergeable_state: Option<MergeableState>,
}

/// What an action asks of the remote.
#[derive(Debug, PartialEq)]
pub enum RemoteCall {
    /// Nothing.
    Nothing,
    /// Update the pull request's branch.
    UpdateBranch,
    /// Merge the pull request by squashing, with this title and message where given.
    SquashMerge { title: Option<String>, message: Option<String> },
}

/// An announcement to show.
#[derive(Debug, PartialEq)]
pub struct Notice {
    pub summary: String,
    pub body: String,
    pub icon: Option<String>,
    pub timeout_ms: u32,
}

/// Where a processing run stands.
#[derive(Debug, Clone, Copy, PartialEq, Eq)]
pub enum Phase {
    /// No snapshot has been taken yet.
    Idle,
    /// The remote has been asked for the status of the current pull request.
    AwaitingStatus,
    /// The remote has been asked to carry out this action on the current pull request.
    AwaitingCall(Action),
    /// Every pull request of the snapshot has been dealt with.
    Finished,
    /// The remote failed: the rest of the snapshot stays as it is.
    Aborted,
}

/// What a run needs next.
#[derive(Debug, PartialEq)]
pub enum Next {
    /// The remote status of this pull request.
    Query(PullRequest),
    /// This call on this pull request.
    Call(PullRequest, RemoteCall),
    /// Nothing: the run is complete.
    Finished,
    /// Nothing: the run has failed.
    Aborted,
}

/// One step of a run: what to announce now, and what the run needs next.
#[derive(Debug, PartialEq)]
pub struct Step {
    pub notice: Option<Notice>,
    pub next: Next,
}

/// Why a run cannot start.
#[derive(Debug, Clone, Copy, PartialEq, Eq)]
pub enum RunnerError {
    /// The credential for the remote is missing.
    MissingToken,
}

/// The pull request is closed.
pub open spec fn is_closed(status: RemoteStatus) -> bool {
    status.state == Some(IssueState::Closed)
}

/// The pull request's branch is behind its target.
pub open spec fn is_behind(status: RemoteStatus) -> bool {
    status.mergeable_state == Some(MergeableState::Behind)
}

/// The pull request is known to be mergeable and its checks have passed. A
/// missing `mergeable` counts as not mergeable.
pub open spec fn is_ready(status: RemoteStatus) -> bool {
    status.mergeable == Some(true) && status.mergeable_state == Some(MergeableState::Clean)
}

/// The action that a status calls for: the first that applies of drop for a
/// closed pull request, update for one that is behind, merge for one that is
/// ready; else none.
pub open spec fn action_for(status: RemoteStatus) -> Action {
    if is_closed(status) {
        Action::Drop
    } else if is_behind(status) {
        Action::Update
    } else if is_ready(status) {
        Action::Merge
    } else {
        Action::NoOp
    }
}

/// After `action`, the pull request leaves the queue.
pub open spec fn leaves_queue(action: Action) -> bool {
    action == Action::Drop || action == Action::Merge
}

/// The message of an announcement that has none of its own.
pub open spec fn default_message(action: Action) -> Seq<char> {
    match action {
        Action::NoOp => "Notification for NoOp"@,
        Action::Drop => "Notification for Drop"@,
        Action::Update => "Notification for Update"@,
        Action::Merge => "Notification for Merge"@,
    }
}

/// How `action` is announced under `configuration`, if it has a setting.
pub open spec fn setting_for(configuration: Configuration, action: Action) -> Option<
    Notification,
> {
    match action {
        Action::NoOp => None,
        Action::Merge => configuration.notifier.merge,
        Action::Update => configuration.notifier.update,
        Action::Drop => configuration.notifier.pop,
    }
}

/// `notice` is what `setting` says of `action`.
pub open spec fn announces(notice: Notice, setting: Notification, action: Action) -> bool {
    &&& notice.summary@ == setting.title@
    &&& notice.body@ == match setting.message {
        Some(m) => m@,
        None => default_message(action),
    }
    &&& notice.icon == setting.icon
    &&& notice.timeout_ms == NOTICE_TIMEOUT_MS
}

/// `notice` is how `action` is announced under `configuration`: nothing for
/// an action without a setting or with a disabled one, else what the setting says.
pub open spec fn announced(configuration: Configuration, action: Action, notice: Option<Notice>) -> bool {
    match setting_for(configuration, action) {
        Some(setting) => if setting.enabled {
            notice matches Some(n) && announces(n, setting, action)
        } else {
            notice is None
        },
        None => notice is None,
    }
}

/// What `action` asks of the remote under `configuration`: an update of the
/// branch, a squash merge under the configured title and message, or nothing.
pub open spec fn call_for(configuration: Configuration, action: Action) -> RemoteCall {
    match action {
        Action::Update => RemoteCall::UpdateBranch,
        Action::Merge => RemoteCall::SquashMerge {
            title: configuration.merger.title,
            message: configuration.merger.message,
        },
        _ => RemoteCall::Nothing,
    }
}

/// The pull requests marked for removal once `action` has been carried out
/// on `pull_request`.
pub open spec fn marked_after(
    marked: Seq<PullRequest>,
    action: Action,
    pull_request: PullRequest,
) -> Seq<PullRequest> {
    if leaves_queue(action) {
        marked.push(pull_request)
    } else {
        marked
    }
}

/// What a run does once `done` pull requests of its snapshot are dealt with.
pub open spec fn next_after(snapshot: Seq<PullRequest>, done: int) -> Next {
    if 0 <= done < snapshot.len() {
        Next::Query(snapshot[done])
    } else {
        Next::Finished
    }
}

/// Where a run stands once `done` pull requests of its snapshot are dealt with.
pub open spec fn phase_after(snapshot: Seq<PullRequest>, done: int) -> Phase {
    if 0 <= done < snapshot.len() {
        Phase::AwaitingStatus
    } else {
        Phase::Finished
    }
}

/// Whether a pull request with this status is dropped.
pub fn should_pop(status: &RemoteStatus) -> (b: bool)
    ensures
        b == is_closed(*status),
{
    match status.state {
        Some(IssueState::Closed) => true,
        _ => false,
    }
}

/// Whether a pull request with this status is updated, if it is not dropped.
pub fn should_update(status: &RemoteStatus) -> (b: bool)
    ensures
        b == is_behind(*status),
{
    match status.mergeable_state {
        Some(MergeableState::Behind) => true,
        _ => false,
    }
}

/// Whether a pull request with this status is merged, if it is neither
/// dropped nor updated.
pub fn should_merge(status: &RemoteStatus) -> (b: bool)
    ensures
        b == is_ready(*status),
{
    match status.mergeable {
        Some(true) => match status.mergeable_state {
            Some(MergeableState::Clean) => true,
            _ => false,
        },
        _ => false,
    }
}

/// The action that `status` calls for.
pub fn detect_action(status: &RemoteStatus) -> (action: Action)
    ensures
        action == action_for(*status),
{
    if should_pop(status) {
        return Action::Drop;
    }
    if should_update(status) {
        return Action::Update;
    }
    if should_merge(status) {
        return Action::Merge;
    }
    Action::NoOp
}

/// Closed goes before behind, behind before ready, and only a pull request
/// that is known to be mergeable is merged.
pub proof fn lemma_decision_precedence(status: RemoteStatus)
    ensures
        is_closed(status) ==> action_for(status) == Action::Drop,
        !is_closed(status) && is_behind(status) ==> action_for(status) == Action::Update,
        !is_closed(status) && status.mergeable == Some(true) && status.mergeable_state == Some(
            MergeableState::Clean,
        ) ==> action_for(status) == Action::Merge,
        !is_closed(status) && status.mergeable != Some(true) && status.mergeable_state == Some(
            MergeableState::Clean,
        ) ==> action_for(status) == Action::NoOp,
{
}

fn message_text(action: Action) -> (text: String)
    ensures
        text@ == default_message(action),
{
    match action {
        Action::NoOp => "Notification for NoOp".to_owned(),
        Action::Drop => "Notification for Drop".to_owned(),
        Action::Update => "Notification for Update".to_owned(),
        Action::Merge => "Notification for Merge".to_owned(),
    }
}

/// One processing run: the settings it works under, and the pull requests
/// that it has marked for removal so far.
pub struct Runner {
    configuration: Configuration,
    requests_to_remove: Vec<PullRequest>,
    snapshot: Vec<PullRequest>,
    cursor: usize,
    phase: Phase,
}

impl Runner {
    /// The settings of this run.
    pub closed spec fn configuration(&self) -> Configuration {
        self.configuration
    }

    /// The pull requests marked for removal, in the order they were marked.
    pub closed spec fn marked(&self) -> Seq<PullRequest> {
        self.requests_to_remove@
    }

    /// The pull requests that this run works through.
    pub closed spec fn snapshot(&self) -> Seq<PullRequest> {
        self.snapshot@
    }

    /// How many pull requests of the snapshot have been dealt with.
    pub closed spec fn cursor(&self) -> int {
        self.cursor as int
    }

    /// Where the run stands.
    pub closed spec fn phase(&self) -> Phase {
        self.phase
    }

    /// The pull request that the run is at, if it is not through its snapshot.
    pub open spec fn current(&self) -> Option<PullRequest> {
        if 0 <= self.cursor() < self.snapshot().len() {
            Some(self.snapshot()[self.cursor()])
        } else {
            None
        }
    }

    /// A run under `configuration` with nothing marked. It cannot start
    /// without the credential for the remote.
    pub fn new(configuration: Configuration, has_token: bool) -> (r: Result<Self, RunnerError>)
        ensures
            match r {
                Ok(runner) => {
                    &&& has_token
                    &&& runner.configuration() == configuration
                    &&& runner.marked().len() == 0
                    &&& runner.snapshot().len() == 0
                    &&& runner.phase() == Phase::Idle
                },
                Err(e) => !has_token && e == RunnerError::MissingToken,
            },
    {
        if has_token {
            Ok(
                Self {
                    configuration,
                    requests_to_remove: Vec::new(),
                    snapshot: Vec::new(),
                    cursor: 0,
                    phase: Phase::Idle,
                },
            )
        } else {
            Err(RunnerError::MissingToken)
        }
    }

    /// What `action` asks of the remote: an update of the branch, a squash
    /// merge under the configured title and message, or nothing.
    pub fn remote_call(&self, action: Action) -> (call: RemoteCall)
        ensures
            call == call_for(self.configuration(), action),
    {
        match action {
            Action::Update => RemoteCall::UpdateBranch,
            Action::Merge => RemoteCall::SquashMerge {
                title: clone_text(&self.configuration.merger.title),
                message: clone_text(&self.configuration.merger.message),
            },
            _ => RemoteCall::Nothing,
        }
    }

    /// The announcement of `action`: none for an action without a setting or
    /// with a disabled one; else the setting's title, its message or the
    /// standard one, and its icon.
    pub fn dispatch_message(&self, action: Action, pull_request: &PullRequest) -> (notice: Option<
        Notice,
    >)
        ensures
            announced(self.configuration(), action, notice),
    {
        let option: &Option<Notification> = match action {
            Action::NoOp => {
                return None;
            },
            Action::Merge => &self.configuration.notifier.merge,
            Action::Update => &self.configuration.notifier.update,
            Action::Drop => &self.configuration.notifier.pop,
        };
        match option {
            Some(notification) => {
                if !notification.enabled {
                    return None;
                }
                let body = match &notification.message {
                    Some(m) => m.clone(),
                    None => message_text(action),
                };
                Some(
                    Notice {
                        summary: notification.title.clone(),
                        body,
                        icon: clone_text(&notification.icon),
                        timeout_ms: NOTICE_TIMEOUT_MS,
                    },
                )
            },
            None => None,
        }
    }

    /// Closes the work on one pull request, once the remote has done what
    /// `action` asked of it: marks the pull request for removal if it was
    /// dropped or merged, and gives the announcement to show.
    pub fn settle(&mut self, action: Action, pull_request: &PullRequest) -> (notice: Option<Notice>)
        ensures
            final(self).configuration() == old(self).configuration(),
            final(self).snapshot() == old(self).snapshot(),
            final(self).cursor() == old(self).cursor(),
            final(self).phase() == old(self).phase(),
            final(self).marked() == marked_after(old(self).marked(), action, *pull_request),
            announced(old(self).configuration(), action, notice),
    {
        let notice = self.dispatch_message(action, pull_request);
        match action {
            Action::Drop | Action::Merge => {
                self.requests_to_remove.push(pull_request.clone());
            },
            _ => {},
        }
        notice
    }

    /// Moves on to the pull request after the current one.
    fn advance(&mut self, notice: Option<Notice>) -> (step: Step)
        requires
            old(self).cursor() < old(self).snapshot().len(),
        ensures
            final(self).configuration() == old(self).configuration(),
            final(self).snapshot() == old(self).snapshot(),
            final(self).marked() == old(self).marked(),
            final(self).cursor() == old(self).cursor() + 1,
            final(self).phase() == phase_after(old(self).snapshot(), old(self).cursor() + 1),
            step.notice == notice,
            step.next == next_after(old(self).snapshot(), old(self).cursor() + 1),
    {
        assert(self.cursor < self.snapshot.len());
        self.cursor = self.cursor + 1;
        if self.cursor < self.snapshot.len() {
            self.phase = Phase::AwaitingStatus;
            Step { notice, next: Next::Query(self.snapshot[self.cursor].clone()) }
        } else {
            self.phase = Phase::Finished;
            Step { notice, next: Next::Finished }
        }
    }

    /// Gives the run up.
    fn abort(&mut self) -> (step: Step)
        ensures
            final(self).configuration() == old(self).configuration(),
            final(self).snapshot() == old(self).snapshot(),
            final(self).marked() == old(self).marked(),
            final(self).cursor() == old(self).cursor(),
            final(self).phase() == Phase::Aborted,
            step.notice is None,
            step.next == Next::Aborted,
    {
        self.phase = Phase::Aborted;
        Step { notice: None, next: Next::Aborted }
    }

    /// Starts the run on a snapshot of the queue: the first pull request is
    /// to be queried, or, with an empty snapshot, the run is complete.
    pub fn process(&mut self, pull_requests: Vec<PullRequest>) -> (step: Step)
        ensures
            final(self).configuration() == old(self).configuration(),
            final(self).marked() == old(self).marked(),
            final(self).snapshot() == pull_requests@,
            final(self).cursor() == 0,
            final(self).phase() == phase_after(pull_requests@, 0),
            step.notice is None,
            step.next == next_after(pull_requests@, 0),
    {
        self.snapshot = pull_requests;
        self.cursor = 0;
        if self.snapshot.len() > 0 {
            self.phase = Phase::AwaitingStatus;
            Step { notice: None, next: Next::Query(self.snapshot[0].clone()) }
        } else {
            self.phase = Phase::Finished;
            Step { notice: None, next: Next::Finished }
        }
    }

    /// Takes the remote's answer to a query; `None` says that the query
    /// failed.
    ///
    /// A failed query, or an answer that the run did not wait for, aborts the
    /// run. Else the status decides the action on the current pull request.
    /// An update or a merge is asked of the remote, and the run waits for it.
    /// A drop marks the pull request for removal and is announced; then, as
    /// when there is nothing to do, the run moves on.
    pub fn status_received(&mut self, status: Option<RemoteStatus>) -> (step: Step)
        ensures
            final(self).configuration() == old(self).configuration(),
            final(self).snapshot() == old(self).snapshot(),
            match (old(self).phase(), status, old(self).current()) {
                (Phase::AwaitingStatus, Some(s), Some(current)) => {
                    let action = action_for(s);
                    if action == Action::Update || action == Action::Merge {
                        &&& step.notice is None
                        &&& step.next == Next::Call(
                            current,
                            call_for(old(self).configuration(), action),
                        )
                        &&& final(self).phase() == Phase::AwaitingCall(action)
                        &&& final(self).cursor() == old(self).cursor()
                        &&& final(self).marked() == old(self).marked()
                    } else {
                        &&& announced(old(self).configuration(), action, step.notice)
                        &&& step.next == next_after(old(self).snapshot(), old(self).cursor() + 1)
                        &&& final(self).phase() == phase_after(
                            old(self).snapshot(),
                            old(self).cursor() + 1,
                        )
                        &&& final(self).cursor() == old(self).cursor() + 1
                        &&& final(self).marked() == marked_after(old(self).marked(), action, current)
                    }
                },
                _ => {
                    &&& step.notice is None
                    &&& step.next == Next::Aborted
                    &&& final(self).phase() == Phase::Aborted
                    &&& final(self).cursor() == old(self).cursor()
                    &&& final(self).marked() == old(self).marked()
                },
            },
    {
        let status = match (self.phase, status) {
            (Phase::AwaitingStatus, Some(s)) => s,
            _ => {
                return self.abort();
            },
        };
        if self.cursor >= self.snapshot.len() {
            return self.abort();
        }
        let action = detect_action(&status);
        let current = self.snapshot[self.cursor].clone();
        match action {
            Action::Update | Action::Merge => {
                self.phase = Phase::AwaitingCall(action);
                Step { notice: None, next: Next::Call(current, self.remote_call(action)) }
            },
            _ => {
                let notice = self.settle(action, &current);
                self.advance(notice)
            },
        }
    }

    /// Takes the remote's word on the call that the run waits for.
    ///
    /// A failed call, or word of a call that the run did not wait for, aborts
    /// the run: the current pull request is neither marked nor announced.
    /// After a call that succeeded the action is announced, a merged pull
    /// request is marked for removal, and the run moves on.
    pub fn call_finished(&mut self, succeeded: bool) -> (step: Step)
        ensures
            final(self).configuration() == old(self).configuration(),
            final(self).snapshot() == old(self).snapshot(),
            match (old(self).phase(), old(self).current(), succeeded) {
                (Phase::AwaitingCall(action), Some(current), true) => {
                    &&& announced(old(self).configuration(), action, step.notice)
                    &&& step.next == next_after(old(self).snapshot(), old(self).cursor() + 1)
                    &&& final(self).phase() == phase_after(
                        old(self).snapshot(),
                        old(self).cursor() + 1,
                    )
                    &&& final(self).cursor() == old(self).cursor() + 1
                    &&& final(self).marked() == marked_after(old(self).marked(), action, current)
                },
                _ => {
                    &&& step.notice is None
                    &&& step.next == Next::Aborted
                    &&& final(self).phase() == Phase::Aborted
                    &&& final(self).cursor() == old(self).cursor()
                    &&& final(self).marked() == old(self).marked()
                },
            },
    {
        let action = match self.phase {
            Phase::AwaitingCall(action) => action,
            _ => {
                return self.abort();
            },
        };
        if !succeeded || self.cursor >= self.snapshot.len() {
            return self.abort();
        }
        let current = self.snapshot[self.cursor].clone();
        let notice = self.settle(action, &current);
        self.advance(notice)
    }

    /// Takes from `queue` every pull request that this run has marked. One
    /// that has left the queue in the meantime is passed over.
    pub fn cleanup(&self, queue: &mut PullRequestQueue)
        ensures
            final(queue)@ == without_all(old(queue)@, self.marked()),
            is_queue(final(queue)@),
    {
        queue.remove_processed(&self.requests_to_remove);
    }
}

} // verus!
