//! The agent: its life from start to end, who may talk to it, and what it
//! answers to each request.

use crate::config::Configuration;
use crate::protocol::{
    acknowledgement, is_acknowledgement, FailureKind, Request, RequestBody, Response,
    PROTOCOL_VERSION,
};
use crate::pull_request::PullRequest;
use crate::queue::{pushed, without, PullRequestQueue};
use crate::system::{current_uid, current_username, effective_uid};
use vstd::prelude::*;
use vstd::string::StringExecFns;

verus! {

/// How often a spawned agent's socket is looked for before giving up.
pub const SPAWN_ATTEMPTS: u32 = 10;

/// How long to wait before each look, in milliseconds.
pub const SPAWN_WAIT_MS: u64 = 10;

/// How often the scheduler looks whether a run is due, in milliseconds.
pub const SCHEDULER_POLL_MS: u64 = 1000;

/// Where an agent is in its life.
#[derive(Debug, Clone, Copy, PartialEq, Eq)]
pub enum Lifecycle {
    /// Made, not yet listening.
    Initializing,
    /// Accepting connections.
    Serving,
    /// Asked to quit: no connection is accepted after the current one.
    Quitting,
    /// Done; its socket is to be removed.
    Terminated,
}

/// Why an agent cannot be made or spawned.
#[derive(Debug, Clone, Copy, PartialEq, Eq)]
pub enum AgentError {
    /// The socket is there: an agent is running or did not exit cleanly.
    AlreadyRunning,
    /// This process runs as root, or its real and effective users differ.
    UnusualIdentity,
}

/// What to do to have an agent running.
#[derive(Debug, Clone, Copy, PartialEq, Eq)]
pub enum SpawnPlan {
    /// Nothing: one is running.
    AlreadyRunning,
    /// Start one, then wait for its socket.
    Launch,
}

/// What to do after a look for a spawned agent's socket.
#[derive(Debug, Clone, Copy, PartialEq, Eq)]
pub enum SpawnWait {
    /// The socket is there.
    Ready,
    /// Wait and look again.
    Again,
    /// Give up.
    TimedOut,
}

/// Where a connection stands.
#[derive(Debug, Clone, Copy, PartialEq, Eq)]
pub enum Session {
    /// Accepted; its peer is not yet known.
    Unauthenticated,
    /// Its peer is the agent's own user: requests are served.
    Open,
    /// Nothing more is read from it.
    Closed,
}

/// What came from a connection when the next line was read.
#[derive(Debug, PartialEq)]
pub enum Incoming {
    /// Reading failed, for this reason.
    Unreadable(String),
    /// A line that is no request, for this reason.
    Malformed(String),
    /// A request.
    Request(Request),
}

/// The agent's reaction to what came in.
#[derive(Debug, PartialEq)]
pub struct Reply {
    /// What to answer.
    pub response: Response,
    /// Whether to start a processing run now, without waiting for it.
    pub forced_run: bool,
}

/// The socket of the agent that runs for `username`.
pub open spec fn socket_of(username: Seq<char>) -> Seq<char> {
    "/tmp/rusty-merge-agent-"@ + username
}

/// A peer is let in when its user id is known and is the agent's own.
pub open spec fn is_own_peer(peer: Option<u32>, own: u32) -> bool {
    peer == Some(own)
}

/// Where a fresh connection stands once its peer has been looked at.
pub open spec fn received(peer: Option<u32>, own: u32) -> Session {
    if is_own_peer(peer, own) {
        Session::Open
    } else {
        Session::Closed
    }
}

/// A process may spawn an agent unless it runs as root or under a borrowed identity.
pub open spec fn is_usual_identity(uid: u32, euid: u32) -> bool {
    uid != 0 && uid == euid
}

/// What a request does to the queue.
pub open spec fn queue_after(
    before: Seq<PullRequest>,
    body: RequestBody,
    after: Seq<PullRequest>,
) -> bool {
    match body {
        RequestBody::Push(url) => if PullRequest::is_named_by(url@) {
            exists|p: PullRequest| #[trigger] p.names(url@) && after == pushed(before, p)
        } else {
            after == before
        },
        RequestBody::Pop(url) => after == without(before, Some(url@)),
        RequestBody::Clear => after.len() == 0,
        _ => after == before,
    }
}

/// `response` lists the URLs of `q`, oldest first.
pub open spec fn lists(response: Response, q: Seq<PullRequest>) -> bool {
    response matches Response::List(urls) && urls.len() == q.len() && forall|i: int|
        0 <= i < urls.len() ==> Some((#[trigger] urls[i])@) == q[i].key()
}

/// The answer to a request in the agent's version of the protocol: the list
/// for `List`, a plain acknowledgement for every other request.
pub open spec fn answers(response: Response, body: RequestBody, before: Seq<PullRequest>) -> bool {
    match body {
        RequestBody::List => lists(response, before),
        _ => is_acknowledgement(response),
    }
}

/// What the agent does with what came in on a connection.
///
/// On a connection that is not open nothing is served. On an open one, a
/// failed read, a line that is no request, and a request in another version
/// of the protocol are answered with the matching failure and end the
/// session, with the queue untouched. Any other request is served and
/// answered; `Quit` ends the session and makes the agent quit.
pub open spec fn serves(
    session: Session,
    lifecycle: Lifecycle,
    queue: Seq<PullRequest>,
    incoming: Incoming,
    next_session: Session,
    next_lifecycle: Lifecycle,
    next_queue: Seq<PullRequest>,
    reply: Option<Reply>,
) -> bool {
    if session != Session::Open {
        &&& reply is None
        &&& next_session == session
        &&& next_lifecycle == lifecycle
        &&& next_queue == queue
    } else {
        match incoming {
            Incoming::Unreadable(detail) => {
                &&& reply matches Some(r) && r.response == Response::Failure(FailureKind::Io(detail))
                    && !r.forced_run
                &&& next_session == Session::Closed
                &&& next_lifecycle == lifecycle
                &&& next_queue == queue
            },
            Incoming::Malformed(detail) => {
                &&& reply matches Some(r) && r.response == Response::Failure(
                    FailureKind::Malformed(detail),
                ) && !r.forced_run
                &&& next_session == Session::Closed
                &&& next_lifecycle == lifecycle
                &&& next_queue == queue
            },
            Incoming::Request(request) => if request.protocol != PROTOCOL_VERSION {
                &&& reply matches Some(r) && r.response == Response::Failure(
                    FailureKind::VersionMismatch(PROTOCOL_VERSION),
                ) && !r.forced_run
                &&& next_session == Session::Closed
                &&& next_lifecycle == lifecycle
                &&& next_queue == queue
            } else {
                &&& reply matches Some(r) && answers(r.response, request.body, queue)
                    && r.forced_run == (request.body is ForceProcess)
                &&& queue_after(queue, request.body, next_queue)
                &&& next_session == if request.body is Quit {
                    Session::Closed
                } else {
                    Session::Open
                }
                &&& next_lifecycle == if request.body is Quit {
                    Lifecycle::Quitting
                } else {
                    lifecycle
                }
            },
        }
    }
}

/// The socket of the agent that runs for `username`.
pub fn socket_path(username: &str) -> (path: String)
    ensures
        path@ == socket_of(username@),
{
    let mut path = "/tmp/rusty-merge-agent-".to_owned();
    path.append(username);
    path
}

/// What to do to have an agent running, for a process with these user ids.
pub fn spawn_plan(socket_exists: bool, uid: u32, euid: u32) -> (r: Result<SpawnPlan, AgentError>)
    ensures
        r == if socket_exists {
            Ok::<SpawnPlan, AgentError>(SpawnPlan::AlreadyRunning)
        } else if is_usual_identity(uid, euid) {
            Ok::<SpawnPlan, AgentError>(SpawnPlan::Launch)
        } else {
            Err::<SpawnPlan, AgentError>(AgentError::UnusualIdentity)
        },
{
    if socket_exists {
        return Ok(SpawnPlan::AlreadyRunning);
    }
    if uid == 0 || uid != euid {
        return Err(AgentError::UnusualIdentity);
    }
    Ok(SpawnPlan::Launch)
}

/// What to do after look number `looks` (the first is number one) for a
/// spawned agent's socket.
pub fn spawn_wait(looks: u32, socket_exists: bool) -> (w: SpawnWait)
    ensures
        w == if socket_exists {
            SpawnWait::Ready
        } else if looks >= SPAWN_ATTEMPTS {
            SpawnWait::TimedOut
        } else {
            SpawnWait::Again
        },
{
    if socket_exists {
        SpawnWait::Ready
    } else if looks >= SPAWN_ATTEMPTS {
        SpawnWait::TimedOut
    } else {
        SpawnWait::Again
    }
}

/// Looks at the peer of a fresh connection. A peer whose user id is unknown
/// or is not `own` is refused: the connection is closed and `Failure(Auth)`
/// is the answer. On a connection that is not fresh nothing happens.
pub fn receive_peer(session: &mut Session, peer: Option<u32>, own: u32) -> (refusal: Option<Response>)
    ensures
        *final(session) == if *old(session) == Session::Unauthenticated {
            received(peer, own)
        } else {
            *old(session)
        },
        refusal == if *old(session) == Session::Unauthenticated && !is_own_peer(peer, own) {
            Some(Response::Failure(FailureKind::Auth))
        } else {
            None
        },
{
    match *session {
        Session::Unauthenticated => {
            if Agent::auth_client(peer, own) {
                *session = Session::Open;
                None
            } else {
                *session = Session::Closed;
                Some(Response::Failure(FailureKind::Auth))
            }
        },
        _ => None,
    }
}

/// A running agent.
pub struct Agent {
    agent_path: String,
    lifecycle: Lifecycle,
    configuration: Configuration,
}

impl Agent {
    /// The path of the agent's socket.
    pub closed spec fn socket(&self) -> Seq<char> {
        self.agent_path@
    }

    /// Where the agent is in its life.
    pub closed spec fn lifecycle(&self) -> Lifecycle {
        self.lifecycle
    }

    /// The settings that the agent was made with.
    pub closed spec fn configuration(&self) -> Configuration {
        self.configuration
    }

    /// A new agent, not yet listening. Fails exactly where the socket is
    /// there already.
    pub fn new(configuration: Configuration, socket_exists: bool) -> (r: Result<Self, AgentError>)
        ensures
            match r {
                Ok(agent) => {
                    &&& !socket_exists
                    &&& agent.lifecycle() == Lifecycle::Initializing
                    &&& agent.configuration() == configuration
                    &&& exists|name: Seq<char>| agent.socket() == #[trigger] socket_of(name)
                },
                Err(e) => socket_exists && e == AgentError::AlreadyRunning,
            },
    {
        if socket_exists {
            return Err(AgentError::AlreadyRunning);
        }
        let agent_path = Self::path();
        Ok(Self { agent_path, lifecycle: Lifecycle::Initializing, configuration })
    }

    /// The socket of the agent that runs for the user of this process.
    pub fn path() -> (path: String)
        ensures
            exists|name: Seq<char>| path@ == #[trigger] socket_of(name),
    {
        let name = current_username();
        let path = socket_path(name.as_str());
        assert(path@ == socket_of(name@));
        path
    }

    /// The path of this agent's socket.
    pub fn agent_path(&self) -> (path: &String)
        ensures
            path@ == self.socket(),
    {
        &self.agent_path
    }

    /// Where this agent is in its life.
    pub fn state(&self) -> (lifecycle: Lifecycle)
        ensures
            lifecycle == self.lifecycle(),
    {
        self.lifecycle
    }

    /// The settings for a processing run.
    pub fn run_configuration(&self) -> (configuration: Configuration)
        ensures
            configuration == self.configuration(),
    {
        self.configuration.clone()
    }

    /// The socket is bound: the agent serves. Gives the number of minutes
    /// between two scheduled runs.
    pub fn setup_process(&mut self) -> (interval_in_minutes: u32)
        ensures
            interval_in_minutes == old(self).configuration().queue.interval_in_minutes,
            final(self).configuration() == old(self).configuration(),
            final(self).socket() == old(self).socket(),
            final(self).lifecycle() == if old(self).lifecycle() == Lifecycle::Initializing {
                Lifecycle::Serving
            } else {
                old(self).lifecycle()
            },
    {
        match self.lifecycle {
            Lifecycle::Initializing => {
                self.lifecycle = Lifecycle::Serving;
            },
            _ => {},
        }
        self.configuration.queue.interval_in_minutes
    }

    /// What to do to have an agent running, for this process.
    pub fn spawn(socket_exists: bool) -> (r: Result<SpawnPlan, AgentError>)
        ensures
            socket_exists ==> r == Ok::<SpawnPlan, AgentError>(SpawnPlan::AlreadyRunning),
            !socket_exists ==> r == Ok::<SpawnPlan, AgentError>(SpawnPlan::Launch) || r == Err::<
                SpawnPlan,
                AgentError,
            >(AgentError::UnusualIdentity),
    {
        if socket_exists {
            return Ok(SpawnPlan::AlreadyRunning);
        }
        let uid = current_uid();
        let euid = effective_uid();
        spawn_plan(socket_exists, uid, euid)
    }

    /// Whether a peer with this user id, if it is known, is the agent's own user.
    pub fn auth_client(peer: Option<u32>, own: u32) -> (b: bool)
        ensures
            b == is_own_peer(peer, own),
    {
        match peer {
            Some(uid) => uid == own,
            None => false,
        }
    }

    /// Looks at the peer of a fresh connection, against the effective user of
    /// this process. Whoever that is, a fresh connection is open or closed
    /// afterwards, a refusal is `Failure(Auth)` and closes it, and a peer
    /// whose user id is unknown is refused.
    pub fn authenticate(&self, session: &mut Session, peer: Option<u32>) -> (refusal: Option<
        Response,
    >)
        ensures
            *old(session) != Session::Unauthenticated ==> *final(session) == *old(session)
                && refusal is None,
            *old(session) == Session::Unauthenticated ==> {
                ||| *final(session) == Session::Open && refusal is None && peer is Some
                ||| *final(session) == Session::Closed && refusal == Some(
                    Response::Failure(FailureKind::Auth),
                )
            },
    {
        let own = effective_uid();
        receive_peer(session, peer, own)
    }

    /// Reacts to what came in on a connection.
    pub fn handle_client(
        &mut self,
        session: &mut Session,
        queue: &mut PullRequestQueue,
        incoming: Incoming,
    ) -> (reply: Option<Reply>)
        ensures
            final(self).configuration() == old(self).configuration(),
            final(self).socket() == old(self).socket(),
            serves(
                *old(session),
                old(self).lifecycle(),
                old(queue)@,
                incoming,
                *final(session),
                final(self).lifecycle(),
                final(queue)@,
                reply,
            ),
    {
        match *session {
            Session::Open => {},
            _ => {
                return None;
            },
        }
        let request = match incoming {
            Incoming::Unreadable(detail) => {
                *session = Session::Closed;
                return Some(
                    Reply { response: Response::Failure(FailureKind::Io(detail)), forced_run: false },
                );
            },
            Incoming::Malformed(detail) => {
                *session = Session::Closed;
                return Some(
                    Reply {
                        response: Response::Failure(FailureKind::Malformed(detail)),
                        forced_run: false,
                    },
                );
            },
            Incoming::Request(request) => request,
        };
        if request.protocol != PROTOCOL_VERSION {
            *session = Session::Closed;
            return Some(
                Reply {
                    response: Response::Failure(FailureKind::VersionMismatch(PROTOCOL_VERSION)),
                    forced_run: false,
                },
            );
        }
        let mut forced_run = false;
        let response = match request.body {
            RequestBody::Quit => {
                self.lifecycle = Lifecycle::Quitting;
                *session = Session::Closed;
                acknowledgement()
            },
            RequestBody::Push(url) => {
                match PullRequest::new(url) {
                    Ok(pull_request) => {
                        assert(pull_request.names(url@));
                        let _ = queue.push(pull_request);
                    },
                    Err(_) => {},
                }
                acknowledgement()
            },
            RequestBody::Pop(url) => {
                let _ = queue.pop(url.as_str());
                acknowledgement()
            },
            RequestBody::ForceProcess => {
                forced_run = true;
                acknowledgement()
            },
            RequestBody::List => Response::List(queue.list()),
            RequestBody::Clear => {
                queue.clear();
                acknowledgement()
            },
        };
        Some(Reply { response, forced_run })
    }

    /// Whether the agent accepts another connection.
    pub fn accepts(&self) -> (b: bool)
        ensures
            b == (self.lifecycle() == Lifecycle::Serving),
    {
        match self.lifecycle {
            Lifecycle::Serving => true,
            _ => false,
        }
    }

    /// The agent ends. Gives the path of the socket, which is to be removed.
    pub fn terminate(&mut self) -> (path: String)
        ensures
            path@ == old(self).socket(),
            final(self).lifecycle() == Lifecycle::Terminated,
            final(self).socket() == old(self).socket(),
            final(self).configuration() == old(self).configuration(),
    {
        self.lifecycle = Lifecycle::Terminated;
        self.agent_path.clone()
    }
}

/// A peer that is not the agent's own user is never served: its connection
/// is closed at once, and on a closed connection whatever comes in is left
/// unanswered and changes neither the queue nor the agent.
pub proof fn lemma_refused_peer_is_not_served(
    peer: Option<u32>,
    own: u32,
    lifecycle: Lifecycle,
    queue: Seq<PullRequest>,
    incoming: Incoming,
    next_session: Session,
    next_lifecycle: Lifecycle,
    next_queue: Seq<PullRequest>,
    reply: Option<Reply>,
)
    requires
        peer != Some(own),
        serves(
            received(peer, own),
            lifecycle,
            queue,
            incoming,
            next_session,
            next_lifecycle,
            next_queue,
            reply,
        ),
    ensures
        received(peer, own) == Session::Closed,
        reply is None,
        next_session == Session::Closed,
        next_lifecycle == lifecycle,
        next_queue == queue,
{
}

/// After a request in another version of the protocol, a line that is no
/// request, or a failed read, the answer is the matching failure, the queue
/// and the agent are as before, and nothing more is served on that
/// connection.
pub proof fn lemma_failure_ends_session(
    lifecycle: Lifecycle,
    queue: Seq<PullRequest>,
    incoming: Incoming,
    session: Session,
    mid_lifecycle: Lifecycle,
    mid_queue: Seq<PullRequest>,
    reply: Option<Reply>,
    later: Incoming,
    last_session: Session,
    last_lifecycle: Lifecycle,
    last_queue: Seq<PullRequest>,
    later_reply: Option<Reply>,
)
    requires
        incoming matches Incoming::Request(request) ==> request.protocol != PROTOCOL_VERSION,
        serves(Session::Open, lifecycle, queue, incoming, session, mid_lifecycle, mid_queue, reply),
        serves(
            session,
            mid_lifecycle,
            mid_queue,
            later,
            last_session,
            last_lifecycle,
            last_queue,
            later_reply,
        ),
    ensures
        reply matches Some(r) && r.response is Failure && !r.forced_run,
        incoming matches Incoming::Request(_) ==> reply matches Some(r) && r.response
            == Response::Failure(FailureKind::VersionMismatch(PROTOCOL_VERSION)),
        incoming matches Incoming::Malformed(detail) ==> reply matches Some(r) && r.response
            == Response::Failure(FailureKind::Malformed(detail)),
        session == Session::Closed,
        later_reply is None,
        last_session == Session::Closed,
        last_queue == queue,
        last_lifecycle == lifecycle,
{
}

} // verus!
