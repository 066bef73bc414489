//! What the host does with one stream, from the first frame to the last.
//!
//! A stream is driven from outside: [`Stream::start`] and [`Stream::step`] name
//! the next thing to do, and the driver reports what came of it as an
//! [`Event`]. All decisions are taken here; the driver only reads, writes and
//! calls the agents.

use crate::host;
use crate::protocol::{
    AgentInfo, AttachKind, Request, RequestView, Response, ResponseView, Resume, SessionInfo,
};
use crate::session;
use crate::text;
use vstd::prelude::*;
use vstd::string::*;

verus! {

/// How a stream ends.
#[derive(Debug, Clone, PartialEq, Eq)]
pub enum Outcome {
    /// The request was carried out.
    Completed,
    /// The request was rejected.
    Refused { reason: String },
    /// The agent could not be restarted; the restart's own error is the
    /// stream's.
    RestartFailed,
    /// The agent ended with an error, which `context` introduces.
    ServeFailed { context: String },
    /// A frame could not be read or written; that error is the stream's.
    IoFailed,
}

/// Mathematical content of an [`Outcome`].
#[verifier::ext_equal]
pub enum OutcomeView {
    Completed,
    Refused { reason: Seq<char> },
    RestartFailed,
    ServeFailed { context: Seq<char> },
    IoFailed,
}

impl View for Outcome {
    type V = OutcomeView;

    open spec fn view(&self) -> OutcomeView {
        match *self {
            Outcome::Completed => OutcomeView::Completed,
            Outcome::Refused { reason } => OutcomeView::Refused { reason: reason@ },
            Outcome::RestartFailed => OutcomeView::RestartFailed,
            Outcome::ServeFailed { context } => OutcomeView::ServeFailed { context: context@ },
            Outcome::IoFailed => OutcomeView::IoFailed,
        }
    }
}

/// What a stream is waiting for.
#[derive(Debug)]
pub enum Phase {
    /// The client's request.
    Request,
    /// The host's current token, to hold the request against.
    Token { request: Request },
    /// The list of agents.
    Listing,
    /// Whether the agent to restart is enabled.
    RestartGate { agent: String },
    /// The end of the restart.
    Restarting,
    /// Whether the agent to connect to is enabled.
    ConnectGate { agent: String, resume: Option<Resume> },
    /// The canonical id of the agent to connect to.
    Lookup { agent: String, resume: Option<Resume> },
    /// The session that the client is attached to.
    Attaching { agent: String },
    /// The reply to go out, after which the stream is over.
    Closing { outcome: Outcome },
    /// The reply to go out, after which the agent takes over.
    Opening { agent: String, last_seen: Option<u64> },
    /// The agent to finish.
    Serving { agent: String },
    /// Nothing: the stream is over.
    Done,
}

/// Mathematical content of a [`Phase`].
#[verifier::ext_equal]
pub enum PhaseView {
    Request,
    Token { request: RequestView },
    Listing,
    RestartGate { agent: Seq<char> },
    Restarting,
    ConnectGate { agent: Seq<char>, resume: Option<Resume> },
    Lookup { agent: Seq<char>, resume: Option<Resume> },
    Attaching { agent: Seq<char> },
    Closing { outcome: OutcomeView },
    Opening { agent: Seq<char>, last_seen: Option<u64> },
    Serving { agent: Seq<char> },
    Done,
}

impl View for Phase {
    type V = PhaseView;

    open spec fn view(&self) -> PhaseView {
        match *self {
            Phase::Request => PhaseView::Request,
            Phase::Token { request } => PhaseView::Token { request: request@ },
            Phase::Listing => PhaseView::Listing,
            Phase::RestartGate { agent } => PhaseView::RestartGate { agent: agent@ },
            Phase::Restarting => PhaseView::Restarting,
            Phase::ConnectGate { agent, resume } => PhaseView::ConnectGate {
                agent: agent@,
                resume,
            },
            Phase::Lookup { agent, resume } => PhaseView::Lookup { agent: agent@, resume },
            Phase::Attaching { agent } => PhaseView::Attaching { agent: agent@ },
            Phase::Closing { outcome } => PhaseView::Closing { outcome: outcome@ },
            Phase::Opening { agent, last_seen } => PhaseView::Opening { agent: agent@, last_seen },
            Phase::Serving { agent } => PhaseView::Serving { agent: agent@ },
            Phase::Done => PhaseView::Done,
        }
    }
}

/// What came of the last action.
#[derive(Debug)]
pub enum Event {
    /// The request was read.
    RequestRead(Request),
    /// The host's token was loaded.
    TokenLoaded(String),
    /// The agents were listed.
    AgentsListed(Vec<AgentInfo>),
    /// Whether the agent is enabled.
    EnabledChecked(bool),
    /// The agent was restarted.
    Restarted,
    /// The agent could not be restarted, with the error as text.
    RestartFailed(String),
    /// The canonical id of the agent, if there is one.
    AgentFound(Option<String>),
    /// The session registry attached the client.
    Attached(session::ResolvedAttach),
    /// The reply was written.
    ReplyWritten,
    /// The agent finished.
    Served,
    /// The agent ended with an error.
    ServeFailed,
    /// A frame could not be read or written.
    IoFailed,
}

/// Mathematical content of an [`Event`].
#[verifier::ext_equal]
pub enum EventView {
    RequestRead(RequestView),
    TokenLoaded(Seq<char>),
    AgentsListed(Seq<AgentInfo>),
    EnabledChecked(bool),
    Restarted,
    RestartFailed(Seq<char>),
    AgentFound(Option<Seq<char>>),
    Attached(session::ResolvedAttach),
    ReplyWritten,
    Served,
    ServeFailed,
    IoFailed,
}

impl View for Event {
    type V = EventView;

    open spec fn view(&self) -> EventView {
        match *self {
            Event::RequestRead(request) => EventView::RequestRead(request@),
            Event::TokenLoaded(token) => EventView::TokenLoaded(token@),
            Event::AgentsListed(agents) => EventView::AgentsListed(agents@),
            Event::EnabledChecked(enabled) => EventView::EnabledChecked(enabled),
            Event::Restarted => EventView::Restarted,
            Event::RestartFailed(error) => EventView::RestartFailed(error@),
            Event::AgentFound(id) => EventView::AgentFound(text::opt_text(id)),
            Event::Attached(resolved) => EventView::Attached(resolved),
            Event::ReplyWritten => EventView::ReplyWritten,
            Event::Served => EventView::Served,
            Event::ServeFailed => EventView::ServeFailed,
            Event::IoFailed => EventView::IoFailed,
        }
    }
}

/// What is to be done next.
#[derive(Debug)]
pub enum Action {
    /// Read the request from the stream.
    ReadRequest,
    /// Load the host's current token.
    LoadToken,
    /// List the agents.
    ListAgents,
    /// Find out whether the agent is enabled.
    CheckEnabled { agent: String },
    /// Restart the agent.
    RestartAgent { agent: String },
    /// Look up the agent's canonical id.
    FindAgent { agent: String },
    /// Have the registry attach the client to its session with the agent.
    Attach { node_id: String, agent_id: String, last_seen: Option<u64> },
    /// Write the reply to the stream.
    Reply(Response),
    /// Hand the stream to the agent, replaying what follows `last_seen`.
    Serve { agent: String, last_seen: Option<u64> },
    /// End the stream.
    End(Outcome),
}

/// Mathematical content of an [`Action`].
#[verifier::ext_equal]
pub enum ActionView {
    ReadRequest,
    LoadToken,
    ListAgents,
    CheckEnabled { agent: Seq<char> },
    RestartAgent { agent: Seq<char> },
    FindAgent { agent: Seq<char> },
    Attach { node_id: Seq<char>, agent_id: Seq<char>, last_seen: Option<u64> },
    Reply(ResponseView),
    Serve { agent: Seq<char>, last_seen: Option<u64> },
    End(OutcomeView),
}

impl View for Action {
    type V = ActionView;

    open spec fn view(&self) -> ActionView {
        match *self {
            Action::ReadRequest => ActionView::ReadRequest,
            Action::LoadToken => ActionView::LoadToken,
            Action::ListAgents => ActionView::ListAgents,
            Action::CheckEnabled { agent } => ActionView::CheckEnabled { agent: agent@ },
            Action::RestartAgent { agent } => ActionView::RestartAgent { agent: agent@ },
            Action::FindAgent { agent } => ActionView::FindAgent { agent: agent@ },
            Action::Attach { node_id, agent_id, last_seen } => ActionView::Attach {
                node_id: node_id@,
                agent_id: agent_id@,
                last_seen,
            },
            Action::Reply(response) => ActionView::Reply(response@),
            Action::Serve { agent, last_seen } => ActionView::Serve { agent: agent@, last_seen },
            Action::End(outcome) => ActionView::End(outcome@),
        }
    }
}

/// What a client is told of an agent that is not enabled.
pub open spec fn disabled_text(agent: Seq<char>) -> Seq<char> {
    "agent `"@ + agent + "` is disabled or unknown"@
}

/// Why a stream for an agent that is not enabled is refused.
pub open spec fn disabled_reason(agent: Seq<char>) -> Seq<char> {
    "agent disabled or unknown: "@ + agent
}

/// What a client is told of an agent that has no canonical id.
pub open spec fn unknown_text(agent: Seq<char>) -> Seq<char> {
    "agent `"@ + agent + "` is unknown"@
}

/// Why a stream for an agent that has no canonical id is refused.
pub open spec fn unknown_reason(agent: Seq<char>) -> Seq<char> {
    "unknown agent: "@ + agent
}

/// What introduces the error that an agent ended with.
pub open spec fn serving_text(agent: Seq<char>) -> Seq<char> {
    "serving agent `"@ + agent + "`"@
}

/// `before`, `middle` and `after`, one behind the other.
fn joined(before: &str, middle: &str, after: &str) -> (all: String)
    ensures
        all@ == before@ + middle@ + after@,
{
    let mut all = before.to_owned();
    all.append(middle);
    all.append(after);
    all
}

/// The cursor that a client's resume hint names.
pub open spec fn cursor_of(resume: Option<Resume>) -> Option<u64> {
    match resume {
        Some(hint) => Some(hint.last_seq),
        None => None,
    }
}

/// The session state that a client is told of.
pub open spec fn session_info_of(resolved: session::ResolvedAttach) -> SessionInfo {
    SessionInfo {
        attached: AttachKind::of(resolved.kind),
        current_seq: resolved.current_seq,
        floor_seq: resolved.floor_seq,
    }
}

/// The cursor that replay starts from: the registry's for a resumed session,
/// none otherwise.
pub open spec fn replay_cursor(resolved: session::ResolvedAttach) -> Option<u64> {
    if resolved.kind == session::AttachKind::Resumed {
        resolved.effective_last_seen
    } else {
        None
    }
}

/// Tells a client what its request to connect resolved to.
pub fn session_info(resolved: &session::ResolvedAttach) -> (info: SessionInfo)
    ensures
        info == session_info_of(*resolved),
        info.current_seq == resolved.current_seq,
        info.floor_seq == resolved.floor_seq,
{
    SessionInfo {
        attached: AttachKind::from(resolved.kind),
        current_seq: resolved.current_seq,
        floor_seq: resolved.floor_seq,
    }
}

/// Decides where replay starts for an attached client.
pub fn dispatch_last_seen(resolved: &session::ResolvedAttach) -> (last_seen: Option<u64>)
    ensures
        last_seen == replay_cursor(*resolved),
{
    match resolved.kind {
        session::AttachKind::Resumed => resolved.effective_last_seen,
        _ => None,
    }
}

/// One stream of a connection.
#[derive(Debug)]
pub struct Stream {
    /// Identity of the connection's remote end, which sessions are keyed on.
    pub node_id: String,
    pub phase: Phase,
}

/// Mathematical content of a [`Stream`].
#[verifier::ext_equal]
pub struct StreamView {
    pub node_id: Seq<char>,
    pub phase: PhaseView,
}

impl View for Stream {
    type V = StreamView;

    open spec fn view(&self) -> StreamView {
        StreamView { node_id: self.node_id@, phase: self.phase@ }
    }
}

impl StreamView {
    /// A stream that nothing has been read from yet.
    pub open spec fn fresh(node_id: Seq<char>) -> StreamView {
        StreamView { node_id, phase: PhaseView::Request }
    }

    /// Whether `event` can come of what the stream asked for last.
    pub open spec fn awaits(self, event: EventView) -> bool {
        match self.phase {
            PhaseView::Request => event is RequestRead || event is IoFailed,
            PhaseView::Token { .. } => event is TokenLoaded,
            PhaseView::Listing => event is AgentsListed,
            PhaseView::RestartGate { .. } => event is EnabledChecked,
            PhaseView::Restarting => event is Restarted || event is RestartFailed,
            PhaseView::ConnectGate { .. } => event is EnabledChecked,
            PhaseView::Lookup { .. } => event is AgentFound,
            PhaseView::Attaching { .. } => event is Attached,
            PhaseView::Closing { .. } => event is ReplyWritten || event is IoFailed,
            PhaseView::Opening { .. } => event is ReplyWritten || event is IoFailed,
            PhaseView::Serving { .. } => event is Served || event is ServeFailed,
            PhaseView::Done => false,
        }
    }

    /// The stream in another phase.
    pub open spec fn at(self, phase: PhaseView) -> StreamView {
        StreamView { node_id: self.node_id, phase }
    }

    /// Ends the stream.
    pub open spec fn end(self, outcome: OutcomeView) -> (StreamView, ActionView) {
        (self.at(PhaseView::Done), ActionView::End(outcome))
    }

    /// Sends a reply and ends the stream once it is out.
    pub open spec fn close(self, response: ResponseView, outcome: OutcomeView) -> (
        StreamView,
        ActionView,
    ) {
        (self.at(PhaseView::Closing { outcome }), ActionView::Reply(response))
    }

    /// Rejects the request.
    pub open spec fn refuse(self, message: Seq<char>, reason: Seq<char>) -> (
        StreamView,
        ActionView,
    ) {
        self.close(ResponseView::rejected(message), OutcomeView::Refused { reason })
    }

    /// Takes up an admitted request.
    pub open spec fn dispatch(self, request: RequestView) -> (StreamView, ActionView) {
        match request {
            RequestView::ListAgents { .. } => (
                self.at(PhaseView::Listing),
                ActionView::ListAgents,
            ),
            RequestView::RestartAgent { agent, .. } => (
                self.at(PhaseView::RestartGate { agent }),
                ActionView::CheckEnabled { agent },
            ),
            RequestView::Connect { agent, resume, .. } => (
                self.at(PhaseView::ConnectGate { agent, resume }),
                ActionView::CheckEnabled { agent },
            ),
        }
    }

    /// The stream after `event`, and what it asks for next. The last arm is for
    /// frames that could not be read or written.
    pub open spec fn next(self, event: EventView) -> (StreamView, ActionView) {
        match (self.phase, event) {
            (PhaseView::Request, EventView::RequestRead(request)) => {
                if request.version() == crate::protocol::PROTOCOL_VERSION {
                    (self.at(PhaseView::Token { request }), ActionView::LoadToken)
                } else {
                    let message = host::mismatch_text(request.version());
                    self.refuse(message, message)
                }
            },
            (PhaseView::Token { request }, EventView::TokenLoaded(token)) => {
                if request.token() == token {
                    self.dispatch(request)
                } else {
                    self.refuse("invalid token"@, "invalid token"@)
                }
            },
            (PhaseView::Listing, EventView::AgentsListed(agents)) => {
                self.close(ResponseView::listing(agents), OutcomeView::Completed)
            },
            (PhaseView::RestartGate { agent }, EventView::EnabledChecked(enabled)) => {
                if enabled {
                    (self.at(PhaseView::Restarting), ActionView::RestartAgent { agent })
                } else {
                    self.refuse(disabled_text(agent), disabled_reason(agent))
                }
            },
            (PhaseView::Restarting, EventView::Restarted) => {
                self.close(ResponseView::acknowledged(), OutcomeView::Completed)
            },
            (PhaseView::Restarting, EventView::RestartFailed(error)) => {
                self.close(ResponseView::rejected(error), OutcomeView::RestartFailed)
            },
            (PhaseView::ConnectGate { agent, resume }, EventView::EnabledChecked(enabled)) => {
                if enabled {
                    (self.at(PhaseView::Lookup { agent, resume }), ActionView::FindAgent { agent })
                } else {
                    self.refuse(disabled_text(agent), disabled_reason(agent))
                }
            },
            (PhaseView::Lookup { agent, resume }, EventView::AgentFound(id)) => {
                match id {
                    Some(agent_id) => (
                        self.at(PhaseView::Attaching { agent }),
                        ActionView::Attach {
                            node_id: self.node_id,
                            agent_id,
                            last_seen: cursor_of(resume),
                        },
                    ),
                    None => self.refuse(unknown_text(agent), unknown_reason(agent)),
                }
            },
            (PhaseView::Attaching { agent }, EventView::Attached(resolved)) => (
                self.at(PhaseView::Opening { agent, last_seen: replay_cursor(resolved) }),
                ActionView::Reply(ResponseView::attached(session_info_of(resolved))),
            ),
            (PhaseView::Closing { outcome }, EventView::ReplyWritten) => self.end(outcome),
            (PhaseView::Opening { agent, last_seen }, EventView::ReplyWritten) => (
                self.at(PhaseView::Serving { agent }),
                ActionView::Serve { agent, last_seen },
            ),
            (PhaseView::Serving { agent }, EventView::Served) => self.end(OutcomeView::Completed),
            (PhaseView::Serving { agent }, EventView::ServeFailed) => {
                self.end(OutcomeView::ServeFailed { context: serving_text(agent) })
            },
            _ => self.end(OutcomeView::IoFailed),
        }
    }
}

impl Stream {
    /// Opens the handling of a stream from the given remote end.
    pub fn start(node_id: String) -> (started: (Stream, Action))
        ensures
            started.0@ == StreamView::fresh(node_id@),
            started.1@ == ActionView::ReadRequest,
    {
        (Stream { node_id, phase: Phase::Request }, Action::ReadRequest)
    }

    /// Whether `event` can come of what the stream asked for last.
    pub fn awaits(&self, event: &Event) -> (awaited: bool)
        ensures
            awaited == self@.awaits(event@),
    {
        match (&self.phase, event) {
            (Phase::Request, Event::RequestRead(_)) => true,
            (Phase::Request, Event::IoFailed) => true,
            (Phase::Token { .. }, Event::TokenLoaded(_)) => true,
            (Phase::Listing, Event::AgentsListed(_)) => true,
            (Phase::RestartGate { .. }, Event::EnabledChecked(_)) => true,
            (Phase::Restarting, Event::Restarted) => true,
            (Phase::Restarting, Event::RestartFailed(_)) => true,
            (Phase::ConnectGate { .. }, Event::EnabledChecked(_)) => true,
            (Phase::Lookup { .. }, Event::AgentFound(_)) => true,
            (Phase::Attaching { .. }, Event::Attached(_)) => true,
            (Phase::Closing { .. }, Event::ReplyWritten) => true,
            (Phase::Closing { .. }, Event::IoFailed) => true,
            (Phase::Opening { .. }, Event::ReplyWritten) => true,
            (Phase::Opening { .. }, Event::IoFailed) => true,
            (Phase::Serving { .. }, Event::Served) => true,
            (Phase::Serving { .. }, Event::ServeFailed) => true,
            _ => false,
        }
    }

    /// Ends the stream.
    fn end(self, outcome: Outcome) -> (ended: (Stream, Action))
        ensures
            (ended.0@, ended.1@) == self@.end(outcome@),
    {
        (Stream { node_id: self.node_id, phase: Phase::Done }, Action::End(outcome))
    }

    /// Sends a reply and ends the stream once it is out.
    fn close(self, response: Response, outcome: Outcome) -> (closing: (Stream, Action))
        ensures
            (closing.0@, closing.1@) == self@.close(response@, outcome@),
    {
        (
            Stream { node_id: self.node_id, phase: Phase::Closing { outcome } },
            Action::Reply(response),
        )
    }

    /// Rejects the request.
    fn refuse(self, message: String, reason: String) -> (closing: (Stream, Action))
        ensures
            (closing.0@, closing.1@) == self@.refuse(message@, reason@),
    {
        self.close(Response::error(message), Outcome::Refused { reason })
    }

    /// Rejects a request for an agent that is not enabled.
    fn refuse_disabled(self, agent: String) -> (closing: (Stream, Action))
        ensures
            (closing.0@, closing.1@) == self@.refuse(
                disabled_text(agent@),
                disabled_reason(agent@),
            ),
    {
        let message = joined("agent `", agent.as_str(), "` is disabled or unknown");
        let mut reason = "agent disabled or unknown: ".to_owned();
        reason.append(agent.as_str());
        self.refuse(message, reason)
    }

    /// Takes up an admitted request.
    fn dispatch(self, request: Request) -> (stepped: (Stream, Action))
        ensures
            (stepped.0@, stepped.1@) == self@.dispatch(request@),
    {
        match request {
            Request::ListAgents { .. } => (
                Stream { node_id: self.node_id, phase: Phase::Listing },
                Action::ListAgents,
            ),
            Request::RestartAgent { agent, .. } => {
                let asked = agent.clone();
                (
                    Stream { node_id: self.node_id, phase: Phase::RestartGate { agent } },
                    Action::CheckEnabled { agent: asked },
                )
            },
            Request::Connect { agent, resume, .. } => {
                let asked = agent.clone();
                (
                    Stream { node_id: self.node_id, phase: Phase::ConnectGate { agent, resume } },
                    Action::CheckEnabled { agent: asked },
                )
            },
        }
    }

    /// Moves the stream on by what came of its last action.
    pub fn step(self, event: Event) -> (stepped: (Stream, Action))
        requires
            self@.awaits(event@),
        ensures
            (stepped.0@, stepped.1@) == self@.next(event@),
    {
        let phase = self.phase;
        let stream = Stream { node_id: self.node_id, phase: Phase::Done };
        match (phase, event) {
            (Phase::Request, Event::RequestRead(request)) => {
                match host::validate_version(&request) {
                    Ok(()) => (
                        Stream { node_id: stream.node_id, phase: Phase::Token { request } },
                        Action::LoadToken,
                    ),
                    Err(error) => {
                        let response = Response::error(error.as_str());
                        stream.close(response, Outcome::Refused { reason: error })
                    },
                }
            },
            (Phase::Token { request }, Event::TokenLoaded(token)) => {
                match host::validate_token(&request, token.as_str()) {
                    Ok(()) => stream.dispatch(request),
                    Err(error) => {
                        let response = Response::error(error.as_str());
                        stream.close(response, Outcome::Refused { reason: error })
                    },
                }
            },
            (Phase::Listing, Event::AgentsListed(agents)) => {
                stream.close(Response::agents(agents), Outcome::Completed)
            },
            (Phase::RestartGate { agent }, Event::EnabledChecked(enabled)) => {
                if enabled {
                    (
                        Stream { node_id: stream.node_id, phase: Phase::Restarting },
                        Action::RestartAgent { agent },
                    )
                } else {
                    stream.refuse_disabled(agent)
                }
            },
            (Phase::Restarting, Event::Restarted) => {
                stream.close(Response::ok(), Outcome::Completed)
            },
            (Phase::Restarting, Event::RestartFailed(error)) => {
                stream.close(Response::error(error), Outcome::RestartFailed)
            },
            (Phase::ConnectGate { agent, resume }, Event::EnabledChecked(enabled)) => {
                if enabled {
                    let asked = agent.clone();
                    (
                        Stream { node_id: stream.node_id, phase: Phase::Lookup { agent, resume } },
                        Action::FindAgent { agent: asked },
                    )
                } else {
                    stream.refuse_disabled(agent)
                }
            },
            (Phase::Lookup { agent, resume }, Event::AgentFound(id)) => {
                match id {
                    Some(agent_id) => {
                        let last_seen = match resume {
                            Some(hint) => Some(hint.last_seq),
                            None => None,
                        };
                        let node_id = stream.node_id.clone();
                        (
                            Stream { node_id: stream.node_id, phase: Phase::Attaching { agent } },
                            Action::Attach { node_id, agent_id, last_seen },
                        )
                    },
                    None => {
                        let message = joined("agent `", agent.as_str(), "` is unknown");
                        let mut reason = "unknown agent: ".to_owned();
                        reason.append(agent.as_str());
                        stream.refuse(message, reason)
                    },
                }
            },
            (Phase::Attaching { agent }, Event::Attached(resolved)) => {
                let last_seen = dispatch_last_seen(&resolved);
                (
                    Stream { node_id: stream.node_id, phase: Phase::Opening { agent, last_seen } },
                    Action::Reply(Response::ok_with_session(session_info(&resolved))),
                )
            },
            (Phase::Closing { outcome }, Event::ReplyWritten) => stream.end(outcome),
            (Phase::Opening { agent, last_seen }, Event::ReplyWritten) => {
                let served = agent.clone();
                (
                    Stream { node_id: stream.node_id, phase: Phase::Serving { agent } },
                    Action::Serve { agent: served, last_seen },
                )
            },
            (Phase::Serving { .. }, Event::Served) => stream.end(Outcome::Completed),
            (Phase::Serving { agent }, Event::ServeFailed) => {
                let context = joined("serving agent `", agent.as_str(), "`");
                stream.end(Outcome::ServeFailed { context })
            },
            _ => stream.end(Outcome::IoFailed),
        }
    }
}

} // verus!
