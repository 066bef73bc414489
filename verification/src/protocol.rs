//! Messages of the alleycat protocol.

use crate::session;
use crate::text;
use vstd::prelude::*;

verus! {

/// Version of the protocol that this host speaks.
pub const PROTOCOL_VERSION: u32 = 1;

/// ALPN identifier of the protocol: the bytes of `alleycat/1`.
pub const ALLEYCAT_ALPN: [u8; 10] = [0x61, 0x6c, 0x6c, 0x65, 0x79, 0x63, 0x61, 0x74, 0x2f, 0x31];

/// What a client needs in order to dial this host.
#[derive(Debug, Clone, PartialEq, Eq)]
pub struct PairPayload {
    pub v: u32,
    pub node_id: String,
    pub token: String,
    pub host_name: Option<String>,
    pub relay: Option<String>,
    pub direct_addresses: Vec<String>,
}

/// Mathematical content of a [`PairPayload`].
#[verifier::ext_equal]
pub struct PairPayloadView {
    pub v: u32,
    pub node_id: Seq<char>,
    pub token: Seq<char>,
    pub host_name: Option<Seq<char>>,
    pub relay: Option<Seq<char>>,
    pub direct_addresses: Seq<Seq<char>>,
}

impl View for PairPayload {
    type V = PairPayloadView;

    open spec fn view(&self) -> PairPayloadView {
        PairPayloadView {
            v: self.v,
            node_id: self.node_id@,
            token: self.token@,
            host_name: text::opt_text(self.host_name),
            relay: text::opt_text(self.relay),
            direct_addresses: text::texts(self.direct_addresses@),
        }
    }
}

/// How an agent frames the messages it exchanges with a client.
#[derive(Debug, Clone, PartialEq, Eq, Structural)]
pub enum AgentWire {
    Websocket,
    Jsonl,
}

impl AgentWire {
    /// The name of the wire as it appears in messages.
    pub open spec fn name(self) -> Seq<char> {
        match self {
            AgentWire::Websocket => "websocket"@,
            AgentWire::Jsonl => "jsonl"@,
        }
    }

    /// The name of the wire as it appears in messages.
    pub fn as_str(&self) -> (name: &'static str)
        ensures
            name@ == self.name(),
    {
        match self {
            AgentWire::Websocket => "websocket",
            AgentWire::Jsonl => "jsonl",
        }
    }
}

/// A wire is known by its name: two wires have the same name exactly if they
/// are the same.
pub proof fn law_wires_are_known_by_name(a: AgentWire, b: AgentWire)
    ensures
        a.name() == b.name() <==> a == b,
{
    reveal_strlit("websocket");
    reveal_strlit("jsonl");
    assert("websocket"@.len() != "jsonl"@.len());
}

/// One agent that the host offers.
#[derive(Debug, Clone, PartialEq, Eq)]
pub struct AgentInfo {
    pub name: String,
    pub display_name: String,
    pub wire: AgentWire,
    pub available: bool,
    /// UI-facing presentation hints. A host that predates them leaves them
    /// out, and clients then render generic fallbacks.
    pub presentation: Option<AgentPresentation>,
    /// Behavioral capability flags that let clients branch on agent-specific
    /// behavior without hardcoding agent names.
    pub capabilities: Option<AgentCapabilities>,
}

/// How a client should present an agent.
#[derive(Debug, Clone, PartialEq, Eq)]
pub struct AgentPresentation {
    /// Longer title used in headers. Clients show `display_name` without it.
    pub title: Option<String>,
    /// Whether the BETA badge should be shown next to this agent.
    pub is_beta: bool,
    /// Ascending sort key. Ties are broken by `name`.
    pub sort_order: i32,
    pub description: Option<String>,
    /// Alternate lowercase names that should also resolve to this agent.
    pub aliases: Vec<String>,
}

impl Default for AgentPresentation {
    fn default() -> (presentation: Self)
        ensures
            presentation.title is None,
            !presentation.is_beta,
            presentation.sort_order == 0,
            presentation.description is None,
            presentation.aliases@ == Seq::<String>::empty(),
    {
        AgentPresentation {
            title: None,
            is_beta: false,
            sort_order: 0,
            description: None,
            aliases: Vec::new(),
        }
    }
}

/// What a client may rely on when it talks to an agent.
#[derive(Debug, Clone, PartialEq, Eq)]
pub struct AgentCapabilities {
    /// Reasoning effort is locked once the thread has any activity. Clients
    /// hide or disable the effort selector when true.
    pub locks_reasoning_effort_after_activity: bool,
    /// Allowlist of mode names the model selector should show. `None` means
    /// no filtering.
    pub visible_modes: Option<Vec<String>>,
    /// Agent can be reached via the SSH bridge bootstrap path.
    pub supports_ssh_bridge: bool,
    /// The agent speaks the `codex app-server` wire and can be dialed directly
    /// on its TCP port.
    pub uses_direct_codex_port: bool,
    /// Whether a client may send per-thread approval/sandbox overrides and
    /// expect the runtime to enforce them.
    pub supports_thread_permission_overrides: bool,
    /// Whether thread snapshots from this agent contain authoritative
    /// effective approval/sandbox policies.
    pub reports_effective_thread_permissions: bool,
}

impl Default for AgentCapabilities {
    fn default() -> (capabilities: Self)
        ensures
            !capabilities.locks_reasoning_effort_after_activity,
            capabilities.visible_modes is None,
            !capabilities.supports_ssh_bridge,
            !capabilities.uses_direct_codex_port,
            !capabilities.supports_thread_permission_overrides,
            !capabilities.reports_effective_thread_permissions,
    {
        AgentCapabilities {
            locks_reasoning_effort_after_activity: false,
            visible_modes: None,
            supports_ssh_bridge: false,
            uses_direct_codex_port: false,
            supports_thread_permission_overrides: false,
            reports_effective_thread_permissions: false,
        }
    }
}

/// Resume hint sent with [`Request::Connect`] by a client that reconnects to a
/// session. The host keys sessions on the identity of the connection, so the
/// hint carries none. `last_seq` is the highest sequence number the client
/// observed on its prior attachment.
#[derive(Debug, Clone, PartialEq, Eq, Structural)]
pub struct Resume {
    pub last_seq: u64,
}

/// What a [`Request::Connect`] resolved to on the host.
#[derive(Debug, Clone, Copy, PartialEq, Eq, Structural)]
pub enum AttachKind {
    /// No prior session existed; one was minted for this client.
    Fresh,
    /// Prior session reattached and the resume cursor was within the replay
    /// window. Missed frames are replayed before going live.
    Resumed,
    /// Prior session existed but the cursor predates the replay window. The
    /// client must reload its state before treating the stream as caught up;
    /// nothing is replayed.
    DriftReload,
}

impl AttachKind {
    /// The wire-level kind that stands for the registry's kind.
    pub open spec fn of(kind: session::AttachKind) -> AttachKind {
        match kind {
            session::AttachKind::Fresh => AttachKind::Fresh,
            session::AttachKind::Resumed => AttachKind::Resumed,
            session::AttachKind::DriftReload => AttachKind::DriftReload,
        }
    }
}

impl From<session::AttachKind> for AttachKind {
    fn from(value: session::AttachKind) -> (kind: Self) {
        match value {
            session::AttachKind::Fresh => AttachKind::Fresh,
            session::AttachKind::Resumed => AttachKind::Resumed,
            session::AttachKind::DriftReload => AttachKind::DriftReload,
        }
    }
}

impl vstd::std_specs::convert::FromSpecImpl<session::AttachKind> for AttachKind {
    open spec fn obeys_from_spec() -> bool {
        true
    }

    open spec fn from_spec(value: session::AttachKind) -> AttachKind {
        AttachKind::of(value)
    }
}

/// State of the session that a stream was attached to.
#[derive(Debug, Clone, PartialEq, Eq, Structural)]
pub struct SessionInfo {
    pub attached: AttachKind,
    pub current_seq: u64,
    pub floor_seq: u64,
}

/// First message of every stream, sent by the client.
#[derive(Debug)]
pub enum Request {
    ListAgents { v: u32, token: String },
    RestartAgent { v: u32, token: String, agent: String },
    Connect { v: u32, token: String, agent: String, resume: Option<Resume> },
}

/// Mathematical content of a [`Request`].
#[verifier::ext_equal]
pub enum RequestView {
    ListAgents { v: u32, token: Seq<char> },
    RestartAgent { v: u32, token: Seq<char>, agent: Seq<char> },
    Connect { v: u32, token: Seq<char>, agent: Seq<char>, resume: Option<Resume> },
}

impl RequestView {
    /// Protocol version the client claims to speak.
    pub open spec fn version(self) -> u32 {
        match self {
            RequestView::ListAgents { v, .. } => v,
            RequestView::RestartAgent { v, .. } => v,
            RequestView::Connect { v, .. } => v,
        }
    }

    /// Token the client presents.
    pub open spec fn token(self) -> Seq<char> {
        match self {
            RequestView::ListAgents { token, .. } => token,
            RequestView::RestartAgent { token, .. } => token,
            RequestView::Connect { token, .. } => token,
        }
    }
}

impl View for Request {
    type V = RequestView;

    open spec fn view(&self) -> RequestView {
        match *self {
            Request::ListAgents { v, token } => RequestView::ListAgents { v, token: token@ },
            Request::RestartAgent { v, token, agent } => RequestView::RestartAgent {
                v,
                token: token@,
                agent: agent@,
            },
            Request::Connect { v, token, agent, resume } => RequestView::Connect {
                v,
                token: token@,
                agent: agent@,
                resume,
            },
        }
    }
}

impl Request {
    /// Protocol version the client claims to speak.
    pub fn version(&self) -> (v: u32)
        ensures
            v == self@.version(),
            self matches Request::ListAgents { v: claimed, .. } ==> v == claimed,
            self matches Request::RestartAgent { v: claimed, .. } ==> v == claimed,
            self matches Request::Connect { v: claimed, .. } ==> v == claimed,
    {
        match self {
            Request::ListAgents { v, .. } => *v,
            Request::RestartAgent { v, .. } => *v,
            Request::Connect { v, .. } => *v,
        }
    }

    /// Token the client presents.
    pub fn token(&self) -> (token: &str)
        ensures
            token@ == self@.token(),
            self matches Request::ListAgents { token: presented, .. } ==> token@ == presented@,
            self matches Request::RestartAgent { token: presented, .. } ==> token@ == presented@,
            self matches Request::Connect { token: presented, .. } ==> token@ == presented@,
    {
        match self {
            Request::ListAgents { token, .. } => token.as_str(),
            Request::RestartAgent { token, .. } => token.as_str(),
            Request::Connect { token, .. } => token.as_str(),
        }
    }
}

/// The host's answer to a [`Request`].
#[derive(Debug)]
pub struct Response {
    pub v: u32,
    pub ok: bool,
    pub agents: Option<Vec<AgentInfo>>,
    pub session: Option<SessionInfo>,
    pub error: Option<String>,
}

/// Mathematical content of a [`Response`].
#[verifier::ext_equal]
pub struct ResponseView {
    pub v: u32,
    pub ok: bool,
    pub agents: Option<Seq<AgentInfo>>,
    pub session: Option<SessionInfo>,
    pub error: Option<Seq<char>>,
}

impl View for Response {
    type V = ResponseView;

    open spec fn view(&self) -> ResponseView {
        ResponseView {
            v: self.v,
            ok: self.ok,
            agents: match self.agents {
                Some(agents) => Some(agents@),
                None => None,
            },
            session: self.session,
            error: text::opt_text(self.error),
        }
    }
}

impl ResponseView {
    /// The bare acknowledgement.
    pub open spec fn acknowledged() -> ResponseView {
        ResponseView { v: PROTOCOL_VERSION, ok: true, agents: None, session: None, error: None }
    }

    /// The acknowledgement that carries a session.
    pub open spec fn attached(session: SessionInfo) -> ResponseView {
        ResponseView { session: Some(session), ..ResponseView::acknowledged() }
    }

    /// The acknowledgement that carries a list of agents.
    pub open spec fn listing(agents: Seq<AgentInfo>) -> ResponseView {
        ResponseView { agents: Some(agents), ..ResponseView::acknowledged() }
    }

    /// The rejection that carries a message.
    pub open spec fn rejected(message: Seq<char>) -> ResponseView {
        ResponseView {
            v: PROTOCOL_VERSION,
            ok: false,
            agents: None,
            session: None,
            error: Some(message),
        }
    }

    /// What holds of every response a host sends: it carries the host's
    /// version, it is a rejection exactly when it has an error message, a
    /// rejection has no other payload, and there is at most one payload.
    pub open spec fn well_formed(self) -> bool {
        &&& self.v == PROTOCOL_VERSION
        &&& self.ok <==> self.error is None
        &&& !self.ok ==> self.agents is None && self.session is None
        &&& self.agents is None || self.session is None
    }
}

impl Response {
    /// Acknowledges a request.
    pub fn ok() -> (response: Self)
        ensures
            response@ == ResponseView::acknowledged(),
            response@.well_formed(),
    {
        Response { v: PROTOCOL_VERSION, ok: true, agents: None, session: None, error: None }
    }

    /// Acknowledges a request to connect, with the session it was attached to.
    pub fn ok_with_session(session: SessionInfo) -> (response: Self)
        ensures
            response@ == ResponseView::attached(session),
            response.session == Some(session),
            response@.well_formed(),
    {
        Response {
            v: PROTOCOL_VERSION,
            ok: true,
            agents: None,
            session: Some(session),
            error: None,
        }
    }

    /// Answers a request for the agents.
    pub fn agents(agents: Vec<AgentInfo>) -> (response: Self)
        ensures
            response@ == ResponseView::listing(agents@),
            response.agents == Some(agents),
            response@.well_formed(),
    {
        Response { v: PROTOCOL_VERSION, ok: true, agents: Some(agents), session: None, error: None }
    }

    /// Rejects a request. The message is what converting `error` into a string yields.
    pub fn error<T: Into<String>>(error: T) -> (response: Self)
        ensures
            response.error matches Some(message) && call_ensures(T::into, (error,), message)
                && response@ == ResponseView::rejected(message@),
            response@.well_formed(),
    {
        Response {
            v: PROTOCOL_VERSION,
            ok: false,
            agents: None,
            session: None,
            error: Some(error.into()),
        }
    }
}

/// The version and the token of a request are the ones the client put into it,
/// for each kind of request and whatever the texts are.
pub proof fn law_requests_are_read_in_full(
    v: u32,
    token: Seq<char>,
    agent: Seq<char>,
    resume: Option<Resume>,
)
    ensures
        (RequestView::ListAgents { v, token }).version() == v,
        (RequestView::ListAgents { v, token }).token() == token,
        (RequestView::RestartAgent { v, token, agent }).version() == v,
        (RequestView::RestartAgent { v, token, agent }).token() == token,
        (RequestView::Connect { v, token, agent, resume }).version() == v,
        (RequestView::Connect { v, token, agent, resume }).token() == token,
{
}

/// What is read from a request is what its fields hold.
pub proof fn law_request_fields(request: Request, v: u32, token: &str)
    requires
        call_ensures(Request::version, (&request,), v),
        call_ensures(Request::token, (&request,), token),
    ensures
        match request {
            Request::ListAgents { v: claimed, token: presented } => v == claimed && token@
                == presented@,
            Request::RestartAgent { v: claimed, token: presented, .. } => v == claimed && token@
                == presented@,
            Request::Connect { v: claimed, token: presented, .. } => v == claimed && token@
                == presented@,
        },
{
}

/// A client is told the registry's own kind of attachment: each kind stands for
/// the one of the same name, and for no other.
pub proof fn law_attach_kinds_correspond(kind: session::AttachKind, told: AttachKind)
    requires
        call_ensures(<AttachKind as From<session::AttachKind>>::from, (kind,), told),
    ensures
        told == AttachKind::of(kind),
        told is Fresh <==> kind is Fresh,
        told is Resumed <==> kind is Resumed,
        told is DriftReload <==> kind is DriftReload,
{
}

/// An acknowledgement carries the host's version and nothing else.
pub proof fn law_acknowledgement(response: Response)
    requires
        call_ensures(Response::ok, (), response),
    ensures
        response.v == 1,
        response.ok,
        response.agents is None,
        response.session is None,
        response.error is None,
        response@ == ResponseView::acknowledged(),
{
}

/// The acknowledgement of a connect carries the session it was made from, field
/// by field: what the client is told of its attachment and of the sequence
/// numbers is what the session says.
pub proof fn law_session_is_told_as_it_is(session: SessionInfo, response: Response)
    requires
        call_ensures(Response::ok_with_session, (session,), response),
    ensures
        response.v == 1,
        response.ok,
        response.agents is None,
        response.error is None,
        response.session matches Some(told) && told.attached == session.attached
            && told.current_seq == session.current_seq && told.floor_seq == session.floor_seq,
        ResponseView::attached(session).session == Some(session),
        response@ == ResponseView::attached(session),
{
}

/// A listing carries every agent it was made from, in order.
pub proof fn law_listing_is_complete(agents: Vec<AgentInfo>, response: Response)
    requires
        call_ensures(Response::agents, (agents,), response),
    ensures
        response.v == 1,
        response.ok,
        response.session is None,
        response.error is None,
        response.agents matches Some(listed) && listed@.len() == agents@.len() && forall|i: int|
            0 <= i < agents@.len() ==> #[trigger] listed@[i] == agents@[i],
        ResponseView::listing(agents@).agents == Some(agents@),
        response@ == ResponseView::listing(agents@),
{
}

/// A rejection carries the text it was made from, to the last character, and
/// nothing else.
pub proof fn law_rejection_gives_its_reason(message: String, response: Response)
    requires
        call_ensures(Response::error::<String>, (message,), response),
    ensures
        response.v == 1,
        !response.ok,
        response.agents is None,
        response.session is None,
        response.error matches Some(told) && told@ == message@,
        ResponseView::rejected(message@).error == Some(message@),
        response@ == ResponseView::rejected(message@),
{
}

/// The protocol identifier names the version that the host speaks.
pub proof fn law_alpn_names_the_version()
    ensures
        PROTOCOL_VERSION == 1,
        ALLEYCAT_ALPN@.len() == "alleycat/1"@.len(),
        forall|i: int|
            0 <= i < ALLEYCAT_ALPN@.len() ==> #[trigger] ALLEYCAT_ALPN@[i] as char
                == "alleycat/1"@[i],
        seq!["alleycat/1"@.last()] == text::decimal(PROTOCOL_VERSION as nat),
{
    reveal_strlit("alleycat/1");
}

} // verus!
