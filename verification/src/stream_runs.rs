//! What a driver of a stream sees: the actions that [`Stream::start`] and
//! [`Stream::step`] name, for each request and each event that can follow.

use crate::protocol::{AttachKind, Request, Response, Resume};
use crate::session;
use crate::stream::{Action, Event, Outcome, Stream, StreamView};
use crate::text;
use vstd::prelude::*;

verus! {

/// A run of a stream from the remote end `node_id`: it is started, and then
/// stepped by one event after the other, each of which it awaits. `streams` and
/// `asked` hold where it stands and what it asks for, at the start and after
/// each event.
pub open spec fn is_run(
    node_id: String,
    streams: Seq<Stream>,
    events: Seq<Event>,
    asked: Seq<Action>,
) -> bool {
    &&& streams.len() == events.len() + 1
    &&& asked.len() == events.len() + 1
    &&& call_ensures(Stream::start, (node_id,), (streams[0], asked[0]))
    &&& forall|i: int|
        0 <= i < events.len() ==> call_ensures(
            Stream::awaits,
            (&(#[trigger] streams[i]), &events[i]),
            true,
        )
    &&& forall|i: int|
        0 <= i < events.len() ==> call_ensures(
            Stream::step,
            (#[trigger] streams[i], events[i]),
            (streams[i + 1], asked[i + 1]),
        )
}

/// Whether an event can come of an action.
pub open spec fn can_follow(action: Action, event: Event) -> bool {
    match event {
        Event::RequestRead(_) => action is ReadRequest,
        Event::TokenLoaded(_) => action is LoadToken,
        Event::AgentsListed(_) => action is ListAgents,
        Event::EnabledChecked(_) => action is CheckEnabled,
        Event::Restarted => action is RestartAgent,
        Event::RestartFailed(_) => action is RestartAgent,
        Event::AgentFound(_) => action is FindAgent,
        Event::Attached(_) => action is Attach,
        Event::ReplyWritten => action is Reply,
        Event::Served => action is Serve,
        Event::ServeFailed => action is Serve,
        Event::IoFailed => action is ReadRequest || action is Reply,
    }
}

/// Whether a response rejects a request with the message, and does nothing else.
pub open spec fn rejects(response: Response, message: Seq<char>) -> bool {
    &&& response.v == 1
    &&& !response.ok
    &&& response.agents is None
    &&& response.session is None
    &&& response.error matches Some(error) && error@ == message
}

/// Whether a stream whose reply is the action `asked[i]` is over with it: once
/// the reply is out the stream ends with the outcome, and nothing follows.
pub open spec fn closes_with(
    events: Seq<Event>,
    asked: Seq<Action>,
    i: int,
    outcome: spec_fn(Outcome) -> bool,
) -> bool {
    &&& asked[i] is Reply
    &&& events.len() <= i + 1
    &&& events.len() == i + 1 ==> {
        &&& asked[i + 1] matches Action::End(end)
        &&& events[i] is ReplyWritten || events[i] is IoFailed
        &&& events[i] is ReplyWritten ==> outcome(end)
        &&& events[i] is IoFailed ==> end is IoFailed
    }
}

/// Whether the request is refused with the action `asked[i]`: the reply gives
/// the message, and the stream ends with the reason.
pub open spec fn refuses(
    events: Seq<Event>,
    asked: Seq<Action>,
    i: int,
    message: Seq<char>,
    reason: Seq<char>,
) -> bool {
    &&& asked[i] matches Action::Reply(response)
    &&& rejects(response, message)
    &&& closes_with(
        events,
        asked,
        i,
        |end: Outcome| end matches Outcome::Refused { reason: told } && told@ == reason,
    )
}

proof fn lemma_step(
    node_id: String,
    streams: Seq<Stream>,
    events: Seq<Event>,
    asked: Seq<Action>,
    i: int,
)
    requires
        is_run(node_id, streams, events, asked),
    ensures
        streams[0]@ == StreamView::fresh(node_id@),
        asked[0] is ReadRequest,
        0 <= i < events.len() ==> streams[i]@.awaits(events[i]@),
        0 <= i < events.len() ==> (streams[i + 1]@, asked[i + 1]@) == streams[i]@.next(events[i]@),
{
    if 0 <= i < events.len() {
        let stream = streams[i];
        assert(call_ensures(Stream::awaits, (&stream, &events[i]), true));
        assert(call_ensures(
            Stream::step,
            (stream, events[i]),
            (streams[i + 1], asked[i + 1]),
        ));
    }
}

/// A run goes on with whatever can come of the last action, and with nothing
/// else.
pub proof fn law_runs_go_on(
    node_id: String,
    streams: Seq<Stream>,
    events: Seq<Event>,
    asked: Seq<Action>,
    event: Event,
    awaited: bool,
)
    requires
        is_run(node_id, streams, events, asked),
        call_ensures(Stream::awaits, (&streams.last(), &event), awaited),
    ensures
        awaited <==> can_follow(asked.last(), event),
        awaited ==> call_requires(Stream::step, (streams.last(), event)),
{
    lemma_step(node_id, streams, events, asked, events.len() - 1);
}

/// A run begins with the request. A request that cannot be read ends it.
pub proof fn law_runs_begin_with_the_request(
    node_id: String,
    streams: Seq<Stream>,
    events: Seq<Event>,
    asked: Seq<Action>,
)
    requires
        is_run(node_id, streams, events, asked),
    ensures
        asked[0] is ReadRequest,
        events.len() > 0 ==> events[0] is RequestRead || events[0] is IoFailed,
        events.len() > 0 && events[0] is IoFailed ==> events.len() == 1 && asked[1]
            == Action::End(Outcome::IoFailed),
{
    lemma_step(node_id, streams, events, asked, 0);
    lemma_step(node_id, streams, events, asked, 1);
}

/// A request is refused for its version before its token is looked at, and then
/// for its token. A request with the host's version and token is taken up: the
/// agents are listed, or the agent that it names is looked at.
pub proof fn law_runs_admit_requests(
    node_id: String,
    streams: Seq<Stream>,
    events: Seq<Event>,
    asked: Seq<Action>,
    request: Request,
)
    requires
        is_run(node_id, streams, events, asked),
        events.len() > 0,
        events[0] == Event::RequestRead(request),
    ensures
        ({
            let (v, presented) = match request {
                Request::ListAgents { v, token } => (v, token),
                Request::RestartAgent { v, token, .. } => (v, token),
                Request::Connect { v, token, .. } => (v, token),
            };
            let mismatch = "protocol mismatch: client="@ + text::decimal(v as nat) + " host="@
                + text::decimal(1);
            &&& v != 1 ==> refuses(events, asked, 1, mismatch, mismatch)
            &&& v == 1 ==> asked[1] is LoadToken
            &&& v == 1 && events.len() > 1 ==> {
                &&& events[1] matches Event::TokenLoaded(token)
                &&& token@ != presented@ ==> refuses(
                    events,
                    asked,
                    2,
                    "invalid token"@,
                    "invalid token"@,
                )
                &&& token@ == presented@ ==> match request {
                    Request::ListAgents { .. } => asked[2] is ListAgents,
                    Request::RestartAgent { agent, .. } => asked[2] matches Action::CheckEnabled {
                        agent: named,
                    } && named@ == agent@,
                    Request::Connect { agent, .. } => asked[2] matches Action::CheckEnabled {
                        agent: named,
                    } && named@ == agent@,
                }
            }
        }),
{
    lemma_step(node_id, streams, events, asked, 0);
    lemma_step(node_id, streams, events, asked, 1);
    lemma_step(node_id, streams, events, asked, 2);
    lemma_step(node_id, streams, events, asked, 3);
}

/// The agents are told as they were listed, every one of them and in order, and
/// the request is then carried out.
pub proof fn law_runs_list_the_agents(
    node_id: String,
    streams: Seq<Stream>,
    events: Seq<Event>,
    asked: Seq<Action>,
    token: String,
    loaded: String,
)
    requires
        is_run(node_id, streams, events, asked),
        events.len() > 2,
        events[0] == Event::RequestRead(Request::ListAgents { v: 1, token }),
        events[1] == Event::TokenLoaded(loaded),
        loaded@ == token@,
    ensures
        ({
            &&& events[2] matches Event::AgentsListed(agents)
            &&& asked[3] matches Action::Reply(response)
            &&& response.v == 1
            &&& response.ok
            &&& response.session is None
            &&& response.error is None
            &&& response.agents matches Some(told)
            &&& told@ == agents@
            &&& closes_with(events, asked, 3, |end: Outcome| end is Completed)
        }),
{
    lemma_step(node_id, streams, events, asked, 0);
    lemma_step(node_id, streams, events, asked, 1);
    lemma_step(node_id, streams, events, asked, 2);
    lemma_step(node_id, streams, events, asked, 3);
    lemma_step(node_id, streams, events, asked, 4);
}

/// An agent that is not enabled is not restarted, and the client is told that
/// agent's name. An enabled one is restarted, the very one that the request
/// names. The client learns how that went: an acknowledgement, or the error to
/// the last character.
pub proof fn law_runs_restart_the_agent(
    node_id: String,
    streams: Seq<Stream>,
    events: Seq<Event>,
    asked: Seq<Action>,
    token: String,
    agent: String,
    loaded: String,
)
    requires
        is_run(node_id, streams, events, asked),
        events.len() > 2,
        events[0] == Event::RequestRead(Request::RestartAgent { v: 1, token, agent }),
        events[1] == Event::TokenLoaded(loaded),
        loaded@ == token@,
    ensures
        ({
            &&& events[2] matches Event::EnabledChecked(enabled)
            &&& !enabled ==> refuses(
                events,
                asked,
                3,
                "agent `"@ + agent@ + "` is disabled or unknown"@,
                "agent disabled or unknown: "@ + agent@,
            )
            &&& enabled ==> (asked[3] matches Action::RestartAgent { agent: named } && named@
                == agent@)
            &&& enabled && events.len() > 3 ==> {
                &&& asked[4] matches Action::Reply(response)
                &&& events[3] is Restarted || events[3] is RestartFailed
                &&& events[3] is Restarted ==> {
                    &&& response.v == 1
                    &&& response.ok
                    &&& response.agents is None
                    &&& response.session is None
                    &&& response.error is None
                    &&& closes_with(events, asked, 4, |end: Outcome| end is Completed)
                }
                &&& events[3] matches Event::RestartFailed(error) ==> {
                    &&& rejects(response, error@)
                    &&& closes_with(events, asked, 4, |end: Outcome| end is RestartFailed)
                }
            }
        }),
{
    lemma_step(node_id, streams, events, asked, 0);
    lemma_step(node_id, streams, events, asked, 1);
    lemma_step(node_id, streams, events, asked, 2);
    lemma_step(node_id, streams, events, asked, 3);
    lemma_step(node_id, streams, events, asked, 4);
    lemma_step(node_id, streams, events, asked, 5);
}

/// A client is not attached to an agent that is not enabled or has no canonical
/// id, and is told that agent's name. Otherwise the registry is asked for the
/// session of this connection's remote end with the agent, from the sequence
/// number that the request names.
pub proof fn law_runs_attach_the_client(
    node_id: String,
    streams: Seq<Stream>,
    events: Seq<Event>,
    asked: Seq<Action>,
    token: String,
    agent: String,
    resume: Option<Resume>,
    loaded: String,
)
    requires
        is_run(node_id, streams, events, asked),
        events.len() > 2,
        events[0] == Event::RequestRead(Request::Connect { v: 1, token, agent, resume }),
        events[1] == Event::TokenLoaded(loaded),
        loaded@ == token@,
    ensures
        ({
            &&& events[2] matches Event::EnabledChecked(enabled)
            &&& !enabled ==> refuses(
                events,
                asked,
                3,
                "agent `"@ + agent@ + "` is disabled or unknown"@,
                "agent disabled or unknown: "@ + agent@,
            )
            &&& enabled ==> (asked[3] matches Action::FindAgent { agent: named } && named@
                == agent@)
            &&& enabled && events.len() > 3 ==> {
                &&& events[3] matches Event::AgentFound(found)
                &&& found is None ==> refuses(
                    events,
                    asked,
                    4,
                    "agent `"@ + agent@ + "` is unknown"@,
                    "unknown agent: "@ + agent@,
                )
                &&& found matches Some(id) ==> {
                    &&& asked[4] matches Action::Attach { node_id: key, agent_id, last_seen }
                    &&& key@ == node_id@
                    &&& agent_id@ == id@
                    &&& resume matches Some(Resume { last_seq }) ==> last_seen == Some(last_seq)
                    &&& resume is None ==> last_seen is None
                }
            }
        }),
{
    lemma_step(node_id, streams, events, asked, 0);
    lemma_step(node_id, streams, events, asked, 1);
    lemma_step(node_id, streams, events, asked, 2);
    lemma_step(node_id, streams, events, asked, 3);
    lemma_step(node_id, streams, events, asked, 4);
    lemma_step(node_id, streams, events, asked, 5);
}

/// An attached client is told the session it was attached to, field by field.
/// Only when that is out the agent takes over, the one that the request names,
/// with the registry's cursor for a resumed session and with none otherwise.
/// How the agent ends is how the stream ends.
pub proof fn law_runs_serve_the_client(
    node_id: String,
    streams: Seq<Stream>,
    events: Seq<Event>,
    asked: Seq<Action>,
    token: String,
    agent: String,
    resume: Option<Resume>,
    loaded: String,
    agent_id: String,
    resolved: session::ResolvedAttach,
)
    requires
        is_run(node_id, streams, events, asked),
        events.len() > 4,
        events[0] == Event::RequestRead(Request::Connect { v: 1, token, agent, resume }),
        events[1] == Event::TokenLoaded(loaded),
        loaded@ == token@,
        events[2] == Event::EnabledChecked(true),
        events[3] == Event::AgentFound(Some(agent_id)),
        events[4] == Event::Attached(resolved),
    ensures
        ({
            &&& asked[5] matches Action::Reply(response)
            &&& response.v == 1
            &&& response.ok
            &&& response.agents is None
            &&& response.error is None
            &&& response.session matches Some(info)
            &&& info.attached == AttachKind::Fresh <==> resolved.kind == session::AttachKind::Fresh
            &&& info.attached == AttachKind::Resumed <==> resolved.kind
                == session::AttachKind::Resumed
            &&& info.attached == AttachKind::DriftReload <==> resolved.kind
                == session::AttachKind::DriftReload
            &&& info.current_seq == resolved.current_seq
            &&& info.floor_seq == resolved.floor_seq
        }),
        events.len() > 5 ==> events[5] is ReplyWritten || events[5] is IoFailed,
        events.len() > 5 && events[5] is IoFailed ==> events.len() == 6 && asked[6] == Action::End(
            Outcome::IoFailed,
        ),
        events.len() > 5 && events[5] is ReplyWritten ==> {
            &&& asked[6] matches Action::Serve { agent: named, last_seen }
            &&& named@ == agent@
            &&& resolved.kind == session::AttachKind::Resumed ==> last_seen
                == resolved.effective_last_seen
            &&& resolved.kind != session::AttachKind::Resumed ==> last_seen is None
        },
        events.len() > 6 ==> {
            &&& events.len() == 7
            &&& asked[7] matches Action::End(end)
            &&& events[6] is Served || events[6] is ServeFailed
            &&& events[6] is Served ==> end is Completed
            &&& events[6] is ServeFailed ==> (end matches Outcome::ServeFailed { context }
                && context@ == "serving agent `"@ + agent@ + "`"@)
        },
{
    lemma_step(node_id, streams, events, asked, 0);
    lemma_step(node_id, streams, events, asked, 1);
    lemma_step(node_id, streams, events, asked, 2);
    lemma_step(node_id, streams, events, asked, 3);
    lemma_step(node_id, streams, events, asked, 4);
    lemma_step(node_id, streams, events, asked, 5);
    lemma_step(node_id, streams, events, asked, 6);
    lemma_step(node_id, streams, events, asked, 7);
}

} // verus!
