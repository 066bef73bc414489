//! What holds of every stream, whatever the client, the agents and the network
//! do.

use crate::host;
use crate::protocol::{
    AgentInfo, AttachKind, RequestView, ResponseView, Resume, SessionInfo, PROTOCOL_VERSION,
};
use crate::session;
use crate::stream::{
    cursor_of, disabled_reason, disabled_text, dispatch_last_seen, replay_cursor, serving_text,
    session_info, session_info_of, unknown_reason, unknown_text, ActionView, EventView, OutcomeView,
    PhaseView, StreamView,
};
use vstd::prelude::*;

verus! {

/// The stream after the first `i` of the events.
pub open spec fn state_at(stream: StreamView, events: Seq<EventView>, i: nat) -> StreamView
    decreases i,
{
    if i == 0 {
        stream
    } else {
        state_at(stream, events, (i - 1) as nat).next(events[i - 1]).0
    }
}

/// What the stream asks for in answer to the event at `i`.
pub open spec fn action_at(stream: StreamView, events: Seq<EventView>, i: nat) -> ActionView {
    state_at(stream, events, i).next(events[i as int]).1
}

/// All that the stream asks for in answer to the events.
pub open spec fn actions(stream: StreamView, events: Seq<EventView>) -> Seq<ActionView> {
    Seq::new(events.len(), |i: int| action_at(stream, events, i as nat))
}

/// Whether each event can come of what the stream asked for before it.
pub open spec fn in_step(stream: StreamView, events: Seq<EventView>) -> bool {
    forall|i: nat|
        i < events.len() ==> (#[trigger] state_at(stream, events, i)).awaits(events[i as int])
}

/// Whether an action concerns the agents or their sessions.
pub open spec fn concerns_agents(action: ActionView) -> bool {
    ||| action is ListAgents
    ||| action is CheckEnabled
    ||| action is RestartAgent
    ||| action is FindAgent
    ||| action is Attach
    ||| action is Serve
}

/// The agent that a request is for.
pub open spec fn agent_of(request: RequestView) -> Option<Seq<char>> {
    match request {
        RequestView::ListAgents { .. } => None,
        RequestView::RestartAgent { agent, .. } => Some(agent),
        RequestView::Connect { agent, .. } => Some(agent),
    }
}

/// The events begin with an admissible request.
pub open spec fn admitted(events: Seq<EventView>) -> bool {
    &&& events.len() >= 2
    &&& events[0] matches EventView::RequestRead(request)
    &&& events[1] matches EventView::TokenLoaded(token)
    &&& host::admissible(request, token)
}

/// The events begin with an admissible request for an enabled agent.
pub open spec fn enabled(events: Seq<EventView>) -> bool {
    &&& admitted(events)
    &&& events.len() >= 3
    &&& events[2] == EventView::EnabledChecked(true)
}

/// How far a stream has got, in terms of the events so far.
spec fn reached(stream: StreamView, events: Seq<EventView>, i: nat) -> bool {
    match stream.phase {
        PhaseView::Request => i == 0,
        PhaseView::Token { request } => {
            &&& i == 1
            &&& events[0] == EventView::RequestRead(request)
            &&& request.version() == PROTOCOL_VERSION
        },
        PhaseView::Listing => i == 2 && admitted(events),
        PhaseView::RestartGate { agent } => {
            &&& i == 2
            &&& admitted(events)
            &&& events[0]->RequestRead_0 is RestartAgent
            &&& agent_of(events[0]->RequestRead_0) == Some(agent)
        },
        PhaseView::Restarting => i == 3 && enabled(events),
        PhaseView::ConnectGate { agent, resume } => {
            &&& i == 2
            &&& admitted(events)
            &&& events[0]->RequestRead_0 is Connect
            &&& agent_of(events[0]->RequestRead_0) == Some(agent)
            &&& events[0]->RequestRead_0->resume == resume
        },
        PhaseView::Lookup { agent, resume } => {
            &&& i == 3
            &&& enabled(events)
            &&& events[0]->RequestRead_0 is Connect
            &&& agent_of(events[0]->RequestRead_0) == Some(agent)
            &&& events[0]->RequestRead_0->resume == resume
        },
        PhaseView::Attaching { agent } => {
            &&& i == 4
            &&& enabled(events)
            &&& events[0]->RequestRead_0 is Connect
            &&& agent_of(events[0]->RequestRead_0) == Some(agent)
        },
        PhaseView::Opening { agent, last_seen } => {
            &&& i == 5
            &&& enabled(events)
            &&& events[0]->RequestRead_0 is Connect
            &&& agent_of(events[0]->RequestRead_0) == Some(agent)
            &&& events[4] matches EventView::Attached(resolved)
            &&& last_seen == replay_cursor(resolved)
        },
        PhaseView::Serving { agent } => i == 6,
        PhaseView::Closing { .. } => 1 <= i <= 4,
        PhaseView::Done => 1 <= i <= 7,
    }
}

proof fn lemma_reached(node_id: Seq<char>, events: Seq<EventView>, i: nat)
    requires
        in_step(StreamView::fresh(node_id), events),
        i <= events.len(),
    ensures
        reached(state_at(StreamView::fresh(node_id), events, i), events, i),
        state_at(StreamView::fresh(node_id), events, i).node_id == node_id,
    decreases i,
{
    if i > 0 {
        let before = (i - 1) as nat;
        lemma_reached(node_id, events, before);
        assert(state_at(StreamView::fresh(node_id), events, before).awaits(events[before as int]));
    }
}

/// A stream comes to its end within seven events.
pub proof fn law_streams_are_short(node_id: Seq<char>, events: Seq<EventView>)
    requires
        in_step(StreamView::fresh(node_id), events),
    ensures
        events.len() <= 7,
{
    if events.len() > 7 {
        lemma_reached(node_id, events, 8);
    }
}

/// A stream ends once, with the last thing it asks for, and is over exactly
/// then.
pub proof fn law_streams_end_once(node_id: Seq<char>, events: Seq<EventView>)
    requires
        in_step(StreamView::fresh(node_id), events),
    ensures
        forall|i: int|
            0 <= i < events.len() && (#[trigger] actions(
                StreamView::fresh(node_id),
                events,
            )[i]) is End ==> i == events.len() - 1,
        state_at(StreamView::fresh(node_id), events, events.len()).phase is Done <==> events.len()
            > 0 && actions(StreamView::fresh(node_id), events).last() is End,
{
    let stream = StreamView::fresh(node_id);
    assert forall|i: int| 0 <= i < events.len() && (#[trigger] actions(stream, events)[i]) is End
        implies i == events.len() - 1 by {
        if i + 1 < events.len() {
            assert(state_at(stream, events, i as nat).awaits(events[i]));
            let next = (i + 1) as nat;
            assert(state_at(stream, events, next).phase is Done);
            assert(state_at(stream, events, next).awaits(events[next as int]));
        }
    }
    if events.len() > 0 {
        let last = (events.len() - 1) as nat;
        assert(state_at(stream, events, last).awaits(events[last as int]));
    }
}

/// Whether the stream's one reply has been asked for.
spec fn replied(stream: StreamView) -> bool {
    stream.phase is Closing || stream.phase is Opening || stream.phase is Serving
        || stream.phase is Done
}

proof fn lemma_replied_stays(stream: StreamView, events: Seq<EventView>, i: nat, j: nat)
    requires
        in_step(stream, events),
        i <= j < events.len(),
        replied(state_at(stream, events, i)),
    ensures
        replied(state_at(stream, events, j)),
        !(action_at(stream, events, j) is Reply),
    decreases j,
{
    if i < j {
        lemma_replied_stays(stream, events, i, (j - 1) as nat);
        assert(state_at(stream, events, (j - 1) as nat).awaits(events[j - 1]));
    }
    assert(state_at(stream, events, j).awaits(events[j as int]));
}

/// A client is answered at most once on a stream.
pub proof fn law_at_most_one_reply(node_id: Seq<char>, events: Seq<EventView>, i: int, j: int)
    requires
        in_step(StreamView::fresh(node_id), events),
        0 <= i < j < events.len(),
        actions(StreamView::fresh(node_id), events)[i] is Reply,
    ensures
        !(actions(StreamView::fresh(node_id), events)[j] is Reply),
{
    let stream = StreamView::fresh(node_id);
    assert(state_at(stream, events, i as nat).awaits(events[i]));
    let next = (i + 1) as nat;
    assert(replied(state_at(stream, events, next)));
    lemma_replied_stays(stream, events, next, j as nat);
}

/// Every answer carries the host's version, and an error message exactly if it
/// is a rejection.
pub proof fn law_replies_are_well_formed(node_id: Seq<char>, events: Seq<EventView>, i: int)
    requires
        in_step(StreamView::fresh(node_id), events),
        0 <= i < events.len(),
    ensures
        actions(StreamView::fresh(node_id), events)[i] matches ActionView::Reply(response)
            ==> response.well_formed(),
{
    assert(state_at(StreamView::fresh(node_id), events, i as nat).awaits(events[i]));
}

/// A stream concerns the agents only on behalf of a request of the host's
/// version with the host's token.
pub proof fn law_agents_need_admission(node_id: Seq<char>, events: Seq<EventView>, i: int)
    requires
        in_step(StreamView::fresh(node_id), events),
        0 <= i < events.len(),
        concerns_agents(actions(StreamView::fresh(node_id), events)[i]),
    ensures
        admitted(events),
{
    lemma_reached(node_id, events, i as nat);
    lemma_reached(node_id, events, (i + 1) as nat);
    assert(state_at(StreamView::fresh(node_id), events, i as nat).awaits(events[i]));
}

/// An agent is restarted, or a client attached to one, only if the agent is
/// enabled and is the one that the request is for.
pub proof fn law_only_enabled_agents(node_id: Seq<char>, events: Seq<EventView>, i: int)
    requires
        in_step(StreamView::fresh(node_id), events),
        0 <= i < events.len(),
    ensures
        actions(StreamView::fresh(node_id), events)[i] matches ActionView::RestartAgent { agent }
            ==> enabled(events) && events[0]->RequestRead_0 is RestartAgent && agent_of(
            events[0]->RequestRead_0,
        ) == Some(agent),
        actions(StreamView::fresh(node_id), events)[i] matches ActionView::FindAgent { agent }
            ==> enabled(events) && events[0]->RequestRead_0 is Connect && agent_of(
            events[0]->RequestRead_0,
        ) == Some(agent),
        actions(StreamView::fresh(node_id), events)[i] is Attach ==> enabled(events)
            && events[0]->RequestRead_0 is Connect,
        actions(StreamView::fresh(node_id), events)[i] matches ActionView::Serve { agent, .. }
            ==> enabled(events) && events[0]->RequestRead_0 is Connect && agent_of(
            events[0]->RequestRead_0,
        ) == Some(agent),
{
    lemma_reached(node_id, events, i as nat);
    assert(state_at(StreamView::fresh(node_id), events, i as nat).awaits(events[i]));
}

/// Sessions are keyed on the identity of the connection: no request can name
/// another. The cursor handed to the registry is the one of the resume hint.
pub proof fn law_sessions_are_keyed_on_the_connection(
    node_id: Seq<char>,
    events: Seq<EventView>,
    i: int,
)
    requires
        in_step(StreamView::fresh(node_id), events),
        0 <= i < events.len(),
    ensures
        actions(StreamView::fresh(node_id), events)[i] matches ActionView::Attach {
            node_id: key,
            agent_id,
            last_seen,
        } ==> {
            &&& key == node_id
            &&& events[3] == EventView::AgentFound(Some(agent_id))
            &&& last_seen == cursor_of(events[0]->RequestRead_0->resume)
        },
{
    lemma_reached(node_id, events, i as nat);
    assert(state_at(StreamView::fresh(node_id), events, i as nat).awaits(events[i]));
}

/// An agent takes a stream over only after the client was told what it was
/// attached to. Frames are replayed only into a resumed session, from the
/// cursor that the registry settled on; a fresh session and one that drifted
/// start with an empty backlog.
pub proof fn law_replay_only_when_resumed(node_id: Seq<char>, events: Seq<EventView>, i: int)
    requires
        in_step(StreamView::fresh(node_id), events),
        0 <= i < events.len(),
    ensures
        actions(StreamView::fresh(node_id), events)[i] matches ActionView::Serve {
            last_seen,
            ..
        } ==> {
            &&& i == 5
            &&& events[4] matches EventView::Attached(resolved)
            &&& events[5] is ReplyWritten
            &&& actions(StreamView::fresh(node_id), events)[4] == ActionView::Reply(
                ResponseView::attached(session_info_of(resolved)),
            )
            &&& resolved.kind == session::AttachKind::Resumed ==> last_seen
                == resolved.effective_last_seen
            &&& resolved.kind != session::AttachKind::Resumed ==> last_seen is None
        },
{
    let stream = StreamView::fresh(node_id);
    lemma_reached(node_id, events, i as nat);
    assert(state_at(stream, events, i as nat).awaits(events[i]));
    if actions(stream, events)[i] is Serve {
        lemma_reached(node_id, events, 4);
        assert(state_at(stream, events, 4).awaits(events[4]));
        assert(state_at(stream, events, 5) == state_at(stream, events, 4).next(events[4]).0);
    }
}

/// A finished stream whose reply was written, at the event `written`, sent
/// exactly that one reply. It ended `Completed` only if the reply was no
/// rejection, and was refused or failed to restart if it was one. The reply
/// carries a session exactly if the agent served the stream.
pub proof fn law_finished_streams_were_answered(
    node_id: Seq<char>,
    events: Seq<EventView>,
    written: int,
)
    requires
        in_step(StreamView::fresh(node_id), events),
        state_at(StreamView::fresh(node_id), events, events.len()).phase is Done,
        0 <= written < events.len(),
        events[written] is ReplyWritten,
    ensures
        events[0] is RequestRead,
        written > 0,
        forall|i: int|
            0 <= i < events.len() ==> ((#[trigger] actions(
                StreamView::fresh(node_id),
                events,
            )[i]) is Reply <==> i == written - 1),
        ({
            let done = actions(StreamView::fresh(node_id), events);
            let response = done[written - 1]->Reply_0;
            let outcome = done.last()->End_0;
            &&& done.last() is End
            &&& !response.ok <==> outcome is Refused || outcome is RestartFailed
            &&& response.ok <==> outcome is Completed || outcome is ServeFailed
            &&& response.session is Some <==> exists|i: int|
                0 <= i < done.len() && (#[trigger] done[i]) is Serve
        }),
{
    let stream = StreamView::fresh(node_id);
    let done = actions(stream, events);
    assert(state_at(stream, events, 0).awaits(events[0]));
    assert(state_at(stream, events, 1) == stream.next(events[0]).0);
    if events.len() > 1 {
        assert(state_at(stream, events, 1).awaits(events[1]));
    }
    assert(state_at(stream, events, written as nat).awaits(events[written]));
    let before = (written - 1) as nat;
    assert(state_at(stream, events, before).awaits(events[before as int]));
    assert(done[written - 1] is Reply);
    assert forall|i: int| 0 <= i < events.len() implies ((#[trigger] done[i]) is Reply <==> i
        == written - 1) by {
        if done[i] is Reply && i < written - 1 {
            law_at_most_one_reply(node_id, events, i, written - 1);
        }
        if i > written - 1 {
            law_at_most_one_reply(node_id, events, written - 1, i);
        }
    }
    law_streams_end_once(node_id, events);
    if state_at(stream, events, written as nat).phase is Opening {
        assert(done[written] is Serve);
        let next = (written + 1) as nat;
        assert(state_at(stream, events, next).phase is Serving);
        assert(next < events.len());
        assert(state_at(stream, events, next).awaits(events[next as int]));
        assert(done[next as int] is End);
    } else {
        assert(done[written] is End);
        assert forall|i: int| 0 <= i < done.len() implies !((#[trigger] done[i]) is Serve) by {
            law_replay_only_when_resumed(node_id, events, i);
            if done[i] is Serve {
                assert(done[4] is Reply);
            }
        }
    }
}

/// A finished stream that a request was read from was answered, unless a frame
/// could not be written: some event after the first is the reply going out.
pub proof fn law_finished_streams_wrote_their_reply(node_id: Seq<char>, events: Seq<EventView>)
    requires
        in_step(StreamView::fresh(node_id), events),
        state_at(StreamView::fresh(node_id), events, events.len()).phase is Done,
        events[0] is RequestRead,
        forall|i: int| 0 <= i < events.len() ==> !((#[trigger] events[i]) is IoFailed),
    ensures
        exists|written: int|
            0 < written < events.len() && (#[trigger] events[written]) is ReplyWritten,
{
    let stream = StreamView::fresh(node_id);
    let last = (events.len() - 1) as nat;
    assert(state_at(stream, events, last).awaits(events[last as int]));
    if state_at(stream, events, last).phase is Serving {
        let before = (last - 1) as nat;
        assert(state_at(stream, events, before).awaits(events[before as int]));
        assert(events[before as int] is ReplyWritten);
        lemma_reached(node_id, events, before);
    } else {
        assert(events[last as int] is ReplyWritten);
        lemma_reached(node_id, events, last);
    }
}

/// A frame that cannot be read or written is the end of a stream: nothing
/// follows it, the stream ends with that failure, and no agent serves it. No
/// stream ends so for another reason.
pub proof fn law_io_failure_ends_the_stream(node_id: Seq<char>, events: Seq<EventView>, i: int)
    requires
        in_step(StreamView::fresh(node_id), events),
        0 <= i < events.len(),
    ensures
        actions(StreamView::fresh(node_id), events)[i] == ActionView::End(OutcomeView::IoFailed)
            <==> events[i] is IoFailed,
        events[i] is IoFailed ==> i == events.len() - 1,
        events[i] is IoFailed ==> forall|j: int|
            0 <= j < events.len() ==> !((#[trigger] actions(
                StreamView::fresh(node_id),
                events,
            )[j]) is Serve),
{
    let stream = StreamView::fresh(node_id);
    let done = actions(stream, events);
    assert(state_at(stream, events, i as nat).awaits(events[i]));
    if i > 0 {
        let before = (i - 1) as nat;
        assert(state_at(stream, events, before).awaits(events[before as int]));
    }
    law_streams_end_once(node_id, events);
    if events[i] is IoFailed {
        assert(done[i] is End);
        assert forall|j: int| 0 <= j < events.len() implies !((#[trigger] done[j]) is Serve) by {
            law_replay_only_when_resumed(node_id, events, j);
            if done[j] is Serve {
                lemma_reached(node_id, events, i as nat);
                lemma_reached(node_id, events, 5);
                assert(state_at(stream, events, 5).awaits(events[5]));
                let served = state_at(stream, events, 5).next(events[5]).0;
                assert(state_at(stream, events, 6) == served);
            }
        }
    }
}

/// A request of another protocol version is answered with the mismatch and
/// with nothing else, whether or not its token is right. The stream is refused
/// with the mismatch, unless the answer cannot be written.
pub proof fn law_version_mismatch_is_refused(
    node_id: Seq<char>,
    request: RequestView,
    events: Seq<EventView>,
)
    requires
        request.version() != PROTOCOL_VERSION,
        in_step(StreamView::fresh(node_id), events),
        events.len() > 0,
        events[0] == EventView::RequestRead(request),
    ensures
        ({
            let done = actions(StreamView::fresh(node_id), events);
            let message = host::mismatch_text(request.version());
            &&& events.len() <= 2
            &&& done[0] == ActionView::Reply(ResponseView::rejected(message))
            &&& events.len() == 2 && events[1] is ReplyWritten ==> done[1] == ActionView::End(
                OutcomeView::Refused { reason: message },
            )
            &&& events.len() == 2 && !(events[1] is ReplyWritten) ==> done[1] == ActionView::End(
                OutcomeView::IoFailed,
            )
        }),
{
    let stream = StreamView::fresh(node_id);
    reveal_with_fuel(state_at, 3);
    if events.len() >= 2 {
        assert(state_at(stream, events, 1).awaits(events[1]));
    }
    if events.len() >= 3 {
        assert(state_at(stream, events, 2).awaits(events[2]));
    }
}

/// A request with another token than the host's is answered `invalid token`
/// and nothing else. The stream is refused with that, unless the answer cannot
/// be written.
pub proof fn law_invalid_token_is_refused(
    node_id: Seq<char>,
    request: RequestView,
    token: Seq<char>,
    events: Seq<EventView>,
)
    requires
        request.version() == PROTOCOL_VERSION,
        request.token() != token,
        in_step(StreamView::fresh(node_id), events),
        events.len() > 1,
        events[0] == EventView::RequestRead(request),
        events[1] == EventView::TokenLoaded(token),
    ensures
        ({
            let done = actions(StreamView::fresh(node_id), events);
            &&& events.len() <= 3
            &&& done[0] == ActionView::LoadToken
            &&& done[1] == ActionView::Reply(ResponseView::rejected("invalid token"@))
            &&& events.len() == 3 && events[2] is ReplyWritten ==> done[2] == ActionView::End(
                OutcomeView::Refused { reason: "invalid token"@ },
            )
            &&& events.len() == 3 && !(events[2] is ReplyWritten) ==> done[2] == ActionView::End(
                OutcomeView::IoFailed,
            )
        }),
{
    let stream = StreamView::fresh(node_id);
    reveal_with_fuel(state_at, 4);
    if events.len() >= 3 {
        assert(state_at(stream, events, 2).awaits(events[2]));
    }
    if events.len() >= 4 {
        assert(state_at(stream, events, 3).awaits(events[3]));
    }
}

/// A stream that passes through the given phases, one for each event, is in
/// step, and asks for what those phases ask for.
proof fn lemma_script(stream: StreamView, events: Seq<EventView>, phases: Seq<PhaseView>)
    requires
        events.len() == phases.len(),
        events.len() > 0,
        phases[0] == stream.phase,
        forall|i: int|
            0 <= i < events.len() ==> stream.at(#[trigger] phases[i]).awaits(events[i]),
        forall|i: int|
            0 < i < events.len() ==> stream.at(#[trigger] phases[i]) == stream.at(
                phases[i - 1],
            ).next(events[i - 1]).0,
    ensures
        in_step(stream, events),
        actions(stream, events) == Seq::new(
            events.len(),
            |i: int| stream.at(phases[i]).next(events[i]).1,
        ),
{
    assert forall|i: nat| i < events.len() implies #[trigger] state_at(stream, events, i)
        == stream.at(phases[i as int]) by {
        lemma_script_state(stream, events, phases, i);
    }
}

proof fn lemma_script_state(
    stream: StreamView,
    events: Seq<EventView>,
    phases: Seq<PhaseView>,
    i: nat,
)
    requires
        i < phases.len(),
        phases[0] == stream.phase,
        forall|j: int|
            0 < j < phases.len() ==> stream.at(#[trigger] phases[j]) == stream.at(
                phases[j - 1],
            ).next(events[j - 1]).0,
    ensures
        state_at(stream, events, i) == stream.at(phases[i as int]),
    decreases i,
{
    if i > 0 {
        lemma_script_state(stream, events, phases, (i - 1) as nat);
    }
}

/// An admissible request for the agents is answered with the list of them.
pub proof fn law_listing(
    node_id: Seq<char>,
    request: RequestView,
    token: Seq<char>,
    agents: Seq<AgentInfo>,
    events: Seq<EventView>,
)
    requires
        host::admissible(request, token),
        request is ListAgents,
        events == seq![
            EventView::RequestRead(request),
            EventView::TokenLoaded(token),
            EventView::AgentsListed(agents),
            EventView::ReplyWritten,
        ],
    ensures
        in_step(StreamView::fresh(node_id), events),
        actions(StreamView::fresh(node_id), events) == seq![
            ActionView::LoadToken,
            ActionView::ListAgents,
            ActionView::Reply(ResponseView::listing(agents)),
            ActionView::End(OutcomeView::Completed),
        ],
{
    let phases = seq![
        PhaseView::Request,
        PhaseView::Token { request },
        PhaseView::Listing,
        PhaseView::Closing { outcome: OutcomeView::Completed },
    ];
    lemma_script(StreamView::fresh(node_id), events, phases);
}

/// An admissible request for an agent that is not enabled is answered with just
/// that, and the stream is refused.
pub proof fn law_disabled_agent_is_refused(
    node_id: Seq<char>,
    request: RequestView,
    token: Seq<char>,
    agent: Seq<char>,
    events: Seq<EventView>,
)
    requires
        host::admissible(request, token),
        agent_of(request) == Some(agent),
        events == seq![
            EventView::RequestRead(request),
            EventView::TokenLoaded(token),
            EventView::EnabledChecked(false),
            EventView::ReplyWritten,
        ],
    ensures
        in_step(StreamView::fresh(node_id), events),
        actions(StreamView::fresh(node_id), events) == seq![
            ActionView::LoadToken,
            ActionView::CheckEnabled { agent },
            ActionView::Reply(ResponseView::rejected(disabled_text(agent))),
            ActionView::End(OutcomeView::Refused { reason: disabled_reason(agent) }),
        ],
{
    let phases = seq![
        PhaseView::Request,
        PhaseView::Token { request },
        StreamView::fresh(node_id).dispatch(request).0.phase,
        PhaseView::Closing { outcome: OutcomeView::Refused { reason: disabled_reason(agent) } },
    ];
    lemma_script(StreamView::fresh(node_id), events, phases);
}

/// An admissible request to connect to an agent without a canonical id is
/// answered with just that, and the stream is refused.
pub proof fn law_unknown_agent_is_refused(
    node_id: Seq<char>,
    request: RequestView,
    token: Seq<char>,
    agent: Seq<char>,
    events: Seq<EventView>,
)
    requires
        host::admissible(request, token),
        request is Connect,
        agent_of(request) == Some(agent),
        events == seq![
            EventView::RequestRead(request),
            EventView::TokenLoaded(token),
            EventView::EnabledChecked(true),
            EventView::AgentFound(None),
            EventView::ReplyWritten,
        ],
    ensures
        in_step(StreamView::fresh(node_id), events),
        actions(StreamView::fresh(node_id), events) == seq![
            ActionView::LoadToken,
            ActionView::CheckEnabled { agent },
            ActionView::FindAgent { agent },
            ActionView::Reply(ResponseView::rejected(unknown_text(agent))),
            ActionView::End(OutcomeView::Refused { reason: unknown_reason(agent) }),
        ],
{
    let phases = seq![
        PhaseView::Request,
        PhaseView::Token { request },
        PhaseView::ConnectGate { agent, resume: request->resume },
        PhaseView::Lookup { agent, resume: request->resume },
        PhaseView::Closing { outcome: OutcomeView::Refused { reason: unknown_reason(agent) } },
    ];
    lemma_script(StreamView::fresh(node_id), events, phases);
}

/// An admissible request to restart an enabled agent restarts it and is
/// acknowledged.
pub proof fn law_restart(
    node_id: Seq<char>,
    request: RequestView,
    token: Seq<char>,
    agent: Seq<char>,
    events: Seq<EventView>,
)
    requires
        host::admissible(request, token),
        request is RestartAgent,
        agent_of(request) == Some(agent),
        events == seq![
            EventView::RequestRead(request),
            EventView::TokenLoaded(token),
            EventView::EnabledChecked(true),
            EventView::Restarted,
            EventView::ReplyWritten,
        ],
    ensures
        in_step(StreamView::fresh(node_id), events),
        actions(StreamView::fresh(node_id), events) == seq![
            ActionView::LoadToken,
            ActionView::CheckEnabled { agent },
            ActionView::RestartAgent { agent },
            ActionView::Reply(ResponseView::acknowledged()),
            ActionView::End(OutcomeView::Completed),
        ],
{
    let phases = seq![
        PhaseView::Request,
        PhaseView::Token { request },
        PhaseView::RestartGate { agent },
        PhaseView::Restarting,
        PhaseView::Closing { outcome: OutcomeView::Completed },
    ];
    lemma_script(StreamView::fresh(node_id), events, phases);
}

/// A restart that fails is answered with its error, which is the stream's too.
pub proof fn law_failed_restart_is_reported(
    node_id: Seq<char>,
    request: RequestView,
    token: Seq<char>,
    agent: Seq<char>,
    error: Seq<char>,
    events: Seq<EventView>,
)
    requires
        host::admissible(request, token),
        request is RestartAgent,
        agent_of(request) == Some(agent),
        events == seq![
            EventView::RequestRead(request),
            EventView::TokenLoaded(token),
            EventView::EnabledChecked(true),
            EventView::RestartFailed(error),
            EventView::ReplyWritten,
        ],
    ensures
        in_step(StreamView::fresh(node_id), events),
        actions(StreamView::fresh(node_id), events) == seq![
            ActionView::LoadToken,
            ActionView::CheckEnabled { agent },
            ActionView::RestartAgent { agent },
            ActionView::Reply(ResponseView::rejected(error)),
            ActionView::End(OutcomeView::RestartFailed),
        ],
{
    let phases = seq![
        PhaseView::Request,
        PhaseView::Token { request },
        PhaseView::RestartGate { agent },
        PhaseView::Restarting,
        PhaseView::Closing { outcome: OutcomeView::RestartFailed },
    ];
    lemma_script(StreamView::fresh(node_id), events, phases);
}

/// The phases of a stream that an agent serves.
spec fn connect_phases(
    request: RequestView,
    agent: Seq<char>,
    resolved: session::ResolvedAttach,
) -> Seq<PhaseView> {
    seq![
        PhaseView::Request,
        PhaseView::Token { request },
        PhaseView::ConnectGate { agent, resume: request->resume },
        PhaseView::Lookup { agent, resume: request->resume },
        PhaseView::Attaching { agent },
        PhaseView::Opening { agent, last_seen: replay_cursor(resolved) },
        PhaseView::Serving { agent },
    ]
}

/// An admissible request to connect to an enabled agent attaches the client to
/// its session, tells it so, and hands the stream to the agent.
pub proof fn law_connect(
    node_id: Seq<char>,
    request: RequestView,
    token: Seq<char>,
    agent: Seq<char>,
    agent_id: Seq<char>,
    resolved: session::ResolvedAttach,
    events: Seq<EventView>,
)
    requires
        host::admissible(request, token),
        request is Connect,
        agent_of(request) == Some(agent),
        events == seq![
            EventView::RequestRead(request),
            EventView::TokenLoaded(token),
            EventView::EnabledChecked(true),
            EventView::AgentFound(Some(agent_id)),
            EventView::Attached(resolved),
            EventView::ReplyWritten,
            EventView::Served,
        ],
    ensures
        in_step(StreamView::fresh(node_id), events),
        actions(StreamView::fresh(node_id), events) == seq![
            ActionView::LoadToken,
            ActionView::CheckEnabled { agent },
            ActionView::FindAgent { agent },
            ActionView::Attach { node_id, agent_id, last_seen: cursor_of(request->resume) },
            ActionView::Reply(ResponseView::attached(session_info_of(resolved))),
            ActionView::Serve { agent, last_seen: replay_cursor(resolved) },
            ActionView::End(OutcomeView::Completed),
        ],
{
    lemma_script(
        StreamView::fresh(node_id),
        events,
        connect_phases(request, agent, resolved),
    );
}

/// If the agent ends with an error, the stream ends with it, and the agent is
/// named. Nothing more is written to the client.
pub proof fn law_failed_agent_is_reported(
    node_id: Seq<char>,
    request: RequestView,
    token: Seq<char>,
    agent: Seq<char>,
    agent_id: Seq<char>,
    resolved: session::ResolvedAttach,
    events: Seq<EventView>,
)
    requires
        host::admissible(request, token),
        request is Connect,
        agent_of(request) == Some(agent),
        events == seq![
            EventView::RequestRead(request),
            EventView::TokenLoaded(token),
            EventView::EnabledChecked(true),
            EventView::AgentFound(Some(agent_id)),
            EventView::Attached(resolved),
            EventView::ReplyWritten,
            EventView::ServeFailed,
        ],
    ensures
        in_step(StreamView::fresh(node_id), events),
        actions(StreamView::fresh(node_id), events) == seq![
            ActionView::LoadToken,
            ActionView::CheckEnabled { agent },
            ActionView::FindAgent { agent },
            ActionView::Attach { node_id, agent_id, last_seen: cursor_of(request->resume) },
            ActionView::Reply(ResponseView::attached(session_info_of(resolved))),
            ActionView::Serve { agent, last_seen: replay_cursor(resolved) },
            ActionView::End(OutcomeView::ServeFailed { context: serving_text(agent) }),
        ],
{
    lemma_script(
        StreamView::fresh(node_id),
        events,
        connect_phases(request, agent, resolved),
    );
}

/// Whether an event can come of an action.
pub open spec fn answers(action: ActionView, event: EventView) -> bool {
    match action {
        ActionView::ReadRequest => event is RequestRead || event is IoFailed,
        ActionView::LoadToken => event is TokenLoaded,
        ActionView::ListAgents => event is AgentsListed,
        ActionView::CheckEnabled { .. } => event is EnabledChecked,
        ActionView::RestartAgent { .. } => event is Restarted || event is RestartFailed,
        ActionView::FindAgent { .. } => event is AgentFound,
        ActionView::Attach { .. } => event is Attached,
        ActionView::Reply(_) => event is ReplyWritten || event is IoFailed,
        ActionView::Serve { .. } => event is Served || event is ServeFailed,
        ActionView::End(_) => false,
    }
}

/// A stream takes whatever can come of what it asked for last, and nothing
/// else. It begins by asking for the request.
pub proof fn law_streams_take_what_they_asked_for(
    node_id: Seq<char>,
    events: Seq<EventView>,
    i: nat,
    answer: EventView,
)
    requires
        in_step(StreamView::fresh(node_id), events),
        i <= events.len(),
    ensures
        state_at(StreamView::fresh(node_id), events, i).awaits(answer) <==> answers(
            if i == 0 {
                ActionView::ReadRequest
            } else {
                actions(StreamView::fresh(node_id), events)[i - 1]
            },
            answer,
        ),
{
    if i > 0 {
        assert(state_at(StreamView::fresh(node_id), events, (i - 1) as nat).awaits(events[i - 1]));
    }
}

/// An attached client is told the session that the registry attached it to: the
/// kind of attachment by its own name, and the registry's sequence numbers.
pub proof fn law_attached_client_is_told_its_session(
    node_id: Seq<char>,
    events: Seq<EventView>,
    i: int,
    resolved: session::ResolvedAttach,
)
    requires
        in_step(StreamView::fresh(node_id), events),
        0 <= i < events.len(),
        events[i] == EventView::Attached(resolved),
    ensures
        ({
            &&& actions(StreamView::fresh(node_id), events)[i] matches ActionView::Reply(response)
            &&& response.v == 1
            &&& response.ok
            &&& response.agents is None
            &&& response.error is None
            &&& response.session matches Some(info)
            &&& info.current_seq == resolved.current_seq
            &&& info.floor_seq == resolved.floor_seq
            &&& info.attached == AttachKind::Fresh <==> resolved.kind == session::AttachKind::Fresh
            &&& info.attached == AttachKind::Resumed <==> resolved.kind
                == session::AttachKind::Resumed
            &&& info.attached == AttachKind::DriftReload <==> resolved.kind
                == session::AttachKind::DriftReload
        }),
{
    assert(state_at(StreamView::fresh(node_id), events, i as nat).awaits(events[i]));
}

/// The registry is handed the sequence number that the client's own request
/// names, whatever the number, and none where the request has no resume hint.
pub proof fn law_resume_hint_reaches_the_registry(
    node_id: Seq<char>,
    events: Seq<EventView>,
    i: int,
)
    requires
        in_step(StreamView::fresh(node_id), events),
        0 <= i < events.len(),
    ensures
        actions(StreamView::fresh(node_id), events)[i] matches ActionView::Attach {
            last_seen,
            ..
        } ==> {
            &&& events[0] matches EventView::RequestRead(RequestView::Connect { resume, .. })
            &&& resume matches Some(Resume { last_seq }) ==> last_seen == Some(last_seq)
            &&& resume is None ==> last_seen is None
        },
{
    lemma_reached(node_id, events, i as nat);
    assert(state_at(StreamView::fresh(node_id), events, i as nat).awaits(events[i]));
}

/// What a client is told and what its agent replays agree with the registry and
/// with each other: a cursor is handed on only with a client that is told that
/// its session was resumed, and it is the registry's.
pub proof fn law_replay_agrees_with_what_is_told(
    resolved: session::ResolvedAttach,
    info: SessionInfo,
    last_seen: Option<u64>,
)
    requires
        call_ensures(session_info, (&resolved,), info),
        call_ensures(dispatch_last_seen, (&resolved,), last_seen),
    ensures
        info.current_seq == resolved.current_seq,
        info.floor_seq == resolved.floor_seq,
        info.attached is Fresh <==> resolved.kind is Fresh,
        info.attached is Resumed <==> resolved.kind is Resumed,
        info.attached is DriftReload <==> resolved.kind is DriftReload,
        info.attached is Resumed ==> last_seen == resolved.effective_last_seen,
        !(info.attached is Resumed) ==> last_seen is None,
{
}

} // verus!
