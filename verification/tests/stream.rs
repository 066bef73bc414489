use alleycat::protocol::{
    AgentInfo, AgentWire, AttachKind, Request, Response, Resume, SessionInfo, PROTOCOL_VERSION,
};
use alleycat::session;
use alleycat::stream::{
    dispatch_last_seen, session_info, Action, Event, Outcome, Stream,
};

/// Feeds the events to a stream from `peer` and returns what it asks for, in
/// its debug form.
fn run(events: Vec<Event>) -> Vec<String> {
    let (mut stream, first) = Stream::start("peer".to_string());
    let mut asked = vec![format!("{first:?}")];
    for event in events {
        assert!(stream.awaits(&event), "{stream:?} does not await {event:?}");
        let (next, action) = stream.step(event);
        asked.push(format!("{action:?}"));
        stream = next;
    }
    asked
}

fn debug(actions: Vec<Action>) -> Vec<String> {
    actions.iter().map(|action| format!("{action:?}")).collect()
}

fn connect(token: &str, resume: Option<Resume>) -> Event {
    Event::RequestRead(Request::Connect {
        v: PROTOCOL_VERSION,
        token: token.to_string(),
        agent: "codex".to_string(),
        resume,
    })
}

fn restart() -> Event {
    Event::RequestRead(Request::RestartAgent {
        v: PROTOCOL_VERSION,
        token: "secret".to_string(),
        agent: "amp".to_string(),
    })
}

fn token() -> Event {
    Event::TokenLoaded("secret".to_string())
}

fn resolved(kind: session::AttachKind) -> session::ResolvedAttach {
    session::ResolvedAttach {
        kind,
        current_seq: 40,
        floor_seq: 10,
        effective_last_seen: Some(25),
    }
}

fn refused(reason: &str) -> Action {
    Action::End(Outcome::Refused {
        reason: reason.to_string(),
    })
}

#[test]
fn other_versions_are_refused_before_the_token_is_looked_at() {
    let request = Request::ListAgents {
        v: 2,
        token: "secret".to_string(),
    };
    let message = "protocol mismatch: client=2 host=1";
    assert_eq!(
        run(vec![Event::RequestRead(request), Event::ReplyWritten]),
        debug(vec![
            Action::ReadRequest,
            Action::Reply(Response::error(message)),
            refused(message),
        ])
    );
}

#[test]
fn invalid_tokens_are_refused() {
    assert_eq!(
        run(vec![connect("wrong", None), token(), Event::ReplyWritten]),
        debug(vec![
            Action::ReadRequest,
            Action::LoadToken,
            Action::Reply(Response::error("invalid token")),
            refused("invalid token"),
        ])
    );
}

#[test]
fn agents_are_listed() {
    let agent = || AgentInfo {
        name: "pi".to_string(),
        display_name: "Pi".to_string(),
        wire: AgentWire::Websocket,
        available: false,
        presentation: None,
        capabilities: None,
    };
    let request = Request::ListAgents {
        v: PROTOCOL_VERSION,
        token: "secret".to_string(),
    };
    assert_eq!(
        run(vec![
            Event::RequestRead(request),
            token(),
            Event::AgentsListed(vec![agent()]),
            Event::ReplyWritten,
        ]),
        debug(vec![
            Action::ReadRequest,
            Action::LoadToken,
            Action::ListAgents,
            Action::Reply(Response::agents(vec![agent()])),
            Action::End(Outcome::Completed),
        ])
    );
}

#[test]
fn enabled_agents_are_restarted() {
    assert_eq!(
        run(vec![
            restart(),
            token(),
            Event::EnabledChecked(true),
            Event::Restarted,
            Event::ReplyWritten,
        ]),
        debug(vec![
            Action::ReadRequest,
            Action::LoadToken,
            Action::CheckEnabled {
                agent: "amp".to_string()
            },
            Action::RestartAgent {
                agent: "amp".to_string()
            },
            Action::Reply(Response::ok()),
            Action::End(Outcome::Completed),
        ])
    );
}

#[test]
fn failed_restarts_are_reported() {
    let asked = run(vec![
        restart(),
        token(),
        Event::EnabledChecked(true),
        Event::RestartFailed("spawn failed".to_string()),
        Event::ReplyWritten,
    ]);
    assert_eq!(
        asked[4..],
        debug(vec![
            Action::Reply(Response::error("spawn failed")),
            Action::End(Outcome::RestartFailed),
        ])
    );
}

#[test]
fn disabled_agents_are_refused() {
    let asked = run(vec![
        restart(),
        token(),
        Event::EnabledChecked(false),
        Event::ReplyWritten,
    ]);
    assert_eq!(
        asked[3..],
        debug(vec![
            Action::Reply(Response::error("agent `amp` is disabled or unknown")),
            refused("agent disabled or unknown: amp"),
        ])
    );

    let asked = run(vec![
        connect("secret", None),
        token(),
        Event::EnabledChecked(false),
        Event::ReplyWritten,
    ]);
    assert_eq!(
        asked[3..],
        debug(vec![
            Action::Reply(Response::error("agent `codex` is disabled or unknown")),
            refused("agent disabled or unknown: codex"),
        ])
    );
}

#[test]
fn unknown_agents_are_refused() {
    let asked = run(vec![
        connect("secret", None),
        token(),
        Event::EnabledChecked(true),
        Event::AgentFound(None),
        Event::ReplyWritten,
    ]);
    assert_eq!(
        asked[4..],
        debug(vec![
            Action::Reply(Response::error("agent `codex` is unknown")),
            refused("unknown agent: codex"),
        ])
    );
}

#[test]
fn connecting_attaches_replies_and_serves() {
    assert_eq!(
        run(vec![
            connect("secret", Some(Resume { last_seq: 24 })),
            token(),
            Event::EnabledChecked(true),
            Event::AgentFound(Some("codex-id".to_string())),
            Event::Attached(resolved(session::AttachKind::Resumed)),
            Event::ReplyWritten,
            Event::Served,
        ]),
        debug(vec![
            Action::ReadRequest,
            Action::LoadToken,
            Action::CheckEnabled {
                agent: "codex".to_string()
            },
            Action::FindAgent {
                agent: "codex".to_string()
            },
            Action::Attach {
                node_id: "peer".to_string(),
                agent_id: "codex-id".to_string(),
                last_seen: Some(24),
            },
            Action::Reply(Response::ok_with_session(SessionInfo {
                attached: AttachKind::Resumed,
                current_seq: 40,
                floor_seq: 10,
            })),
            Action::Serve {
                agent: "codex".to_string(),
                last_seen: Some(25),
            },
            Action::End(Outcome::Completed),
        ])
    );
}

#[test]
fn drifted_and_fresh_sessions_replay_nothing() {
    for kind in [session::AttachKind::Fresh, session::AttachKind::DriftReload] {
        let asked = run(vec![
            connect("secret", None),
            token(),
            Event::EnabledChecked(true),
            Event::AgentFound(Some("codex".to_string())),
            Event::Attached(resolved(kind)),
            Event::ReplyWritten,
            Event::ServeFailed,
        ]);
        assert_eq!(
            asked[4],
            format!(
                "{:?}",
                Action::Attach {
                    node_id: "peer".to_string(),
                    agent_id: "codex".to_string(),
                    last_seen: None,
                }
            )
        );
        assert_eq!(
            asked[6..],
            debug(vec![
                Action::Serve {
                    agent: "codex".to_string(),
                    last_seen: None,
                },
                Action::End(Outcome::ServeFailed {
                    context: "serving agent `codex`".to_string()
                }),
            ])
        );
        assert_eq!(dispatch_last_seen(&resolved(kind)), None);
        assert_eq!(session_info(&resolved(kind)).attached, AttachKind::from(kind));
    }
}

#[test]
fn io_failures_end_the_stream() {
    let failed = format!("{:?}", Action::End(Outcome::IoFailed));
    assert_eq!(run(vec![Event::IoFailed])[1], failed);
    assert_eq!(
        run(vec![connect("wrong", None), token(), Event::IoFailed])[3],
        failed
    );
    let asked = run(vec![
        connect("secret", None),
        token(),
        Event::EnabledChecked(true),
        Event::AgentFound(Some("codex".to_string())),
        Event::Attached(resolved(session::AttachKind::Fresh)),
        Event::IoFailed,
    ]);
    assert_eq!(asked[6], failed);
    assert!(!asked.iter().any(|action| action.starts_with("Serve")));
}

#[test]
fn finished_streams_await_nothing() {
    let (stream, _) = Stream::start("peer".to_string());
    assert!(!stream.awaits(&Event::ReplyWritten));
    let (done, _) = stream.step(Event::IoFailed);
    for event in [
        connect("secret", None),
        token(),
        Event::ReplyWritten,
        Event::Served,
        Event::IoFailed,
    ] {
        assert!(!done.awaits(&event));
    }
}

#[test]
fn finished_streams_were_answered_once() {
    let connected = || {
        vec![
            connect("secret", None),
            token(),
            Event::EnabledChecked(true),
            Event::AgentFound(Some("codex".to_string())),
            Event::Attached(resolved(session::AttachKind::Fresh)),
            Event::ReplyWritten,
        ]
    };
    let mut served = connected();
    served.push(Event::Served);
    let mut failed = connected();
    failed.push(Event::ServeFailed);
    let refused = vec![connect("wrong", None), token(), Event::ReplyWritten];
    for (events, ok, session) in [
        (served, true, true),
        (failed, true, true),
        (refused, false, false),
    ] {
        let asked = run(events);
        let replies: Vec<&String> = asked.iter().filter(|a| a.starts_with("Reply")).collect();
        assert_eq!(replies.len(), 1);
        assert_eq!(replies[0].contains("ok: true"), ok);
        assert_eq!(replies[0].contains("session: Some"), session);
        assert_eq!(asked.iter().any(|a| a.starts_with("Serve")), session);
        let ends_refused = asked.last().unwrap().starts_with("End(Refused");
        assert_eq!(ends_refused, !ok);
    }
}
