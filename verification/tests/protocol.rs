use alleycat::protocol::{
    AgentCapabilities, AgentInfo, AgentPresentation, AgentWire, AttachKind, Request, Response,
    Resume, SessionInfo, ALLEYCAT_ALPN, PROTOCOL_VERSION,
};
use alleycat::session;

fn agent(name: &str) -> AgentInfo {
    AgentInfo {
        name: name.to_string(),
        display_name: name.to_uppercase(),
        wire: AgentWire::Jsonl,
        available: true,
        presentation: Some(AgentPresentation::default()),
        capabilities: Some(AgentCapabilities::default()),
    }
}

#[test]
fn alpn_and_version() {
    assert_eq!(&ALLEYCAT_ALPN, b"alleycat/1");
    assert_eq!(PROTOCOL_VERSION, 1);
}

#[test]
fn wire_names() {
    assert_eq!(AgentWire::Websocket.as_str(), "websocket");
    assert_eq!(AgentWire::Jsonl.as_str(), "jsonl");
    assert_ne!(AgentWire::Websocket.as_str(), AgentWire::Jsonl.as_str());
}

#[test]
fn request_accessors_cover_every_variant() {
    let requests = [
        Request::ListAgents {
            v: 3,
            token: "a".to_string(),
        },
        Request::RestartAgent {
            v: 4,
            token: "b".to_string(),
            agent: "pi".to_string(),
        },
        Request::Connect {
            v: 5,
            token: "c".to_string(),
            agent: "pi".to_string(),
            resume: Some(Resume { last_seq: 9 }),
        },
    ];
    let read: Vec<(u32, &str)> = requests.iter().map(|r| (r.version(), r.token())).collect();
    assert_eq!(read, vec![(3, "a"), (4, "b"), (5, "c")]);
}

#[test]
fn responses_carry_their_payload_only() {
    let ok = Response::ok();
    assert!(ok.ok && ok.v == 1 && ok.agents.is_none() && ok.session.is_none());
    assert_eq!(ok.error, None);

    let info = SessionInfo {
        attached: AttachKind::Resumed,
        current_seq: 12,
        floor_seq: 3,
    };
    let attached = Response::ok_with_session(info.clone());
    assert!(attached.ok && attached.v == 1 && attached.agents.is_none());
    assert_eq!(attached.session, Some(info));
    assert_eq!(attached.error, None);

    let listing = Response::agents(vec![agent("pi"), agent("amp")]);
    assert!(listing.ok && listing.v == 1 && listing.session.is_none());
    assert_eq!(listing.agents, Some(vec![agent("pi"), agent("amp")]));
    assert_eq!(listing.error, None);
}

#[test]
fn errors_take_any_text() {
    for rejected in [Response::error("no"), Response::error("no".to_string())] {
        assert!(!rejected.ok && rejected.v == 1);
        assert!(rejected.agents.is_none() && rejected.session.is_none());
        assert_eq!(rejected.error.as_deref(), Some("no"));
    }
}

#[test]
fn attach_kinds_map_one_to_one() {
    assert_eq!(
        AttachKind::from(session::AttachKind::Fresh),
        AttachKind::Fresh
    );
    assert_eq!(
        AttachKind::from(session::AttachKind::Resumed),
        AttachKind::Resumed
    );
    assert_eq!(
        AttachKind::from(session::AttachKind::DriftReload),
        AttachKind::DriftReload
    );
}

#[test]
fn defaults_are_neutral() {
    let presentation = AgentPresentation::default();
    assert_eq!(presentation.title, None);
    assert!(!presentation.is_beta);
    assert_eq!(presentation.sort_order, 0);
    assert_eq!(presentation.description, None);
    assert!(presentation.aliases.is_empty());

    let capabilities = AgentCapabilities::default();
    assert!(!capabilities.locks_reasoning_effort_after_activity);
    assert_eq!(capabilities.visible_modes, None);
    assert!(!capabilities.supports_ssh_bridge);
    assert!(!capabilities.uses_direct_codex_port);
    assert!(!capabilities.supports_thread_permission_overrides);
    assert!(!capabilities.reports_effective_thread_permissions);
}
