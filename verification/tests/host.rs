use alleycat::host::{
    assemble_pair_payload, direct_addresses_from_endpoint_addr, endpoint_direct_addresses,
    endpoint_home_relay, first_relay, home_relay_from_endpoint_addr, host_name_from_system,
    local_host_name, pair_payload, validate_token, validate_version, HostConfig,
};
use alleycat::protocol::{Request, PROTOCOL_VERSION};

#[test]
fn pair_payload_uses_stable_node_id_and_token() {
    let secret_key = iroh::SecretKey::generate();
    let config = HostConfig {
        token: "token-1".to_string(),
        relay: Some("https://relay.example".to_string()),
    };

    let payload = pair_payload(&secret_key.to_bytes(), &config, None);

    assert_eq!(payload.v, PROTOCOL_VERSION);
    assert_eq!(payload.node_id, secret_key.public().to_string());
    assert_eq!(payload.token, "token-1");
    assert_eq!(payload.relay.as_deref(), Some("https://relay.example"));
    assert!(payload.direct_addresses.is_empty());
    assert!(payload
        .host_name
        .as_deref()
        .is_some_and(|name| !name.is_empty()));
}

#[test]
fn direct_addresses_from_endpoint_addr_ignores_relay_urls() {
    let id = iroh::SecretKey::generate().public();
    let addr = iroh::EndpointAddr::new(id)
        .with_relay_url("https://relay.example".parse().expect("relay"))
        .with_ip_addr("10.255.215.120:63961".parse().expect("socket"));

    let direct_addresses = direct_addresses_from_endpoint_addr(&addr);

    assert_eq!(direct_addresses, vec!["10.255.215.120:63961"]);
}

#[test]
fn first_frame_auth_accepts_matching_token() {
    let request = Request::Connect {
        v: PROTOCOL_VERSION,
        token: "secret".to_string(),
        agent: "codex".to_string(),
        resume: None,
    };

    validate_version(&request).unwrap();
    validate_token(&request, "secret").unwrap();
}

#[test]
fn first_frame_auth_rejects_protocol_mismatch() {
    let request = Request::ListAgents {
        v: PROTOCOL_VERSION + 1,
        token: "secret".to_string(),
    };

    let err = validate_version(&request).unwrap_err();
    assert!(err.contains("protocol mismatch"));
}

#[test]
fn first_frame_auth_rejects_invalid_token() {
    let request = Request::ListAgents {
        v: PROTOCOL_VERSION,
        token: "wrong".to_string(),
    };

    validate_version(&request).unwrap();
    assert_eq!(
        validate_token(&request, "secret").unwrap_err(),
        "invalid token"
    );
}

#[test]
fn protocol_mismatch_names_both_versions() {
    for v in [0, 2, 9, 10, 4_294_967_295u32] {
        let request = Request::RestartAgent {
            v,
            token: String::new(),
            agent: String::new(),
        };
        assert_eq!(
            validate_version(&request).unwrap_err(),
            format!("protocol mismatch: client={v} host=1")
        );
    }
}

#[test]
fn token_is_compared_exactly() {
    let request = Request::ListAgents {
        v: 7,
        token: "secret".to_string(),
    };
    assert!(validate_token(&request, "secret").is_ok());
    for other in ["", "secre", "secret ", "Secret", "secret\u{301}"] {
        assert!(validate_token(&request, other).is_err());
    }
}

#[test]
fn node_id_is_the_public_key_in_lowercase_hex() {
    let config = HostConfig {
        token: String::new(),
        relay: None,
    };
    // RFC 8032, section 7.1, test 1.
    let secret: [u8; 32] = [
        0x9d, 0x61, 0xb1, 0x9d, 0xef, 0xfd, 0x5a, 0x60, 0xba, 0x84, 0x4a, 0xf4, 0x92, 0xec, 0x2c,
        0xc4, 0x44, 0x49, 0xc5, 0x69, 0x7b, 0x32, 0x69, 0x19, 0x70, 0x3b, 0xac, 0x03, 0x1c, 0xae,
        0x7f, 0x60,
    ];
    let payload = pair_payload(&secret, &config, None);
    assert_eq!(
        payload.node_id,
        "d75a980182b10ab7d54bfed3c964073a0ee172f3daa62325af021a68f707511a"
    );
    assert_eq!(payload.relay, None);
    assert_eq!(pair_payload(&secret, &config, None).node_id, payload.node_id);
}

#[test]
fn paired_client_is_admitted() {
    let config = HostConfig {
        token: "token-2".to_string(),
        relay: None,
    };
    let payload = pair_payload(&[7; 32], &config, None);
    let request = Request::ListAgents {
        v: payload.v,
        token: payload.token,
    };
    assert!(validate_version(&request).is_ok());
    assert!(validate_token(&request, &config.token).is_ok());
}

#[test]
fn home_relay_is_preferred_over_config() {
    let config = HostConfig {
        token: "t".to_string(),
        relay: Some("https://config.example".to_string()),
    };
    let payload = assemble_pair_payload(
        "id".to_string(),
        &config,
        Some("box".to_string()),
        Some("https://home.example/".to_string()),
        vec!["127.0.0.1:1".to_string()],
    );
    assert_eq!(payload.node_id, "id");
    assert_eq!(payload.host_name.as_deref(), Some("box"));
    assert_eq!(payload.relay.as_deref(), Some("https://home.example/"));
    assert_eq!(payload.direct_addresses, vec!["127.0.0.1:1"]);

    let payload = assemble_pair_payload("id".to_string(), &config, None, None, Vec::new());
    assert_eq!(payload.relay.as_deref(), Some("https://config.example"));
    assert_eq!(payload.host_name, None);
}

#[test]
fn home_relay_is_the_first_relay_of_an_address() {
    let id = iroh::SecretKey::from_bytes(&[1; 32]).public();
    let bare = iroh::EndpointAddr::new(id).with_ip_addr("[::1]:9".parse().unwrap());
    assert_eq!(home_relay_from_endpoint_addr(&bare), None);
    assert_eq!(direct_addresses_from_endpoint_addr(&bare), vec!["[::1]:9"]);

    let relayed = bare.with_relay_url("https://relay.example".parse().unwrap());
    assert_eq!(
        home_relay_from_endpoint_addr(&relayed).as_deref(),
        Some("https://relay.example/")
    );
    assert_eq!(
        direct_addresses_from_endpoint_addr(&relayed),
        vec!["[::1]:9"]
    );
}

#[test]
fn custom_transports_are_neither_relays_nor_direct() {
    let id = iroh::SecretKey::from_bytes(&[2; 32]).public();
    let addr = iroh::EndpointAddr::new(id)
        .with_addrs([iroh::TransportAddr::Custom(
            "7f_00ff".parse().expect("custom"),
        )])
        .with_ip_addr("10.0.0.2:2".parse().unwrap())
        .with_ip_addr("10.0.0.1:1".parse().unwrap());
    assert_eq!(home_relay_from_endpoint_addr(&addr), None);
    assert_eq!(
        direct_addresses_from_endpoint_addr(&addr),
        vec!["10.0.0.1:1", "10.0.0.2:2"]
    );
}

#[test]
fn first_relay_picks_the_first() {
    assert_eq!(first_relay(&Vec::new()), None);
    assert_eq!(
        first_relay(&vec!["a".to_string(), "b".to_string()]).as_deref(),
        Some("a")
    );
}

#[test]
fn without_an_endpoint_nothing_is_advertised() {
    assert_eq!(endpoint_home_relay(None), None);
    assert!(endpoint_direct_addresses(None).is_empty());
}

#[test]
fn local_host_name_is_clean() {
    let expected = hostname::get()
        .ok()
        .and_then(|name| name.into_string().ok())
        .map(|name| name.trim().trim_end_matches('.').to_string())
        .filter(|name| !name.is_empty());
    assert_eq!(local_host_name(), expected);
}

#[test]
fn reported_host_names_are_cleaned_up() {
    let advertised = |reported: Option<&str>| host_name_from_system(reported.map(str::to_string));
    assert_eq!(advertised(None), None);
    assert_eq!(advertised(Some(" .. ")), None);
    assert_eq!(advertised(Some("box.lan.\n")).as_deref(), Some("box.lan"));
}
