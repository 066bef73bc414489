//! Pairing and request admission.

use crate::outside;
use crate::protocol::{
    PairPayload, PairPayloadView, Request, RequestView, Resume, PROTOCOL_VERSION,
};
use crate::text;
use vstd::prelude::*;
use vstd::string::*;

verus! {

/// The settings of a host that pairing and admission read.
#[derive(Debug, Clone, PartialEq, Eq)]
pub struct HostConfig {
    /// Token a client must present.
    pub token: String,
    /// Relay to advertise while the endpoint reports none.
    pub relay: Option<String>,
}

/// What `validate_version` reports for a client of another version.
pub open spec fn mismatch_text(client: u32) -> Seq<char> {
    "protocol mismatch: client="@ + text::decimal(client as nat) + " host="@ + text::decimal(
        PROTOCOL_VERSION as nat,
    )
}

/// Whether a request may be acted on by a host with the given token.
pub open spec fn admissible(request: RequestView, expected_token: Seq<char>) -> bool {
    &&& request.version() == PROTOCOL_VERSION
    &&& request.token() == expected_token
}

/// Accepts requests of the host's own protocol version.
pub fn validate_version(request: &Request) -> (verdict: Result<(), String>)
    ensures
        verdict is Ok <==> request@.version() == PROTOCOL_VERSION,
        verdict matches Err(message) ==> message@ == mismatch_text(request@.version()),
{
    let v: u32 = request.version();
    if v == PROTOCOL_VERSION {
        Ok(())
    } else {
        let mut message = "protocol mismatch: client=".to_owned();
        message.append(text::decimal_text(v).as_str());
        message.append(" host=");
        message.append(text::decimal_text(PROTOCOL_VERSION).as_str());
        Err(message)
    }
}

/// Accepts requests that present the expected token.
pub fn validate_token(request: &Request, expected_token: &str) -> (verdict: Result<(), String>)
    ensures
        verdict is Ok <==> request@.token() == expected_token@,
        verdict matches Err(message) ==> message@ == "invalid token"@,
{
    if request.token().to_owned() == expected_token.to_owned() {
        Ok(())
    } else {
        Err("invalid token".to_owned())
    }
}

/// The first of a list of texts.
pub open spec fn first_text(list: Seq<Seq<char>>) -> Option<Seq<char>> {
    if list.len() == 0 {
        None
    } else {
        Some(list[0])
    }
}

/// The home relay among an endpoint's addresses, if any.
pub open spec fn home_relay(addr: iroh::EndpointAddr) -> Option<Seq<char>> {
    first_text(outside::relay_texts(outside::addr_entries(addr)))
}

/// The home relay among the relay URLs of an endpoint: the first of them.
pub fn first_relay(relay_urls: &Vec<String>) -> (relay: Option<String>)
    ensures
        text::opt_text(relay) == first_text(text::texts(relay_urls@)),
        relay is None <==> relay_urls@.len() == 0,
        relay matches Some(url) ==> url@ == relay_urls@[0]@,
{
    if relay_urls.len() == 0 {
        None
    } else {
        Some(relay_urls[0].clone())
    }
}

/// The home relay of an endpoint address.
pub fn home_relay_from_endpoint_addr(addr: &iroh::EndpointAddr) -> (relay: Option<String>)
    ensures
        text::opt_text(relay) == home_relay(*addr),
{
    first_relay(&outside::relay_urls(addr))
}

/// Whether `addr` can be what `endpoint` reports as its current address.
pub closed spec fn reports_addr(endpoint: &iroh::Endpoint, addr: iroh::EndpointAddr) -> bool {
    call_ensures(outside::current_addr, (endpoint,), addr)
}

/// Reads the endpoint's currently-known home relay, if any. Pair payloads
/// prefer this over the static config so that clients can dial the host even
/// when its address is not published.
pub fn endpoint_home_relay(endpoint: Option<&iroh::Endpoint>) -> (relay: Option<String>)
    ensures
        endpoint is None ==> relay is None,
        endpoint matches Some(bound) ==> exists|addr: iroh::EndpointAddr| #[trigger]
            reports_addr(bound, addr) && text::opt_text(relay) == home_relay(addr),
{
    match endpoint {
        Some(endpoint) => {
            let addr = outside::current_addr(endpoint);
            assert(reports_addr(endpoint, addr));
            home_relay_from_endpoint_addr(&addr)
        },
        None => None,
    }
}

/// The IP addresses of an endpoint address, in order. Relay URLs are not among
/// them.
pub fn direct_addresses_from_endpoint_addr(addr: &iroh::EndpointAddr) -> (addresses: Vec<String>)
    ensures
        text::texts(addresses@) == outside::ip_texts(outside::addr_entries(*addr)),
{
    outside::ip_addrs(addr)
}

/// The IP addresses that the endpoint currently knows itself to be reachable
/// at; none without an endpoint.
pub fn endpoint_direct_addresses(endpoint: Option<&iroh::Endpoint>) -> (addresses: Vec<String>)
    ensures
        endpoint is None ==> addresses@ == Seq::<String>::empty(),
        endpoint matches Some(bound) ==> exists|addr: iroh::EndpointAddr| #[trigger]
            reports_addr(bound, addr) && text::texts(addresses@) == outside::ip_texts(
                outside::addr_entries(addr),
            ),
{
    match endpoint {
        Some(endpoint) => {
            let addr = outside::current_addr(endpoint);
            assert(reports_addr(endpoint, addr));
            direct_addresses_from_endpoint_addr(&addr)
        },
        None => Vec::new(),
    }
}

/// Whether `name` can be what the system reports as the machine's name.
pub closed spec fn system_reports(name: Option<String>) -> bool {
    call_ensures(outside::system_host_name, (), name)
}

/// The host name to advertise, given what the system reports.
pub open spec fn advertised_name(reported: Option<String>) -> Option<Seq<char>> {
    match reported {
        Some(raw) => text::host_name_of(raw@),
        None => None,
    }
}

/// The host name to advertise, given what the system reports: the reported
/// name, cleaned up, and none where the system reports none or a blank one.
pub fn host_name_from_system(reported: Option<String>) -> (name: Option<String>)
    ensures
        text::opt_text(name) == advertised_name(reported),
{
    match reported {
        Some(raw) => text::normalized_host_name(raw.as_str()),
        None => None,
    }
}

/// The machine's host name, cleaned up; `None` if the system reports none.
pub fn local_host_name() -> (name: Option<String>)
    ensures
        exists|reported: Option<String>| #[trigger]
            system_reports(reported) && text::opt_text(name) == advertised_name(reported),
{
    let reported = outside::system_host_name();
    assert(system_reports(reported));
    host_name_from_system(reported)
}

/// The payload that pairs a client with a host, given what the host knows of
/// itself.
pub open spec fn payload_of(
    node_id: Seq<char>,
    config: HostConfig,
    host_name: Option<Seq<char>>,
    home_relay: Option<Seq<char>>,
    direct_addresses: Seq<Seq<char>>,
) -> PairPayloadView {
    PairPayloadView {
        v: PROTOCOL_VERSION,
        node_id,
        token: config.token@,
        host_name,
        relay: if home_relay is Some {
            home_relay
        } else {
            text::opt_text(config.relay)
        },
        direct_addresses,
    }
}

/// Puts a pair payload together. A home relay takes precedence over the one in
/// the config.
pub fn assemble_pair_payload(
    node_id: String,
    config: &HostConfig,
    host_name: Option<String>,
    home_relay: Option<String>,
    direct_addresses: Vec<String>,
) -> (payload: PairPayload)
    ensures
        payload@ == payload_of(
            node_id@,
            *config,
            text::opt_text(host_name),
            text::opt_text(home_relay),
            text::texts(direct_addresses@),
        ),
{
    let relay = match home_relay {
        Some(relay) => Some(relay),
        None => match &config.relay {
            Some(relay) => Some(relay.clone()),
            None => None,
        },
    };
    PairPayload {
        v: PROTOCOL_VERSION,
        node_id,
        token: config.token.clone(),
        host_name,
        relay,
        direct_addresses,
    }
}

/// The payload that a client scans to pair with this host. `secret_key` holds
/// the bytes of the endpoint's secret key; the node id is the public key that
/// belongs to it.
pub fn pair_payload(
    secret_key: &[u8; 32],
    config: &HostConfig,
    endpoint: Option<&iroh::Endpoint>,
) -> (payload: PairPayload)
    ensures
        payload.v == PROTOCOL_VERSION,
        payload.node_id@ == text::hex_lower(outside::public_key_bytes(secret_key@)),
        payload.node_id@.len() == 64,
        payload.token@ == config.token@,
        exists|name: Option<String>| #[trigger]
            call_ensures(local_host_name, (), name) && payload@.host_name == text::opt_text(name),
        exists|relay: Option<String>| #[trigger]
            call_ensures(endpoint_home_relay, (endpoint,), relay) && payload@.relay == (
            match text::opt_text(relay) {
                Some(url) => Some(url),
                None => text::opt_text(config.relay),
            }),
        exists|list: Vec<String>| #[trigger]
            call_ensures(endpoint_direct_addresses, (endpoint,), list)
                && payload@.direct_addresses == text::texts(list@),
        endpoint is None ==> payload@.relay == text::opt_text(config.relay)
            && payload@.direct_addresses == Seq::<Seq<char>>::empty(),
{
    let node_id = outside::public_key_text(secret_key);
    let name = local_host_name();
    let relay = endpoint_home_relay(endpoint);
    let list = endpoint_direct_addresses(endpoint);
    assert(call_ensures(local_host_name, (), name));
    assert(call_ensures(endpoint_home_relay, (endpoint,), relay));
    assert(call_ensures(endpoint_direct_addresses, (endpoint,), list));
    assemble_pair_payload(node_id, config, name, relay, list)
}

/// A client that presents the version and the token it was paired with is
/// admitted, for as long as the host keeps its token.
pub proof fn law_paired_client_is_admitted(
    node_id: Seq<char>,
    config: HostConfig,
    host_name: Option<Seq<char>>,
    home_relay: Option<Seq<char>>,
    direct_addresses: Seq<Seq<char>>,
    request: RequestView,
)
    requires
        ({
            let payload = payload_of(node_id, config, host_name, home_relay, direct_addresses);
            request.version() == payload.v && request.token() == payload.token
        }),
    ensures
        admissible(request, config.token@),
{
}

/// A client that puts the version and the token of its pair payload into a
/// request, of whatever kind, is admitted by the host that made the payload. It
/// is refused once the host has another token.
pub proof fn law_paired_client_passes_validation(
    secret_key: [u8; 32],
    config: HostConfig,
    endpoint: Option<&iroh::Endpoint>,
    payload: PairPayload,
    request: Request,
    expected_token: &str,
    version: Result<(), String>,
    token: Result<(), String>,
)
    requires
        call_ensures(pair_payload, (&secret_key, &config, endpoint), payload),
        match request {
            Request::ListAgents { v, token } => v == payload.v && token@ == payload.token@,
            Request::RestartAgent { v, token, .. } => v == payload.v && token@ == payload.token@,
            Request::Connect { v, token, .. } => v == payload.v && token@ == payload.token@,
        },
        call_ensures(validate_version, (&request,), version),
        call_ensures(validate_token, (&request, expected_token), token),
    ensures
        version is Ok,
        token is Ok <==> expected_token@ == config.token@,
{
}

/// The relay in a pair payload is the endpoint's where it has one. It is the
/// one in the config otherwise.
pub proof fn law_endpoint_relay_is_preferred(
    node_id: Seq<char>,
    config: HostConfig,
    host_name: Option<Seq<char>>,
    home_relay: Option<Seq<char>>,
    direct_addresses: Seq<Seq<char>>,
)
    ensures
        ({
            let payload = payload_of(node_id, config, host_name, home_relay, direct_addresses);
            &&& home_relay is Some ==> payload.relay == home_relay
            &&& home_relay is None ==> payload.relay == text::opt_text(config.relay)
        }),
{
}

proof fn lemma_ip_texts_concat(front: Seq<outside::AddrEntry>, back: Seq<outside::AddrEntry>)
    ensures
        outside::ip_texts(front + back) == outside::ip_texts(front) + outside::ip_texts(back),
    decreases back.len(),
{
    if back.len() == 0 {
        assert(front + back == front);
    } else {
        assert((front + back).drop_last() == front + back.drop_last());
        lemma_ip_texts_concat(front, back.drop_last());
    }
}

/// Direct addresses ignore relay URLs: an address without one of its relays
/// has the same direct addresses.
pub proof fn law_direct_addresses_ignore_relays(
    front: Seq<outside::AddrEntry>,
    url: Seq<char>,
    back: Seq<outside::AddrEntry>,
)
    ensures
        outside::ip_texts(front + seq![outside::AddrEntry::Relay(url)] + back) == outside::ip_texts(
            front + back,
        ),
{
    let relay = seq![outside::AddrEntry::Relay(url)];
    lemma_ip_texts_concat(front, relay);
    lemma_ip_texts_concat(front + relay, back);
    lemma_ip_texts_concat(front, back);
    reveal_with_fuel(outside::ip_texts, 2);
    assert(outside::ip_texts(relay) == Seq::<Seq<char>>::empty());
}

/// Whether `relay` is the home relay of an endpoint with these transport
/// addresses: the first relay among them, and none exactly if there is none.
pub open spec fn is_home_relay(
    entries: Seq<outside::AddrEntry>,
    relay: Option<Seq<char>>,
) -> bool {
    match relay {
        Some(url) => exists|i: int|
            0 <= i < entries.len() && (#[trigger] entries[i]) == outside::AddrEntry::Relay(url)
                && forall|j: int| 0 <= j < i ==> !((#[trigger] entries[j]) is Relay),
        None => forall|i: int| 0 <= i < entries.len() ==> !((#[trigger] entries[i]) is Relay),
    }
}

proof fn lemma_first_relay_text(entries: Seq<outside::AddrEntry>)
    ensures
        is_home_relay(
            entries,
            if outside::relay_texts(entries).len() == 0 {
                None
            } else {
                Some(outside::relay_texts(entries)[0])
            },
        ),
    decreases entries.len(),
{
    if entries.len() > 0 {
        let front = entries.drop_last();
        let last = entries.len() - 1;
        lemma_first_relay_text(front);
        if outside::relay_texts(front).len() > 0 {
            let url = outside::relay_texts(front)[0];
            let i = choose|i: int|
                0 <= i < front.len() && (#[trigger] front[i]) == outside::AddrEntry::Relay(url)
                    && forall|j: int| 0 <= j < i ==> !((#[trigger] front[j]) is Relay);
            assert(entries[i] == outside::AddrEntry::Relay(url));
            assert forall|j: int| 0 <= j < i implies !((#[trigger] entries[j]) is Relay) by {
                assert(entries[j] == front[j]);
            }
        } else {
            assert forall|j: int| 0 <= j < last implies !((#[trigger] entries[j]) is Relay) by {
                assert(entries[j] == front[j]);
            }
            if let outside::AddrEntry::Relay(url) = entries.last() {
                assert(entries[last] == outside::AddrEntry::Relay(url));
            }
        }
    }
}

/// The home relay of an endpoint address is the first relay among its transport
/// addresses, whatever the text of its URL. There is one exactly if there is a
/// relay among them.
pub proof fn law_home_relay_is_the_first(addr: iroh::EndpointAddr)
    ensures
        is_home_relay(outside::addr_entries(addr), home_relay(addr)),
        home_relay(addr) is None <==> forall|i: int|
            0 <= i < outside::addr_entries(addr).len() ==> !((#[trigger] outside::addr_entries(
                addr,
            )[i]) is Relay),
{
    lemma_first_relay_text(outside::addr_entries(addr));
}

/// A relay with no other in front of it is the home relay, whatever follows.
pub proof fn law_home_relay_between(
    addr: iroh::EndpointAddr,
    front: Seq<outside::AddrEntry>,
    url: Seq<char>,
    back: Seq<outside::AddrEntry>,
    relay: Option<String>,
)
    requires
        outside::addr_entries(addr) == front + seq![outside::AddrEntry::Relay(url)] + back,
        forall|i: int| 0 <= i < front.len() ==> !((#[trigger] front[i]) is Relay),
        call_ensures(home_relay_from_endpoint_addr, (&addr,), relay),
    ensures
        home_relay(addr) == Some(url),
        relay matches Some(text) && text@ == url,
{
    let entries = outside::addr_entries(addr);
    law_home_relay_is_the_first(addr);
    assert(entries[front.len() as int] == outside::AddrEntry::Relay(url));
    assert forall|j: int| 0 <= j < front.len() implies !((#[trigger] entries[j]) is Relay) by {
        assert(entries[j] == front[j]);
    }
}

/// An endpoint address without a relay has no home relay.
pub proof fn law_no_home_relay(addr: iroh::EndpointAddr, relay: Option<String>)
    requires
        forall|i: int|
            0 <= i < outside::addr_entries(addr).len() ==> !((#[trigger] outside::addr_entries(
                addr,
            )[i]) is Relay),
        call_ensures(home_relay_from_endpoint_addr, (&addr,), relay),
    ensures
        relay is None,
{
    law_home_relay_is_the_first(addr);
}

/// The first of the relay URLs is chosen, to the last character, and there is
/// none exactly where there are no URLs.
pub proof fn law_first_relay(relay_urls: Vec<String>, relay: Option<String>)
    requires
        call_ensures(first_relay, (&relay_urls,), relay),
    ensures
        relay_urls@.len() == 0 ==> relay is None,
        relay_urls@.len() > 0 ==> (relay matches Some(url) && url@ == relay_urls@[0]@),
{
}

/// A bound endpoint's home relay is the first relay of an address that the
/// endpoint reports.
pub proof fn law_endpoint_home_relay(endpoint: Option<&iroh::Endpoint>, relay: Option<String>)
    requires
        call_ensures(endpoint_home_relay, (endpoint,), relay),
    ensures
        endpoint is None ==> relay is None,
        endpoint matches Some(bound) ==> exists|addr: iroh::EndpointAddr| #[trigger]
            reports_addr(bound, addr) && is_home_relay(
                outside::addr_entries(addr),
                text::opt_text(relay),
            ),
{
    if let Some(bound) = endpoint {
        let addr = choose|addr: iroh::EndpointAddr| #[trigger]
            reports_addr(bound, addr) && text::opt_text(relay) == home_relay(addr);
        law_home_relay_is_the_first(addr);
    }
}

/// The direct addresses keep the order of the IP addresses among the transport
/// addresses: one that stands between others is listed between theirs, to the
/// last character. Without transport addresses there are none.
pub proof fn law_direct_addresses_are_in_order(
    front: Seq<outside::AddrEntry>,
    address: Seq<char>,
    back: Seq<outside::AddrEntry>,
)
    ensures
        outside::ip_texts(front + seq![outside::AddrEntry::Ip(address)] + back)
            == outside::ip_texts(front) + seq![address] + outside::ip_texts(back),
        outside::ip_texts(Seq::empty()) == Seq::<Seq<char>>::empty(),
{
    let ip = seq![outside::AddrEntry::Ip(address)];
    lemma_ip_texts_concat(front, ip);
    lemma_ip_texts_concat(front + ip, back);
    reveal_with_fuel(outside::ip_texts, 2);
    assert(ip.drop_last() == Seq::<outside::AddrEntry>::empty());
    assert(outside::ip_texts(ip) == seq![address]);
}

/// Direct addresses ignore the addresses of other transports.
pub proof fn law_direct_addresses_ignore_other_transports(
    front: Seq<outside::AddrEntry>,
    back: Seq<outside::AddrEntry>,
)
    ensures
        outside::ip_texts(front + seq![outside::AddrEntry::Custom] + back) == outside::ip_texts(
            front + back,
        ),
{
    let custom = seq![outside::AddrEntry::Custom];
    lemma_ip_texts_concat(front, custom);
    lemma_ip_texts_concat(front + custom, back);
    lemma_ip_texts_concat(front, back);
    reveal_with_fuel(outside::ip_texts, 2);
    assert(outside::ip_texts(custom) == Seq::<Seq<char>>::empty());
}

/// A bound endpoint's direct addresses are the IP addresses of an address that
/// the endpoint reports.
pub proof fn law_endpoint_direct_addresses(
    endpoint: Option<&iroh::Endpoint>,
    addresses: Vec<String>,
)
    requires
        call_ensures(endpoint_direct_addresses, (endpoint,), addresses),
    ensures
        endpoint is None ==> addresses@.len() == 0,
        endpoint matches Some(bound) ==> exists|addr: iroh::EndpointAddr| #[trigger]
            reports_addr(bound, addr) && addresses@.len() == outside::ip_texts(
                outside::addr_entries(addr),
            ).len() && forall|i: int|
                0 <= i < addresses@.len() ==> (#[trigger] addresses@[i])@ == outside::ip_texts(
                    outside::addr_entries(addr),
                )[i],
{
    if let Some(bound) = endpoint {
        let addr = choose|addr: iroh::EndpointAddr| #[trigger]
            reports_addr(bound, addr) && text::texts(addresses@) == outside::ip_texts(
                outside::addr_entries(addr),
            );
        assert(reports_addr(bound, addr));
        assert forall|i: int| 0 <= i < addresses@.len() implies (#[trigger] addresses@[i])@
            == outside::ip_texts(outside::addr_entries(addr))[i] by {
            assert(text::texts(addresses@)[i] == addresses@[i]@);
        }
    }
}

/// A request is admissible exactly if it names the host's version and presents
/// the host's token, whatever its kind, its agent and the text of the token.
pub proof fn law_admission(
    v: u32,
    token: Seq<char>,
    agent: Seq<char>,
    resume: Option<Resume>,
    expected_token: Seq<char>,
)
    ensures
        admissible(RequestView::ListAgents { v, token }, expected_token) <==> v == PROTOCOL_VERSION
            && token == expected_token,
        admissible(RequestView::RestartAgent { v, token, agent }, expected_token) <==> v
            == PROTOCOL_VERSION && token == expected_token,
        admissible(RequestView::Connect { v, token, agent, resume }, expected_token) <==> v
            == PROTOCOL_VERSION && token == expected_token,
{
}

/// A request passes validation exactly if its own version and token fields are
/// the host's. A refusal names both versions, or says that the token is
/// invalid.
pub proof fn law_validation(
    request: Request,
    expected_token: &str,
    version: Result<(), String>,
    token: Result<(), String>,
)
    requires
        call_ensures(validate_version, (&request,), version),
        call_ensures(validate_token, (&request, expected_token), token),
    ensures
        ({
            let (v, presented) = match request {
                Request::ListAgents { v, token } => (v, token),
                Request::RestartAgent { v, token, .. } => (v, token),
                Request::Connect { v, token, .. } => (v, token),
            };
            &&& version is Ok <==> v == 1
            &&& token is Ok <==> presented@ == expected_token@
            &&& version matches Err(message) ==> message@ == "protocol mismatch: client="@
                + text::decimal(v as nat) + " host="@ + text::decimal(1)
            &&& token matches Err(message) ==> message@ == "invalid token"@
        }),
        version is Ok && token is Ok <==> admissible(request@, expected_token@),
{
}

/// The mismatch tells clients of different versions apart.
pub proof fn law_mismatch_names_the_client(a: u32, b: u32)
    ensures
        mismatch_text(a) == mismatch_text(b) <==> a == b,
{
    let front = "protocol mismatch: client="@;
    let back = " host="@ + text::decimal(PROTOCOL_VERSION as nat);
    let x = text::decimal(a as nat);
    let y = text::decimal(b as nat);
    text::law_decimal_tells_numbers_apart(a as nat, b as nat);
    assert(mismatch_text(a) == front + x + back);
    assert(mismatch_text(b) == front + y + back);
    if mismatch_text(a) == mismatch_text(b) {
        assert(x.len() == y.len());
        assert((front + x + back).subrange(front.len() as int, (front.len() + x.len()) as int)
            == x);
        assert((front + y + back).subrange(front.len() as int, (front.len() + y.len()) as int)
            == y);
    }
}

/// What counts as reported came back from a call: no address of an endpoint and
/// no name of the machine is made up.
pub(crate) proof fn law_reports_come_from_calls(
    endpoint: &iroh::Endpoint,
    addr: iroh::EndpointAddr,
    name: Option<String>,
)
    ensures
        reports_addr(endpoint, addr) <==> call_ensures(outside::current_addr, (endpoint,), addr),
        system_reports(name) <==> call_ensures(outside::system_host_name, (), name),
{
}

/// A host that the system gives no name advertises none. One that it gives a
/// name advertises what is left of it between whitespace, dots and whitespace.
pub proof fn law_advertised_name(
    reported: Option<String>,
    name: Option<String>,
    before: Seq<char>,
    kept: Seq<char>,
    dots: Seq<char>,
    after: Seq<char>,
)
    requires
        call_ensures(host_name_from_system, (reported,), name),
        reported matches Some(raw) ==> raw@ == before + kept + dots + after,
        kept.len() > 0 ==> !text::is_whitespace(kept[0]) && kept.last() != '.',
        kept.len() > 0 && dots.len() == 0 ==> !text::is_whitespace(kept.last()),
        forall|i: int| 0 <= i < before.len() ==> text::is_whitespace(before[i]),
        forall|i: int| 0 <= i < dots.len() ==> dots[i] == '.',
        forall|i: int| 0 <= i < after.len() ==> text::is_whitespace(after[i]),
    ensures
        match name {
            Some(advertised) => reported is Some && kept.len() > 0 && advertised@ == kept,
            None => reported is None || kept.len() == 0,
        },
        text::opt_text(name) == advertised_name(reported),
{
    if kept.len() > 0 {
        text::law_host_name_is_kept(before, kept, dots, after);
    } else {
        assert(before + kept + dots + after == before + dots + after);
        text::law_blank_host_names(before, dots, after);
    }
}

/// A pair payload holds what it was put together from, field by field. Its
/// relay is the home relay where there is one, and the config's otherwise.
pub proof fn law_pair_payload_is_put_together(
    node_id: String,
    config: HostConfig,
    host_name: Option<String>,
    home_relay: Option<String>,
    direct_addresses: Vec<String>,
    payload: PairPayload,
)
    requires
        call_ensures(
            assemble_pair_payload,
            (node_id, &config, host_name, home_relay, direct_addresses),
            payload,
        ),
    ensures
        payload.v == 1,
        payload.node_id@ == node_id@,
        payload.token@ == config.token@,
        same_text(payload.host_name, host_name),
        home_relay is Some ==> same_text(payload.relay, home_relay),
        home_relay is None ==> same_text(payload.relay, config.relay),
        payload.direct_addresses@.len() == direct_addresses@.len(),
        forall|i: int|
            0 <= i < direct_addresses@.len() ==> (#[trigger] payload.direct_addresses@[i])@
                == direct_addresses@[i]@,
{
    let view = payload@;
    assert(view.direct_addresses == text::texts(direct_addresses@));
    assert(view.direct_addresses == text::texts(payload.direct_addresses@));
    assert(text::texts(payload.direct_addresses@).len() == text::texts(direct_addresses@).len());
    assert forall|i: int| 0 <= i < direct_addresses@.len() implies (
    #[trigger] payload.direct_addresses@[i])@ == direct_addresses@[i]@ by {
        assert(text::texts(payload.direct_addresses@)[i] == text::texts(direct_addresses@)[i]);
    }
}

/// Whether two optional strings are both missing or read the same.
pub open spec fn same_text(a: Option<String>, b: Option<String>) -> bool {
    match (a, b) {
        (Some(x), Some(y)) => x@ == y@,
        (None, None) => true,
        _ => false,
    }
}

/// The payload that a client pairs with has the host's token and, for a bound
/// endpoint, its home relay: the config's relay only stands in where the
/// endpoint reports none.
pub proof fn law_pair_payload(
    secret_key: [u8; 32],
    config: HostConfig,
    endpoint: Option<&iroh::Endpoint>,
    payload: PairPayload,
)
    requires
        call_ensures(pair_payload, (&secret_key, &config, endpoint), payload),
    ensures
        payload.v == 1,
        payload.node_id@ == text::hex_lower(outside::public_key_bytes(secret_key@)),
        payload.token@ == config.token@,
        endpoint is None ==> same_text(payload.relay, config.relay)
            && payload.direct_addresses@.len() == 0,
        endpoint matches Some(bound) ==> exists|addr: iroh::EndpointAddr| #[trigger]
            reports_addr(bound, addr) && {
                ||| payload.relay is Some && is_home_relay(
                    outside::addr_entries(addr),
                    text::opt_text(payload.relay),
                )
                ||| is_home_relay(outside::addr_entries(addr), None) && same_text(
                    payload.relay,
                    config.relay,
                )
            },
        exists|reported: Option<String>| #[trigger]
            system_reports(reported) && text::opt_text(payload.host_name) == advertised_name(
                reported,
            ),
        exists|list: Vec<String>| #[trigger]
            call_ensures(endpoint_direct_addresses, (endpoint,), list)
                && payload.direct_addresses@.len() == list@.len() && forall|i: int|
                0 <= i < list@.len() ==> (#[trigger] payload.direct_addresses@[i])@ == list@[i]@,
{
    let name = choose|name: Option<String>| #[trigger]
        call_ensures(local_host_name, (), name) && payload@.host_name == text::opt_text(name);
    let reported = choose|reported: Option<String>| #[trigger]
        system_reports(reported) && text::opt_text(name) == advertised_name(reported);
    assert(system_reports(reported));
    let relay = choose|relay: Option<String>| #[trigger]
        call_ensures(endpoint_home_relay, (endpoint,), relay) && payload@.relay == (
        match text::opt_text(relay) {
            Some(url) => Some(url),
            None => text::opt_text(config.relay),
        });
    law_endpoint_home_relay(endpoint, relay);
    let list = choose|list: Vec<String>| #[trigger]
        call_ensures(endpoint_direct_addresses, (endpoint,), list)
            && payload@.direct_addresses == text::texts(list@);
    assert(text::texts(payload.direct_addresses@) == text::texts(list@));
    assert(text::texts(payload.direct_addresses@).len() == text::texts(list@).len());
    assert forall|i: int| 0 <= i < list@.len() implies (#[trigger] payload.direct_addresses@[i])@
        == list@[i]@ by {
        assert(text::texts(payload.direct_addresses@)[i] == text::texts(list@)[i]);
    }
    law_endpoint_direct_addresses(endpoint, list);
    if let Some(bound) = endpoint {
        let addr = choose|addr: iroh::EndpointAddr| #[trigger]
            reports_addr(bound, addr) && is_home_relay(
                outside::addr_entries(addr),
                text::opt_text(relay),
            );
        assert(reports_addr(bound, addr));
    }
}

} // verus!
