//! Tests of the client service: the mapping lifecycle, the epoch
//! check with recovery, retransmission backoff and the renewal
//! schedule.

use pcp::addr::Ipv6Address;
use pcp::client::Client;
use pcp::epoch::{Epoch, EpochSnapshot};
use pcp::event::{Action, ClientEvent, MapEventKind, ServerEvent};
use pcp::handle::RequestType;
use pcp::headers::ResponseHeader;
use pcp::map::{InboundMap, OutboundMap};
use pcp::op_code::OpCode;
use pcp::payloads::MapResponsePayload;
use pcp::protocols::ProtocolNumber;
use pcp::response::{ResponsePacket, ResponsePayload};
use pcp::result_code::ResultCode;
use pcp::state::State;
use pcp::timeout::{renew_wait_ms, IRT_MS, MRT_MS};

fn client_addr() -> Ipv6Address {
    let mut x = [0u8; 16];
    x[10] = 0xff;
    x[11] = 0xff;
    x[12] = 192;
    x[13] = 168;
    x[14] = 1;
    x[15] = 101;
    Ipv6Address(x)
}

fn first_arm(actions: &[Action]) -> (usize, u64) {
    for a in actions {
        if let Action::Arm(id, t) = a {
            return (*id, *t);
        }
    }
    panic!("no timer was armed");
}

fn arms(actions: &[Action]) -> Vec<(usize, u64)> {
    let mut r = Vec::new();
    for a in actions {
        if let Action::Arm(id, t) = a {
            r.push((*id, *t));
        }
    }
    r
}

fn sends(actions: &[Action]) -> Vec<Vec<u8>> {
    let mut r = Vec::new();
    for a in actions {
        if let Action::Send(b) = a {
            r.push(b.clone());
        }
    }
    r
}

fn new_tcp_client(kind: RequestType) -> (Client, Vec<Action>) {
    let mut c = Client::new(client_addr());
    let mut out = Vec::new();
    let map = InboundMap::new(6000, 120).protocol(ProtocolNumber::Tcp);
    c.new_inbound(map, kind, 0, &mut out);
    (c, out)
}

fn matching_response(c: &Client, lifetime: u32, epoch: u32, external_port: u16) -> ResponsePacket {
    let nonce = match &c.mappings[0].request.payload {
        pcp::packet::RequestPayload::Mapping(m) => m.nonce,
        _ => unreachable!(),
    };
    ResponsePacket {
        header: ResponseHeader {
            version: 2,
            opcode: OpCode::Mapping,
            result: ResultCode::Success,
            lifetime,
            epoch,
        },
        payload: ResponsePayload::Mapping(MapResponsePayload {
            nonce,
            protocol: ProtocolNumber::Tcp,
            internal_port: 6000,
            external_port,
            external_addr: client_addr(),
        }),
        options: Vec::new(),
    }
}

#[test]
fn new_inbound_sends_and_arms() {
    let (c, out) = new_tcp_client(RequestType::KeepAlive);
    assert_eq!(c.mappings.len(), 1);
    assert_eq!(c.mappings[0].state, State::Starting(0));
    let s = sends(&out);
    assert_eq!(s.len(), 1);
    assert_eq!(s[0].len(), 60);
    assert_eq!(s[0][0], 2);
    assert_eq!(s[0][1], 1);
    let (id, t) = first_arm(&out);
    assert_eq!(id, 0);
    assert!((2700..=3300).contains(&t));
}

#[test]
fn successful_map_response() {
    // After the request of `new_inbound_sends_and_arms`, a Success
    // response with lifetime 60, epoch 10, assigned port 33000.
    let (mut c, _) = new_tcp_client(RequestType::KeepAlive);
    let resp = matching_response(&c, 60, 10, 33000);
    let mut out = Vec::new();
    c.server_response(&resp, 1_000_000, &mut out);
    assert_eq!(c.mappings[0].state, State::Running);
    match &c.mappings[0].request.payload {
        pcp::packet::RequestPayload::Mapping(m) => {
            assert_eq!(m.external_port, 33000);
            assert_eq!(m.external_addr, client_addr());
        }
        _ => unreachable!(),
    }
    // For KeepAlive the next timer lies in the first renewal window
    // [lifetime/2, 5*lifetime/8] = [30 s, 37.5 s].
    let (id, t) = first_arm(&out);
    assert_eq!(id, 0);
    assert!((30_000..=37_500).contains(&t), "wait {t} out of window");
    // The first success is reported to the owner.
    let accepted = out.iter().any(|a| {
        matches!(
            a,
            Action::Notify(ClientEvent::Mapping(e))
                if e.id == 0
                    && matches!(e.kind, MapEventKind::Accepted { lifetime: 60, external_port: 33000, .. })
        )
    });
    assert!(accepted);
    // The epoch was recorded.
    assert_eq!(
        c.epoch,
        Some(EpochSnapshot { epoch: Epoch(10), received_at: 1_000_000 })
    );
}

#[test]
fn successful_map_response_once() {
    // For a mapping that runs once, the next timer is exactly the
    // assigned lifetime.
    let (mut c, _) = new_tcp_client(RequestType::Once);
    let resp = matching_response(&c, 60, 10, 33000);
    let mut out = Vec::new();
    c.server_response(&resp, 1_000_000, &mut out);
    assert_eq!(c.mappings[0].state, State::Running);
    let (_, t) = first_arm(&out);
    assert_eq!(t, 60_000);
    // When that timer fires, the mapping expires.
    let mut out = Vec::new();
    c.delay_expired(0, 60_000, &mut out);
    assert_eq!(c.mappings[0].state, State::Expired);
}

#[test]
fn error_response_parks_the_mapping() {
    let (mut c, _) = new_tcp_client(RequestType::KeepAlive);
    let mut resp = matching_response(&c, 60, 10, 0);
    resp.header.result = ResultCode::NoResources;
    let mut out = Vec::new();
    c.server_response(&resp, 1_000_000, &mut out);
    assert_eq!(c.mappings[0].state, State::Error(ResultCode::NoResources));
    assert!(out.iter().any(|a| matches!(a, Action::Cancel(0))));
}

#[test]
fn retransmission_backoff() {
    // With a silent server the record stays in Starting(n) and the
    // successive delays follow the doubled-and-capped backoff.
    let (mut c, out0) = new_tcp_client(RequestType::KeepAlive);
    let (_, d0) = first_arm(&out0);
    assert!((2700..=3300).contains(&d0));

    let mut out = Vec::new();
    c.delay_expired(0, d0, &mut out);
    assert_eq!(c.mappings[0].state, State::Starting(1));
    let (_, d1) = first_arm(&out);
    assert!((900 * 2 * d0) / 1000 <= d1 && d1 <= (1100 * 2 * d0) / 1000);

    let mut out = Vec::new();
    c.delay_expired(0, d1, &mut out);
    assert_eq!(c.mappings[0].state, State::Starting(2));
    let (_, d2) = first_arm(&out);
    assert!((900 * 2 * d1) / 1000 <= d2 && d2 <= (1100 * 2 * d1) / 1000);

    // The doubling is capped at MRT.
    let mut out = Vec::new();
    c.delay_expired(0, MRT_MS, &mut out);
    let (_, d3) = first_arm(&out);
    assert!((900 * MRT_MS) / 1000 <= d3 && d3 <= (1100 * MRT_MS) / 1000);
    // Retransmissions are byte-identical.
    let s = sends(&out);
    assert_eq!(s.len(), 1);
    assert_eq!(s[0], c.mappings[0].buffer);
}

#[test]
fn epoch_failure_triggers_recovery() {
    // One stored epoch (100 at time T); a response with epoch 40 at
    // T + 10 s is invalid, every live mapping is resent and its
    // timer reset to the initial retransmission time.
    let (mut c, _) = new_tcp_client(RequestType::KeepAlive);
    let t0: u64 = 5_000_000;
    let resp = matching_response(&c, 60, 100, 33000);
    let mut out = Vec::new();
    c.server_response(&resp, t0, &mut out);
    assert_eq!(c.mappings[0].state, State::Running);
    assert_eq!(
        c.epoch,
        Some(EpochSnapshot { epoch: Epoch(100), received_at: t0 })
    );

    let bad = matching_response(&c, 60, 40, 33000);
    let mut out = Vec::new();
    c.server_response(&bad, t0 + 10_000, &mut out);
    // The response is discarded: epoch unchanged, record back to
    // Starting(0), resent, timer at IRT.
    assert_eq!(
        c.epoch,
        Some(EpochSnapshot { epoch: Epoch(100), received_at: t0 })
    );
    assert_eq!(c.mappings[0].state, State::Starting(0));
    let s = sends(&out);
    assert_eq!(s.len(), 1);
    assert_eq!(s[0], c.mappings[0].buffer);
    let (id, t) = first_arm(&out);
    assert_eq!(id, 0);
    assert!((IRT_MS * 9 / 10..=IRT_MS * 11 / 10).contains(&t));
}

#[test]
fn announce_triggers_recovery() {
    // An unsolicited successful ANNOUNCE produces the same recovery.
    let (mut c, _) = new_tcp_client(RequestType::KeepAlive);
    let resp = matching_response(&c, 60, 100, 33000);
    let mut out = Vec::new();
    c.server_response(&resp, 5_000_000, &mut out);
    assert_eq!(c.mappings[0].state, State::Running);

    let announce = ResponsePacket {
        header: ResponseHeader {
            version: 2,
            opcode: OpCode::Announce,
            result: ResultCode::Success,
            lifetime: 0,
            epoch: 101,
        },
        payload: ResponsePayload::Announce,
        options: Vec::new(),
    };
    let mut out = Vec::new();
    c.server_response(&announce, 5_001_000, &mut out);
    assert_eq!(c.mappings[0].state, State::Starting(0));
    assert_eq!(sends(&out).len(), 1);
    let (_, t) = first_arm(&out);
    assert!((2700..=3300).contains(&t));

    // An ANNOUNCE error is ignored.
    let mut bad = announce.clone();
    bad.header.result = ResultCode::NetworkFailure;
    bad.header.epoch = 102;
    let state_before = c.mappings[0].state;
    let mut out = Vec::new();
    c.server_response(&bad, 5_002_000, &mut out);
    assert_eq!(c.mappings[0].state, state_before);
    assert_eq!(sends(&out).len(), 0);
}

#[test]
fn epoch_validator_cases() {
    // The first epoch is taken as a baseline by the service; the
    // validator itself compares against a stored epoch.
    // Going backwards by more than one second is invalid.
    assert!(!Epoch(40).validate_epoch(Epoch(100), 10));
    // Going backwards by exactly one second is tolerated.
    assert!(Epoch(99).validate_epoch(Epoch(100), 0));
    // Clocks advancing at the same rate are valid.
    assert!(Epoch(160).validate_epoch(Epoch(100), 60));
    // The server clock racing ahead of the client clock is invalid.
    assert!(!Epoch(200).validate_epoch(Epoch(100), 10));
    // The client clock racing ahead of the server clock is invalid.
    assert!(!Epoch(105).validate_epoch(Epoch(100), 90));
}

#[test]
fn renewal_schedule() {
    // First renewal window for a 60 s lifetime: [30 s, 37.5 s].
    assert_eq!(renew_wait_ms(60_000, 0, 0), Some(30_000));
    assert_eq!(renew_wait_ms(60_000, 0, 7_500), Some(37_500));
    // Second window: [45 s, 48.75 s].
    assert_eq!(renew_wait_ms(60_000, 1, 0), Some(45_000));
    assert_eq!(renew_wait_ms(60_000, 1, 3_750), Some(48_750));
    // A window that has shrunk below four seconds ends renewal.
    assert_eq!(renew_wait_ms(6_000, 0, 0), None);
    assert_eq!(renew_wait_ms(0, 3, 0), None);
}

#[test]
fn revoke_sends_zero_lifetime() {
    let (mut c, _) = new_tcp_client(RequestType::KeepAlive);
    let mut out = Vec::new();
    c.revoke(0, &mut out);
    assert_eq!(c.mappings[0].state, State::Revoked);
    assert_eq!(c.mappings[0].request.header.lifetime, 0);
    assert!(matches!(out[0], Action::Cancel(0)));
    let s = sends(&out);
    assert_eq!(s.len(), 1);
    // Lifetime field of the retransmitted request is zero.
    assert_eq!(&s[0][4..8], &[0, 0, 0, 0]);
}

#[test]
fn renew_restarts_retransmission() {
    let (mut c, _) = new_tcp_client(RequestType::KeepAlive);
    let resp = matching_response(&c, 60, 10, 33000);
    let mut out = Vec::new();
    c.server_response(&resp, 1_000_000, &mut out);
    assert_eq!(c.mappings[0].state, State::Running);

    let mut out = Vec::new();
    c.renew_mapping(0, 300, &mut out);
    assert_eq!(c.mappings[0].state, State::Starting(0));
    assert_eq!(c.mappings[0].request.header.lifetime, 300);
    assert_eq!(c.mappings[0].rem, 300_000);
    let s = sends(&out);
    assert_eq!(s[0][4..8], [0, 0, 1, 44]);
    let (_, t) = first_arm(&out);
    assert!((2700..=3300).contains(&t));
}

#[test]
fn dropped_slot_is_reused() {
    let (mut c, _) = new_tcp_client(RequestType::KeepAlive);
    let mut out = Vec::new();
    let map2 = InboundMap::new(7000, 120).protocol(ProtocolNumber::Udp);
    c.new_inbound(map2, RequestType::KeepAlive, 1, &mut out);
    assert_eq!(c.mappings.len(), 2);
    assert_eq!(c.next_index(), 2);

    c.mappings[0].state = State::Dropped;
    assert_eq!(c.next_index(), 0);
    let mut out = Vec::new();
    let map3 = InboundMap::new(8000, 120).protocol(ProtocolNumber::Tcp);
    c.new_inbound(map3, RequestType::KeepAlive, 0, &mut out);
    // The dropped slot was reused, not appended.
    assert_eq!(c.mappings.len(), 2);
    assert_eq!(c.mappings[0].state, State::Starting(0));
    match &c.mappings[0].request.payload {
        pcp::packet::RequestPayload::Mapping(m) => assert_eq!(m.internal_port, 8000),
        _ => unreachable!(),
    }
}

#[test]
fn new_id_notification() {
    let mut c = Client::new(client_addr());
    let mut out = Vec::new();
    let map = InboundMap::new(6000, 120).protocol(ProtocolNumber::Tcp);
    // The caller guessed slot 5; the service assigns slot 0.
    c.new_inbound(map, RequestType::KeepAlive, 5, &mut out);
    let newid = out.iter().any(|a| {
        matches!(
            a,
            Action::Notify(ClientEvent::Mapping(e))
                if e.id == 5 && matches!(e.kind, MapEventKind::NewId(0))
        )
    });
    assert!(newid);
}

#[test]
fn response_matches_only_its_own_record() {
    let (mut c, _) = new_tcp_client(RequestType::KeepAlive);
    let mut out = Vec::new();
    let map2 = InboundMap::new(7000, 120).protocol(ProtocolNumber::Udp);
    c.new_inbound(map2, RequestType::KeepAlive, 1, &mut out);

    let resp = matching_response(&c, 60, 10, 33000);
    let mut out = Vec::new();
    c.server_response(&resp, 1_000_000, &mut out);
    assert_eq!(c.mappings[0].state, State::Running);
    // The second record is untouched.
    assert_eq!(c.mappings[1].state, State::Starting(0));
}

#[test]
fn outbound_mapping_request() {
    let mut c = Client::new(client_addr());
    let mut out = Vec::new();
    let remote = {
        let mut x = [0u8; 16];
        x[10] = 0xff;
        x[11] = 0xff;
        x[12] = 93;
        x[13] = 184;
        x[14] = 216;
        x[15] = 34;
        Ipv6Address(x)
    };
    let map = OutboundMap::new(5000, remote, 4242, 900).protocol(ProtocolNumber::Udp);
    c.new_outbound(map, RequestType::KeepAlive, 0, &mut out);
    assert_eq!(c.mappings.len(), 1);
    let s = sends(&out);
    assert_eq!(s.len(), 1);
    // A PEER request: opcode 2, 56-byte payload.
    assert_eq!(s[0][1], 2);
    assert_eq!(s[0].len(), 80);
    // A zero remote port is rejected by the builder and reported.
    let mut out = Vec::new();
    let bad = OutboundMap::new(5000, remote, 0, 900);
    c.new_outbound(bad, RequestType::KeepAlive, 1, &mut out);
    assert_eq!(c.mappings.len(), 1);
    let reported = out.iter().any(|a| {
        matches!(
            a,
            Action::Notify(ClientEvent::Service(pcp::handle::Error::Parsing(
                pcp::parsing_error::ParsingError::ZeroRemotePeerPort,
            )))
        )
    });
    assert!(reported);
}

#[test]
fn shutdown_stops_the_loop() {
    let mut c = Client::new(client_addr());
    let mut out = Vec::new();
    assert!(!c.handle_event(ServerEvent::Shutdown, &mut out));
    let map = InboundMap::new(6000, 120);
    assert!(c.handle_event(
        ServerEvent::InboundMap { map, kind: RequestType::Once, id: 0 },
        &mut out
    ));
}

#[test]
fn updating_path_resends_until_window_closes() {
    let (mut c, _) = new_tcp_client(RequestType::KeepAlive);
    let resp = matching_response(&c, 60, 10, 33000);
    let mut out = Vec::new();
    c.server_response(&resp, 1_000_000, &mut out);
    let (_, w0) = first_arm(&out);

    // The renewal timer fires: the request is resent and the record
    // enters Updating(0, lifetime).
    let mut out = Vec::new();
    c.delay_expired(0, w0, &mut out);
    match c.mappings[0].state {
        State::Updating(0, lt) => assert_eq!(lt, 60),
        State::Expired => panic!("window should not close on the first renewal"),
        s => panic!("unexpected state {s:?}"),
    }
    assert_eq!(sends(&out).len(), 1);
    let a = arms(&out);
    assert_eq!(a.len(), 1);
}

#[test]
fn inbound_builder_chain() {
    let m = InboundMap::new(6000, 120)
        .protocol(ProtocolNumber::Tcp)
        .external_port(33000)
        .external_address(client_addr())
        .third_party(client_addr())
        .prefer_failure(true)
        .filter(443, client_addr(), 128);
    assert_eq!(m.internal_port, 6000);
    assert_eq!(m.lifetime, 120);
    assert_eq!(m.protocol, Some(ProtocolNumber::Tcp));
    assert_eq!(m.external_port, Some(33000));
    assert_eq!(m.external_addr, Some(client_addr()));
    assert_eq!(m.third_party, Some(client_addr()));
    assert!(m.prefer_failure);
    assert_eq!(m.filters.len(), 1);
    assert_eq!(m.filters[0].remote_port, 443);
    assert_eq!(m.filters[0].prefix, 128);

    // The built request carries the options in the order filters,
    // prefer-failure, third-party.
    let mut c = Client::new(client_addr());
    let mut out = Vec::new();
    c.new_inbound(m, RequestType::KeepAlive, 0, &mut out);
    let opts = &c.mappings[0].request.options;
    assert_eq!(opts.len(), 3);
    assert_eq!(opts[0].header.code, pcp::option_code::OptionCode::Filter);
    assert_eq!(opts[1].header.code, pcp::option_code::OptionCode::PreferFailure);
    assert_eq!(opts[2].header.code, pcp::option_code::OptionCode::ThirdParty);
}

#[test]
fn renew_of_terminal_record_is_ignored() {
    let (mut c, _) = new_tcp_client(RequestType::KeepAlive);
    let mut out = Vec::new();
    c.revoke(0, &mut out);
    assert_eq!(c.mappings[0].state, State::Revoked);

    // Renewing the revoked record changes nothing and asks for
    // nothing: reviving it could duplicate a live fingerprint.
    let mut out = Vec::new();
    c.renew_mapping(0, 300, &mut out);
    assert_eq!(c.mappings[0].state, State::Revoked);
    assert_eq!(c.mappings[0].request.header.lifetime, 0);
    assert!(out.is_empty());
}

#[test]
fn rejected_inbound_reports_the_builder_error() {
    let mut c = Client::new(client_addr());
    let mut out = Vec::new();
    // A filter whose IPv4-mapped remote address has a prefix below
    // 96 fails the builder; the failure is reported, nothing stored.
    let map = InboundMap::new(6000, 120)
        .protocol(ProtocolNumber::Tcp)
        .filter(0, client_addr(), 90);
    c.new_inbound(map, RequestType::KeepAlive, 0, &mut out);
    assert_eq!(c.mappings.len(), 0);
    assert_eq!(out.len(), 1);
    assert!(matches!(
        out[0],
        Action::Notify(ClientEvent::Service(pcp::handle::Error::Parsing(
            pcp::parsing_error::ParsingError::InvalidPrefix(90),
        )))
    ));
}
