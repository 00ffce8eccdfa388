use astrid_capsule::audit::{AuditEvent, AuditOutcome};
use astrid_capsule::connections::{ClientConnections, ConnectionIdentity, Connections};
use astrid_capsule::host_state::types::{MessageOrigin, PrincipalId};
use astrid_capsule::net::accept::{
    accept_step, admit_client, await_peer, finish_peer, local_text, may_accept, may_accept_peer,
    accept_home, may_poll, poll_home, poll_result, poll_step, poll_timeout, take_peer, AcceptStep, Attempt, Handshake, Identity, Peer, PeerAnswer,
    PeerStep,
};
use astrid_capsule::net::by_handle::{check_dial, net_bind_unix, DialAnswer, StreamTable};
use astrid_capsule::net::connect::{
    connect_tcp, lookup_check, lookup_host, ConnectAnswer, ConnectAnswers, ConnectStep,
    LookupAnswer, ResolvedAddr,
};
use astrid_capsule::net::frame::{encode_frame, FrameEvent, FrameReadState, FrameStep};
use astrid_capsule::net::handshake::{
    challenge_message, generate_nonce_hex, handshake_length, handshake_request, validate_handshake,
    verify_peer_credentials, verify_signature_against_keys, CheckedKey, Evidence, HandshakeAnswers,
    HandshakeRequest, HandshakeStep, HeaderAnswer, KeyCheck, PayloadAnswer, Reply, TokenCheck,
};
use astrid_capsule::net::hosts::{is_loopback_bind_host, validate_host, IpAddr};
use astrid_capsule::net::lifecycle::{emit_client_disconnect, register_and_emit_connect};
use astrid_capsule::net::listeners::{
    bind_check, bind_unix, BindCheck, Lease, LocalAddr, Take, TcpListeners, UnixBind,
    MAX_ACTIVE_TCP_LISTENERS,
};
use astrid_capsule::net::quota::{StreamCounts, MAX_ACTIVE_STREAMS};
use astrid_capsule::net::stream::{
    close_stream, keepalive, keepalive_secs, linger, peek_result, read_bytes_result, read_limit, read_result,
    with_tcp_stream, write_bytes_result, write_deadline, write_result, ByteRead, ByteWrite, FrameWrite, Ingress,
    Transport,
};
use astrid_capsule::net::types::{
    is_peer_disconnect, map_io_err, map_write_frame_err, ErrorCode, IoError, IoErrorKind,
    NetReadStatus,
};

fn io(kind: IoErrorKind, text: &str) -> IoError {
    IoError { kind, text: text.to_owned() }
}

fn principal(name: &str) -> PrincipalId {
    PrincipalId { name: name.to_owned() }
}

fn empty_counts() -> StreamCounts {
    StreamCounts { capsule: 0, local: 0, store: 0 }
}

#[test]
fn net_max_active_streams_pinned() {
    assert_eq!(MAX_ACTIVE_STREAMS, 8);
}

#[test]
fn mod_tests_max_active_streams_pinned() {
    assert_eq!(MAX_ACTIVE_STREAMS, 8);
    assert_eq!(MAX_ACTIVE_TCP_LISTENERS, 4);
}

#[test]
fn validate_host_accepts_normal_names() {
    assert!(validate_host("example.com").is_ok());
    assert!(validate_host("fulcrum.unicity.network").is_ok());
    assert!(validate_host("127.0.0.1").is_ok());
    assert!(validate_host("::1").is_ok());
}

#[test]
fn validate_host_rejects_empty() {
    assert!(validate_host("").is_err());
}

#[test]
fn validate_host_rejects_null_bytes() {
    assert!(validate_host("evil\0.com").is_err());
}

#[test]
fn validate_host_rejects_overlength() {
    let long = "a".repeat(256);
    assert!(validate_host(&long).is_err());
}

#[test]
fn validate_host_accepts_max_length() {
    let max = "a".repeat(255);
    assert!(validate_host(&max).is_ok());
}

#[test]
fn host_length_is_counted_in_bytes() {
    assert!(validate_host(&"é".repeat(127)).is_ok());
    assert_eq!(validate_host(&"é".repeat(128)), Err(ErrorCode::AddressNotAvailable));
}

#[test]
fn loopback_bind_host_accepts_loopback() {
    assert!(is_loopback_bind_host("127.0.0.1", Some(IpAddr::V4(127, 0, 0, 1))));
    assert!(is_loopback_bind_host("127.0.0.5", Some(IpAddr::V4(127, 0, 0, 5))));
    assert!(is_loopback_bind_host("::1", Some(IpAddr::V6(1))));
    assert!(is_loopback_bind_host("localhost", None));
    assert!(is_loopback_bind_host("LOCALHOST", None));
}

#[test]
fn loopback_bind_host_rejects_non_loopback() {
    assert!(!is_loopback_bind_host("0.0.0.0", Some(IpAddr::V4(0, 0, 0, 0))));
    assert!(!is_loopback_bind_host("192.168.1.10", Some(IpAddr::V4(192, 168, 1, 10))));
    assert!(!is_loopback_bind_host("8.8.8.8", Some(IpAddr::V4(8, 8, 8, 8))));
    assert!(!is_loopback_bind_host("::", Some(IpAddr::V6(0))));
    assert!(!is_loopback_bind_host("example.com", None));
    assert!(!is_loopback_bind_host("", None));
}

#[test]
fn peer_disconnect_recognises_all_close_kinds() {
    for kind in [
        IoErrorKind::BrokenPipe,
        IoErrorKind::ConnectionReset,
        IoErrorKind::ConnectionAborted,
        IoErrorKind::UnexpectedEof,
    ] {
        assert!(is_peer_disconnect(&io(kind, "test")), "{kind:?} should be peer-disconnect");
    }
}

#[test]
fn peer_disconnect_rejects_unrelated_kinds() {
    for kind in [
        IoErrorKind::TimedOut,
        IoErrorKind::PermissionDenied,
        IoErrorKind::InvalidInput,
        IoErrorKind::Other,
    ] {
        assert!(
            !is_peer_disconnect(&io(kind, "test")),
            "{kind:?} must NOT be classified as peer-disconnect"
        );
    }
}

#[test]
fn write_frame_err_brokenpipe_maps_to_connection_reset() {
    let e = io(IoErrorKind::BrokenPipe, "peer gone");
    assert!(matches!(map_write_frame_err(&e), ErrorCode::ConnectionReset));
}

#[test]
fn write_frame_err_connection_reset_maps_to_connection_reset() {
    let e = io(IoErrorKind::ConnectionReset, "rst");
    assert!(matches!(map_write_frame_err(&e), ErrorCode::ConnectionReset));
}

#[test]
fn write_frame_err_connection_aborted_maps_to_connection_reset() {
    let e = io(IoErrorKind::ConnectionAborted, "abort");
    assert!(matches!(map_write_frame_err(&e), ErrorCode::ConnectionReset));
}

#[test]
fn write_frame_err_unexpected_eof_maps_to_connection_reset() {
    let e = io(IoErrorKind::UnexpectedEof, "eof");
    assert!(matches!(map_write_frame_err(&e), ErrorCode::ConnectionReset));
}

#[test]
fn write_frame_err_other_maps_to_unknown() {
    let e = io(IoErrorKind::Other, "weird");
    assert!(matches!(map_write_frame_err(&e), ErrorCode::Unknown(_)));
}

#[test]
fn write_frame_err_timed_out_maps_to_unknown() {
    let e = io(IoErrorKind::TimedOut, "slow");
    assert!(matches!(map_write_frame_err(&e), ErrorCode::Unknown(_)));
}

#[test]
fn io_errors_map_to_codes() {
    let cases = [
        (IoErrorKind::WouldBlock, ErrorCode::WouldBlock),
        (IoErrorKind::ConnectionRefused, ErrorCode::ConnectionRefused),
        (IoErrorKind::ConnectionReset, ErrorCode::ConnectionReset),
        (IoErrorKind::ConnectionAborted, ErrorCode::ConnectionReset),
        (IoErrorKind::BrokenPipe, ErrorCode::ConnectionReset),
        (IoErrorKind::TimedOut, ErrorCode::Timeout),
        (IoErrorKind::AddrInUse, ErrorCode::AddressInUse),
        (IoErrorKind::AddrNotAvailable, ErrorCode::AddressNotAvailable),
        (IoErrorKind::UnexpectedEof, ErrorCode::Unknown("e".to_owned())),
        (IoErrorKind::Other, ErrorCode::Unknown("e".to_owned())),
    ];
    for (kind, code) in cases {
        assert_eq!(map_io_err(&io(kind, "e")), code);
    }
}

#[test]
fn codes_are_shown_like_debug_output() {
    assert_eq!(ErrorCode::Quota.show(), "ErrorCode::Quota");
    assert_eq!(
        ErrorCode::Unknown("a \"b\"\n".to_owned()).show(),
        "ErrorCode::Unknown(\"a \\\"b\\\"\\n\")"
    );
}

#[test]
fn public_store_count_excludes_other_pending_reservations() {
    let mut counts = empty_counts();

    assert!(counts.reserve_net_stream());
    assert!(counts.reserve_pending());
    assert_eq!(counts.store, 1);

    counts.release_net_stream();
    assert_eq!(counts.store, 0);
    counts.claim_reserved_net_stream();
    assert_eq!(counts.store, 1);
    assert_eq!(counts.capsule, 1);
    assert_eq!(counts.local, 1);
}

#[test]
fn public_store_count_excludes_existing_pending_on_direct_reserve() {
    let mut counts = empty_counts();

    assert!(counts.reserve_pending());
    assert_eq!(counts.store, 0);

    assert!(counts.reserve_net_stream());
    assert_eq!(counts.store, 1);
    counts.claim_reserved_net_stream();
    assert_eq!(counts.store, 2);
    assert_eq!(counts.capsule, 2);
    assert_eq!(counts.local, 2);
}

#[test]
fn streams_stop_at_the_quota_and_come_back() {
    let mut counts = empty_counts();
    for _ in 0..MAX_ACTIVE_STREAMS {
        assert!(counts.reserve_net_stream());
    }
    assert!(!counts.reserve_net_stream());
    assert!(!counts.reserve_pending());
    assert_eq!(counts.capsule, 8);
    counts.release_net_stream();
    assert!(counts.reserve_pending());
    counts.drop_pending();
    assert_eq!(counts, StreamCounts { capsule: 7, local: 7, store: 7 });
}

fn go(check: BindCheck) -> (String, String, bool) {
    match check {
        BindCheck::Go { host, addr, shareable } => (host, addr, shareable),
        BindCheck::Failed(code, _) => panic!("refused: {code:?}"),
    }
}

#[test]
fn bind_checks_come_in_order() {
    let alice = principal("alice");
    let local = Some(IpAddr::V4(127, 0, 0, 1));
    match bind_check(&alice, "", 80, local, &None, true) {
        BindCheck::Failed(ErrorCode::AddressNotAvailable, None) => {}
        _ => panic!("an empty name comes first"),
    }
    match bind_check(&alice, "8.8.8.8", 80, Some(IpAddr::V4(8, 8, 8, 8)), &Some("no".to_owned()), true) {
        BindCheck::Failed(ErrorCode::CapabilityDenied, Some(record)) => {
            assert_eq!(record.principal.name, "alice");
            assert!(matches!(record.event, AuditEvent::NetBind(addr) if addr == "tcp:8.8.8.8:80"));
            assert!(matches!(record.outcome, AuditOutcome::Denied(reason) if reason == "no"));
        }
        _ => panic!("the security gate comes before the rule on addresses"),
    }
    match bind_check(&alice, "8.8.8.8", 80, Some(IpAddr::V4(8, 8, 8, 8)), &None, true) {
        BindCheck::Failed(ErrorCode::AirlockRejected, Some(record)) => {
            assert!(matches!(
                record.outcome,
                AuditOutcome::Failed(reason)
                    if reason == "non-loopback TCP bind refused (capsule servers are loopback-only)"
            ));
        }
        _ => panic!("servers stay on this machine"),
    }
    let (host, addr, shareable) = go(bind_check(&alice, "LocalHost", 8080, None, &None, true));
    assert_eq!(host, "127.0.0.1");
    assert_eq!(addr, "tcp:LocalHost:8080");
    assert!(shareable);
    assert!(!go(bind_check(&alice, "localhost", 0, None, &None, true)).2);
    assert!(!go(bind_check(&alice, "localhost", 8080, None, &None, false)).2);
}

#[test]
fn sharers_dedupe_onto_one_socket() {
    let mut listeners = TcpListeners::new();
    assert!(matches!(listeners.take("127.0.0.1", 8080, true, &None), Take::Bind));
    let first = match listeners.take("127.0.0.1", 8080, true, &Some(Ok(7))) {
        Take::Held(7, lease) => lease,
        _ => panic!("the first binds"),
    };
    let second = match listeners.take("127.0.0.1", 8080, true, &None) {
        Take::Held(7, lease) => lease,
        _ => panic!("the second shares"),
    };
    assert_eq!(listeners.count(), 1);
    assert_eq!(listeners.holders("127.0.0.1", 8080), 2);
    listeners.release(&first);
    assert_eq!(listeners.count(), 1);
    assert_eq!(listeners.holders("127.0.0.1", 8080), 1);
    listeners.release(&second);
    assert_eq!(listeners.count(), 0);
    assert_eq!(listeners.holders("127.0.0.1", 8080), 0);
    assert!(matches!(listeners.take("127.0.0.1", 8080, true, &None), Take::Bind));
}

#[test]
fn listener_quota_is_charged_per_socket() {
    let mut listeners = TcpListeners::new();
    for socket in 0..4u64 {
        assert!(matches!(
            listeners.take("127.0.0.1", 0, false, &Some(Ok(socket))),
            Take::Held(_, Lease::Own)
        ));
    }
    match listeners.take("127.0.0.1", 0, false, &Some(Ok(9))) {
        Take::Failed(ErrorCode::Quota, reason) => {
            assert_eq!(reason, "inbound TCP listener quota exceeded");
        }
        _ => panic!("the fifth is refused"),
    }
    listeners.release(&Lease::Own);
    assert_eq!(listeners.count(), 3);
    match listeners.take("127.0.0.1", 80, false, &Some(Err(io(IoErrorKind::AddrInUse, "used")))) {
        Take::Failed(ErrorCode::AddressInUse, reason) => {
            assert_eq!(reason, "ErrorCode::AddressInUse");
        }
        _ => panic!("a failed bind is told"),
    }
    assert_eq!(listeners.count(), 3);
}

#[test]
fn a_socket_that_leaves_the_machine_is_let_go() {
    let alice = principal("alice");
    let mut listeners = TcpListeners::new();
    let lease = match listeners.take("127.0.0.1", 80, true, &Some(Ok(1))) {
        Take::Held(_, lease) => lease,
        _ => panic!("bound"),
    };
    let outside = LocalAddr { text: "10.0.0.1:80".to_owned(), ip: IpAddr::V4(10, 0, 0, 1) };
    match listeners.settle(&alice, "tcp:localhost:80", &lease, &Ok(outside)) {
        Err((ErrorCode::AirlockRejected, record)) => assert!(matches!(
            record.outcome,
            AuditOutcome::Failed(reason) if reason == "resolved bind escaped loopback: 10.0.0.1:80"
        )),
        _ => panic!("refused"),
    }
    assert_eq!(listeners.count(), 0);
}

#[test]
fn a_bind_ends_with_its_real_address_or_lets_go() {
    let alice = principal("alice");
    let mut listeners = TcpListeners::new();
    let lease = match listeners.take("127.0.0.1", 0, false, &Some(Ok(1))) {
        Take::Held(_, lease) => lease,
        _ => panic!("bound"),
    };
    let at = LocalAddr { text: "127.0.0.1:4711".to_owned(), ip: IpAddr::V4(127, 0, 0, 1) };
    let actual = match listeners.settle(&alice, "tcp:localhost:0", &lease, &Ok(at)) {
        Ok(addr) => addr,
        Err(_) => panic!("it stays here"),
    };
    assert_eq!(actual, "tcp:127.0.0.1:4711");
    let (kept, record) = listeners.finish(&alice, "tcp:localhost:0", &actual, &lease, &Ok(5));
    assert_eq!(kept, Ok(5));
    assert!(matches!(record.event, AuditEvent::NetBind(addr) if addr == "tcp:127.0.0.1:4711"));
    assert!(matches!(record.outcome, AuditOutcome::Allowed));
    let (lost, record) =
        listeners.finish(&alice, "tcp:localhost:0", &actual, &lease, &Err("full".to_owned()));
    assert_eq!(lost, Err(ErrorCode::Unknown("resource table: full".to_owned())));
    assert!(matches!(record.event, AuditEvent::NetBind(addr) if addr == "tcp:localhost:0"));
    assert_eq!(listeners.count(), 0);
    let failed = listeners.settle(&alice, "a", &Lease::Own, &Err(io(IoErrorKind::Other, "odd")));
    assert!(matches!(failed, Err((ErrorCode::Unknown(text), _)) if text == "odd"));
}

fn addr(text: &str, safe: bool) -> ResolvedAddr {
    ResolvedAddr { text: text.to_owned(), safe }
}

fn answers(outcome: Option<ConnectAnswer>) -> ConnectAnswers {
    ConnectAnswers { gate: Some(None), outcome, kept: None }
}

fn ended(step: ConnectStep) -> Result<u32, ErrorCode> {
    match step {
        ConnectStep::Finish(result, _) => result,
        _ => panic!("not over"),
    }
}

#[test]
fn connect_asks_in_order() {
    let alice = principal("alice");
    let mut counts = empty_counts();
    let nothing = ConnectAnswers { gate: None, outcome: None, kept: None };
    assert_eq!(
        ended(connect_tcp(&alice, "", 443, true, &nothing, &mut counts)),
        Err(ErrorCode::AddressNotAvailable)
    );
    match connect_tcp(&alice, "example.com", 443, false, &nothing, &mut counts) {
        ConnectStep::Finish(Err(ErrorCode::CapabilityDenied), Some(record)) => {
            assert!(matches!(
                record.event,
                AuditEvent::NetConnect(host, 443) if host == "example.com"
            ));
            assert!(matches!(
                record.outcome,
                AuditOutcome::Denied(reason)
                    if reason == "restricted principal network policy denied endpoint"
            ));
        }
        _ => panic!("the policy refuses"),
    }
    assert!(matches!(
        connect_tcp(&alice, "example.com", 443, true, &nothing, &mut counts),
        ConnectStep::AskGate
    ));
    let refused =
        ConnectAnswers { gate: Some(Some("not listed".to_owned())), outcome: None, kept: None };
    match connect_tcp(&alice, "example.com", 443, true, &refused, &mut counts) {
        ConnectStep::Finish(Err(ErrorCode::CapabilityDenied), Some(record)) => assert!(matches!(
            record.outcome,
            AuditOutcome::Denied(reason) if reason == "not listed"
        )),
        _ => panic!("the security gate refuses"),
    }
    assert!(matches!(
        connect_tcp(&alice, "example.com", 443, true, &answers(None), &mut counts),
        ConnectStep::Resolve
    ));
    assert_eq!(counts, empty_counts());
}

#[test]
fn connect_failures_are_told_apart() {
    let alice = principal("alice");
    let mut counts = empty_counts();
    let cases = [
        (ConnectAnswer::Cancelled, ErrorCode::Closed),
        (ConnectAnswer::TimedOut, ErrorCode::Timeout),
        (ConnectAnswer::Unresolved, ErrorCode::NameUnresolvable),
        (ConnectAnswer::Resolved(vec![], None), ErrorCode::NameUnresolvable),
        (
            ConnectAnswer::Resolved(vec![addr("1.1.1.1", true), addr("10.0.0.1", false)], None),
            ErrorCode::AirlockRejected,
        ),
        (
            ConnectAnswer::Resolved(
                vec![addr("1.1.1.1", true)],
                Some(Err(io(IoErrorKind::ConnectionRefused, "refused"))),
            ),
            ErrorCode::ConnectionRefused,
        ),
    ];
    for (answer, code) in cases {
        assert_eq!(
            ended(connect_tcp(&alice, "h", 1, true, &answers(Some(answer)), &mut counts)),
            Err(code)
        );
    }
    assert_eq!(counts, empty_counts());
}

#[test]
fn connected_streams_count_until_they_are_lost() {
    let alice = principal("alice");
    let mut counts = empty_counts();
    let found = ConnectAnswer::Resolved(vec![addr("1.1.1.1", true)], None);
    assert!(matches!(
        connect_tcp(&alice, "h", 1, true, &answers(Some(found)), &mut counts),
        ConnectStep::Connect
    ));
    let made = ConnectAnswer::Resolved(vec![addr("1.1.1.1", true)], Some(Ok(())));
    assert!(matches!(
        connect_tcp(&alice, "h", 1, true, &answers(Some(made)), &mut counts),
        ConnectStep::Keep
    ));
    assert_eq!(counts, StreamCounts { capsule: 1, local: 1, store: 1 });
    let kept = ConnectAnswers { gate: Some(None), outcome: None, kept: Some(Ok(3)) };
    assert_eq!(ended(connect_tcp(&alice, "h", 1, true, &kept, &mut counts)), Ok(3));
    assert_eq!(counts.capsule, 1);
    let lost =
        ConnectAnswers { gate: Some(None), outcome: None, kept: Some(Err("full".to_owned())) };
    assert_eq!(
        ended(connect_tcp(&alice, "h", 1, true, &lost, &mut counts)),
        Err(ErrorCode::Unknown("resource table: full".to_owned()))
    );
    assert_eq!(counts, empty_counts());
    let mut full = StreamCounts { capsule: 8, local: 8, store: 8 };
    match connect_tcp(&alice, "h", 1, true, &answers(None), &mut full) {
        ConnectStep::Finish(Err(ErrorCode::Quota), Some(record)) => assert!(matches!(
            record.outcome,
            AuditOutcome::Failed(reason) if reason == "ErrorCode::Quota"
        )),
        _ => panic!("over the quota"),
    }
}

#[test]
fn lookups_show_only_what_leads_outside() {
    assert_eq!(lookup_check("", true, false), Err(ErrorCode::AddressNotAvailable));
    assert_eq!(lookup_check("h", false, false), Err(ErrorCode::CapabilityDenied));
    assert_eq!(lookup_check("h", true, true), Err(ErrorCode::CapabilityDenied));
    assert_eq!(lookup_check("h", true, false), Ok(()));
    assert_eq!(lookup_host(&LookupAnswer::Unresolved), Err(ErrorCode::NameUnresolvable));
    let found = LookupAnswer::Resolved(vec![
        addr("1.1.1.1:0", true),
        addr("10.0.0.1:0", false),
        addr("8.8.8.8:0", true),
    ]);
    assert_eq!(
        lookup_host(&found),
        Ok(vec!["1.1.1.1:0".to_owned(), "8.8.8.8:0".to_owned()])
    );
}

#[test]
fn frames_begin_with_their_length() {
    let bytes = match encode_frame(b"abc") {
        Ok(bytes) => bytes,
        Err(_) => panic!("short enough"),
    };
    assert_eq!(bytes, [0, 0, 0, 3, b'a', b'b', b'c']);
    let long = vec![7u8; 0x01_02_03];
    let bytes = match encode_frame(&long) {
        Ok(bytes) => bytes,
        Err(_) => panic!("short enough"),
    };
    assert_eq!(bytes[..4], [0, 1, 2, 3]);
    assert_eq!(bytes.len(), 4 + long.len());
}

#[test]
fn fragmented_frames_survive_a_pause() {
    let mut state = FrameReadState::new();
    assert!(matches!(state.start(), FrameStep::Read(4, 50)));
    assert!(matches!(state.advance(FrameEvent::Bytes(vec![0])), FrameStep::ReadOn(3)));
    assert!(matches!(
        state.advance(FrameEvent::TimedOut),
        FrameStep::Done(Ok(NetReadStatus::Pending))
    ));
    assert_eq!(state.header_read(), 1);
    assert!(matches!(state.advance(FrameEvent::Bytes(vec![0, 0, 3])), FrameStep::Read(3, 5000)));
    assert!(matches!(state.advance(FrameEvent::Bytes(vec![b'a'])), FrameStep::ReadOn(2)));
    match state.advance(FrameEvent::Bytes(vec![b'b', b'c'])) {
        FrameStep::Done(Ok(NetReadStatus::Data(data))) => assert_eq!(data, b"abc"),
        _ => panic!("complete"),
    }
    assert_eq!(state.header_read(), 0);
}

#[test]
fn pieces_do_not_start_a_wait_anew() {
    let mut state = FrameReadState::new();
    assert!(matches!(state.start(), FrameStep::Read(4, 50)));
    for left in [3, 2, 1] {
        match state.advance(FrameEvent::Bytes(vec![0])) {
            FrameStep::ReadOn(missing) => assert_eq!(missing, left),
            _ => panic!("the wait for the length goes on"),
        }
    }
    assert!(matches!(state.advance(FrameEvent::Bytes(vec![3])), FrameStep::Read(3, 5000)));
    assert!(matches!(state.advance(FrameEvent::Bytes(vec![b'a'])), FrameStep::ReadOn(2)));
    match state.advance(FrameEvent::TimedOut) {
        FrameStep::Done(Err(text)) => assert_eq!(text, "Payload read timed out"),
        _ => panic!("the time for the whole payload is up"),
    }
    assert!(matches!(state.start(), FrameStep::Read(2, 5000)), "the next read waits anew");
}

#[test]
fn clients_need_a_home_only_for_a_handshake() {
    let lost: Result<(), String> = Err("HOME is not set".to_owned());
    assert_eq!(
        accept_home(true, &lost),
        Err(ErrorCode::Unknown("cannot resolve astrid home: HOME is not set".to_owned()))
    );
    assert_eq!(accept_home(false, &lost), Ok(()));
    assert_eq!(accept_home(true, &Ok(())), Ok(()));
    assert!(matches!(poll_home(true, &lost), Some(AcceptStep::Nobody)));
    assert!(poll_home(false, &lost).is_none());
    assert!(poll_home(true, &Ok(())).is_none());
}

#[test]
fn empty_frames_are_complete_with_their_length() {
    let mut state = FrameReadState::new();
    match state.advance(FrameEvent::Bytes(vec![0, 0, 0, 0])) {
        FrameStep::Done(Ok(NetReadStatus::Data(data))) => assert!(data.is_empty()),
        _ => panic!("complete"),
    }
}

#[test]
fn frames_that_are_too_long_are_forgotten() {
    let mut state = FrameReadState::new();
    match state.advance(FrameEvent::Bytes(vec![0, 160, 0, 1])) {
        FrameStep::Done(Err(text)) => assert_eq!(text, "Payload too large (max 10MB)"),
        _ => panic!("ten mebibytes and one byte are too much"),
    }
    assert_eq!(state.header_read(), 0);
    assert!(matches!(
        state.advance(FrameEvent::Bytes(vec![0, 160, 0, 0])),
        FrameStep::Read(10485760, 15240)
    ));
}

#[test]
fn frame_reads_end_in_different_ways() {
    let mut state = FrameReadState::new();
    assert!(matches!(state.advance(FrameEvent::Eof), FrameStep::Done(Ok(NetReadStatus::Closed))));
    assert!(matches!(
        state.advance(FrameEvent::Bytes(vec![])),
        FrameStep::Done(Ok(NetReadStatus::Closed))
    ));
    assert!(matches!(
        state.advance(FrameEvent::Failed(io(IoErrorKind::ConnectionReset, "rst"))),
        FrameStep::Done(Ok(NetReadStatus::Closed))
    ));
    match state.advance(FrameEvent::Failed(io(IoErrorKind::Other, "odd"))) {
        FrameStep::Done(Err(text)) => assert_eq!(text, "socket read error: odd"),
        _ => panic!("an error"),
    }
    assert!(matches!(state.advance(FrameEvent::Bytes(vec![0, 0, 0, 9])), FrameStep::Read(9, 5000)));
    match state.advance(FrameEvent::Failed(io(IoErrorKind::Other, "odd"))) {
        FrameStep::Done(Err(text)) => assert_eq!(text, "socket payload read error: odd"),
        _ => panic!("an error"),
    }
    match state.advance(FrameEvent::TimedOut) {
        FrameStep::Done(Err(text)) => assert_eq!(text, "Payload read timed out"),
        _ => panic!("an error"),
    }
}

#[test]
fn write_deadlines_scale_with_the_payload() {
    let plain = Transport::Tcp { read_timeout: None, write_timeout: None };
    assert_eq!(write_deadline(plain, 0), 5000);
    assert_eq!(write_deadline(plain, 1024 * 1024), 6024);
    assert_eq!(write_deadline(Transport::Unix, 2048), 5002);
    let set = Transport::Tcp { read_timeout: None, write_timeout: Some(10) };
    assert_eq!(write_deadline(set, 1024 * 1024), 10);
}

#[test]
fn only_tcp_streams_have_timeouts() {
    let mut unix = Transport::Unix;
    assert_eq!(unix.set_read_timeout(Some(1)), Err(ErrorCode::NotTcp));
    assert_eq!(unix.set_write_timeout(Some(1)), Err(ErrorCode::NotTcp));
    assert_eq!(unix.read_timeout(), Err(ErrorCode::NotTcp));
    assert_eq!(unix.write_timeout(), Err(ErrorCode::NotTcp));
    let mut tcp = Transport::Tcp { read_timeout: None, write_timeout: None };
    assert_eq!(tcp.set_read_timeout(Some(1)), Ok(()));
    assert_eq!(tcp.set_write_timeout(Some(2)), Ok(()));
    assert_eq!(tcp.read_timeout(), Ok(Some(1)));
    assert_eq!(tcp.write_timeout(), Ok(Some(2)));
}

#[test]
fn stream_results_are_told_apart() {
    assert_eq!(read_result(None), Ok(NetReadStatus::Closed));
    assert_eq!(read_result(Some(Ok(NetReadStatus::Pending))), Ok(NetReadStatus::Pending));
    assert_eq!(
        read_result(Some(Err("odd".to_owned()))),
        Err(ErrorCode::Unknown("odd".to_owned()))
    );
    assert_eq!(write_result(&FrameWrite::Written), Ok(()));
    assert_eq!(
        write_result(&FrameWrite::Failed(io(IoErrorKind::BrokenPipe, "gone"))),
        Err(ErrorCode::ConnectionReset)
    );
    assert_eq!(
        write_result(&FrameWrite::Failed(io(IoErrorKind::Other, "odd"))),
        Err(ErrorCode::Unknown("write: odd".to_owned()))
    );
    assert_eq!(
        write_result(&FrameWrite::TimedOut),
        Err(ErrorCode::Unknown("write timed out: peer not draining".to_owned()))
    );
    assert_eq!(write_result(&FrameWrite::Cancelled), Err(ErrorCode::Closed));
    assert_eq!(read_bytes_result(ByteRead::Bytes(vec![1])), Ok(vec![1]));
    assert_eq!(
        read_bytes_result(ByteRead::Failed(io(IoErrorKind::ConnectionReset, "rst"))),
        Ok(vec![])
    );
    assert_eq!(
        read_bytes_result(ByteRead::Failed(io(IoErrorKind::Other, "odd"))),
        Err(ErrorCode::Unknown("read error: odd".to_owned()))
    );
    assert_eq!(read_bytes_result(ByteRead::TimedOut), Err(ErrorCode::WouldBlock));
    assert_eq!(read_bytes_result(ByteRead::Cancelled), Err(ErrorCode::Closed));
    let tcp = Transport::Tcp { read_timeout: None, write_timeout: None };
    assert_eq!(peek_result(Transport::Unix, ByteRead::Bytes(vec![1])), Err(ErrorCode::NotTcp));
    assert_eq!(
        peek_result(tcp, ByteRead::Failed(io(IoErrorKind::ConnectionReset, "rst"))),
        Err(ErrorCode::ConnectionReset)
    );
    assert_eq!(write_bytes_result(&ByteWrite::Wrote(7)), Ok(7));
    assert_eq!(
        write_bytes_result(&ByteWrite::Failed(io(IoErrorKind::BrokenPipe, "gone"))),
        Err(ErrorCode::Unknown("write error: gone".to_owned()))
    );
    assert_eq!(write_bytes_result(&ByteWrite::TimedOut), Err(ErrorCode::WouldBlock));
    assert_eq!(write_bytes_result(&ByteWrite::Cancelled), Err(ErrorCode::Closed));
    assert_eq!(read_limit(100), 100);
    assert_eq!(read_limit(u32::MAX), 10485760);
    assert_eq!(keepalive_secs(0), 1);
    assert_eq!(keepalive_secs(30), 30);
}

fn identity(name: &str, key: &str) -> ConnectionIdentity {
    ConnectionIdentity {
        principal: name.to_owned(),
        device_key_id: Some(key.to_owned()),
        request_owner: "owner".to_owned(),
    }
}

#[test]
fn framed_reads_note_and_forget_the_verified_peer() {
    let mut connections = Connections::new();
    connections.bind(5, identity("alice", "key-a"));
    let mut ingress = Ingress::new();
    let data = Ok(NetReadStatus::Data(vec![1]));
    ingress.record_read(true, &connections, 5, &data);
    assert_eq!(ingress.principal.as_deref(), Some("alice"));
    assert_eq!(ingress.device_key_id.as_deref(), Some("key-a"));
    assert_eq!(ingress.origin, Some(MessageOrigin::LocalSocket));
    ingress.record_read(false, &connections, 6, &data);
    assert_eq!(ingress.principal.as_deref(), Some("alice"));
    ingress.record_read(true, &connections, 6, &data);
    assert!(ingress.principal.is_none() && ingress.device_key_id.is_none());
    assert!(ingress.origin.is_none());
    ingress.record_read(true, &connections, 5, &data);
    ingress.record_read(true, &connections, 5, &Ok(NetReadStatus::Pending));
    assert!(ingress.principal.is_none() && ingress.origin.is_none());
    ingress.record_read(true, &connections, 5, &data);
    ingress.record_read(true, &connections, 5, &Err(ErrorCode::Closed));
    assert!(ingress.principal.is_none() && ingress.origin.is_none());
}

#[test]
fn connect_and_disconnect_events_balance() {
    let mut clients = ClientConnections::new();
    let came = register_and_emit_connect(&mut clients, 7, "alice");
    assert_eq!(came.topic, "client.v1.connect");
    assert_eq!(came.principal, "alice");
    assert!(came.reason.is_none());
    let gone = emit_client_disconnect(&mut clients, 7).expect("it was a client");
    assert_eq!(gone.topic, "client.v1.disconnect");
    assert_eq!(gone.principal, "alice");
    assert_eq!(gone.reason.as_deref(), Some("socket closed"));
    assert!(emit_client_disconnect(&mut clients, 7).is_none());
    assert!(emit_client_disconnect(&mut clients, 8).is_none());
}

#[test]
fn closing_a_stream_forgets_everything_about_it() {
    let mut counts = StreamCounts { capsule: 2, local: 1, store: 1 };
    let mut connections = Connections::new();
    let mut clients = ClientConnections::new();
    connections.bind(3, identity("bob", "key-b"));
    let _ = register_and_emit_connect(&mut clients, 3, "bob");
    let gone = close_stream(3, true, &mut counts, &mut connections, &mut clients)
        .expect("it was a client");
    assert_eq!(gone.principal, "bob");
    assert_eq!(counts, StreamCounts { capsule: 1, local: 0, store: 0 });
    assert!(connections.lookup(3).is_none());
    assert!(close_stream(3, false, &mut counts, &mut connections, &mut clients).is_none());
    assert_eq!(counts.capsule, 1);
}

#[test]
fn accepts_retry_until_somebody_is_let_in() {
    let room = empty_counts();
    let full = StreamCounts { capsule: 8, local: 0, store: 0 };
    assert_eq!(may_accept(false, &room), Err(ErrorCode::Closed));
    assert_eq!(may_accept(true, &full), Err(ErrorCode::Quota));
    assert_eq!(may_accept(true, &room), Ok(()));
    assert!(matches!(accept_step(Attempt::Cancelled), AcceptStep::Fail(ErrorCode::Closed)));
    assert!(matches!(accept_step(Attempt::Stranger("uid".to_owned())), AcceptStep::Retry(100)));
    assert!(matches!(
        accept_step(Attempt::Came(Handshake::Refused("token".to_owned()))),
        AcceptStep::Retry(0)
    ));
    assert!(matches!(
        accept_step(Attempt::Came(Handshake::Cancelled)),
        AcceptStep::Fail(ErrorCode::Closed)
    ));
    assert!(matches!(
        accept_step(Attempt::Failed(io(IoErrorKind::ConnectionReset, "rst"))),
        AcceptStep::Fail(ErrorCode::ConnectionReset)
    ));
    assert!(matches!(
        accept_step(Attempt::Came(Handshake::NotNeeded)),
        AcceptStep::Take(None)
    ));
    let known = Identity { principal: "alice".to_owned(), key_id: "k".to_owned() };
    assert!(matches!(
        accept_step(Attempt::Came(Handshake::Passed(Some(known)))),
        AcceptStep::Take(Some(_))
    ));
    assert!(matches!(poll_step(Attempt::TimedOut), AcceptStep::Nobody));
    assert!(matches!(poll_step(Attempt::Cancelled), AcceptStep::Nobody));
    assert!(matches!(poll_step(Attempt::Stranger("uid".to_owned())), AcceptStep::Nobody));
    assert!(matches!(
        poll_step(Attempt::Failed(io(IoErrorKind::Other, "odd"))),
        AcceptStep::Fail(ErrorCode::Unknown(_))
    ));
    assert_eq!(poll_timeout(5), 5);
    assert_eq!(poll_timeout(600_000), 60_000);
}

#[test]
fn clients_are_known_by_what_they_proved() {
    let mut counts = empty_counts();
    let mut connections = Connections::new();
    let mut clients = ClientConnections::new();
    let known = Some(Identity { principal: "alice".to_owned(), key_id: "key-a".to_owned() });
    let (rep, event) =
        admit_client(&Ok(4), &known, "owner-4", &mut counts, &mut connections, &mut clients)
            .expect("there is room");
    assert_eq!(rep, 4);
    assert_eq!(event.principal, "alice");
    let bound = connections.lookup(4).expect("bound");
    assert_eq!(bound.principal, "alice");
    assert_eq!(bound.device_key_id.as_deref(), Some("key-a"));
    assert_eq!(bound.request_owner, "owner-4");
    let (_, event) =
        admit_client(&Ok(5), &None, "owner-5", &mut counts, &mut connections, &mut clients)
            .expect("there is room");
    assert_eq!(event.principal, "anonymous");
    assert!(connections.lookup(5).is_none());
    assert_eq!(counts, StreamCounts { capsule: 2, local: 2, store: 2 });
    let lost = admit_client(
        &Err("full".to_owned()),
        &None,
        "o",
        &mut counts,
        &mut connections,
        &mut clients,
    );
    assert!(matches!(lost, Err(ErrorCode::Unknown(text)) if text == "resource table: full"));
    assert_eq!(counts.capsule, 2);
    let mut full = StreamCounts { capsule: 8, local: 0, store: 0 };
    let refused =
        admit_client(&Ok(6), &None, "o", &mut full, &mut connections, &mut clients);
    assert!(matches!(refused, Err(ErrorCode::Quota)));
}

fn peer() -> Peer {
    Peer { local_addr: "127.0.0.1:80".to_owned(), peer_addr: "127.0.0.1:5000".to_owned() }
}

#[test]
fn peers_that_wait_count_once() {
    let alice = principal("alice");
    let mut counts = empty_counts();
    let (kept, record) = await_peer(&alice, &peer(), &mut counts);
    assert!(kept);
    assert!(matches!(record.outcome, AuditOutcome::Allowed));
    assert!(matches!(
        record.event,
        AuditEvent::NetAccept(local, from) if local == "127.0.0.1:80" && from == "127.0.0.1:5000"
    ));
    assert_eq!(counts, StreamCounts { capsule: 1, local: 1, store: 0 });
    assert!(matches!(take_peer(&alice, &PeerAnswer::Waiting, &mut counts), PeerStep::Keep));
    assert_eq!(counts, StreamCounts { capsule: 1, local: 1, store: 1 });
    let (rep, told) = finish_peer(&alice, &None, &Ok(2), &mut counts);
    assert_eq!(rep, Ok(2));
    assert!(told.is_none());
    let mut full = StreamCounts { capsule: 8, local: 0, store: 0 };
    let (kept, record) = await_peer(&alice, &peer(), &mut full);
    assert!(!kept);
    assert!(matches!(
        record.outcome,
        AuditOutcome::Failed(reason) if reason == "network stream quota exceeded"
    ));
}

#[test]
fn peers_are_told_when_they_are_taken() {
    let alice = principal("alice");
    let mut counts = empty_counts();
    let mut recv_yielded = false;
    let full = StreamCounts { capsule: 8, local: 8, store: 8 };
    assert_eq!(may_accept_peer(&full, &mut recv_yielded), Err(ErrorCode::Quota));
    assert!(!recv_yielded, "who may not wait has not yielded");
    assert_eq!(may_accept_peer(&counts, &mut recv_yielded), Ok(()));
    assert!(recv_yielded);
    assert!(matches!(take_peer(&alice, &PeerAnswer::TimedOut, &mut counts), PeerStep::Nobody));
    assert!(matches!(
        take_peer(&alice, &PeerAnswer::Cancelled, &mut counts),
        PeerStep::Fail(ErrorCode::Closed, None)
    ));
    assert!(matches!(
        take_peer(&alice, &PeerAnswer::Failed(io(IoErrorKind::TimedOut, "t")), &mut counts),
        PeerStep::Fail(ErrorCode::Timeout, None)
    ));
    assert!(matches!(take_peer(&alice, &PeerAnswer::Came(peer()), &mut counts), PeerStep::Keep));
    assert_eq!(counts, StreamCounts { capsule: 1, local: 1, store: 1 });
    let (lost, told) = finish_peer(&alice, &Some(peer()), &Err("full".to_owned()), &mut counts);
    assert_eq!(lost, Err(ErrorCode::Unknown("resource table: full".to_owned())));
    assert!(matches!(
        told.expect("told").outcome,
        AuditOutcome::Failed(reason) if reason == "ErrorCode::Unknown(\"resource table: full\")"
    ));
    assert_eq!(counts, empty_counts());
    let mut full = StreamCounts { capsule: 8, local: 0, store: 0 };
    assert!(matches!(
        take_peer(&alice, &PeerAnswer::Came(peer()), &mut full),
        PeerStep::Fail(ErrorCode::Quota, Some(_))
    ));
    assert_eq!(local_text(&Ok("a:1".to_owned())), "a:1");
    assert_eq!(local_text(&Err("odd".to_owned())), "unknown (odd)");
}

fn request(version: u32, claimed: Option<&str>, signature: Option<&str>) -> HandshakeRequest {
    HandshakeRequest {
        protocol_version: version,
        token: "t".to_owned(),
        client_version: "1".to_owned(),
        claimed_principal: claimed.map(str::to_owned),
        signature: signature.map(str::to_owned),
    }
}

fn opening(first: HandshakeRequest, token: TokenCheck) -> HandshakeAnswers {
    HandshakeAnswers {
        first: Some(Ok(first)),
        token,
        principal: Ok(()),
        nonce: None,
        challenge_sent: None,
        second: None,
        evidence: None,
        accept_sent: None,
    }
}

fn refusal(step: HandshakeStep) -> (String, Option<String>) {
    match step {
        HandshakeStep::Refuse(reason, None) => (reason, None),
        HandshakeStep::Refuse(reason, Some(Reply::Refused(text))) => (reason, Some(text)),
        _ => panic!("not refused"),
    }
}

#[test]
fn unsigned_handshakes_let_nobody_in_particular_in() {
    let mut answers = opening(request(1, None, None), TokenCheck::Right);
    assert!(matches!(validate_handshake(&answers, 1), HandshakeStep::SendAccept));
    answers.accept_sent = Some(Ok(()));
    assert!(matches!(validate_handshake(&answers, 1), HandshakeStep::LetIn(None)));
    answers.accept_sent = Some(Err("gone".to_owned()));
    assert_eq!(
        refusal(validate_handshake(&answers, 1)),
        ("failed to send handshake response: gone".to_owned(), None)
    );
    answers.first = None;
    assert!(matches!(validate_handshake(&answers, 1), HandshakeStep::ReadFirst));
}

#[test]
fn versions_are_looked_at_before_tokens() {
    let text = "Protocol version mismatch (client=2, server=1). Restart the daemon with \
                `astrid daemon restart`.";
    let answers = opening(request(2, None, None), TokenCheck::Wrong);
    assert_eq!(
        refusal(validate_handshake(&answers, 1)),
        (text.to_owned(), Some(text.to_owned()))
    );
    for token in [TokenCheck::Wrong, TokenCheck::Malformed] {
        let answers = opening(request(1, None, None), token);
        assert_eq!(
            refusal(validate_handshake(&answers, 1)),
            ("invalid session token".to_owned(), Some("authentication failed".to_owned()))
        );
    }
}

#[test]
fn signed_handshakes_let_the_principal_in() {
    let mut answers = opening(request(1, Some("alice"), None), TokenCheck::Right);
    assert!(matches!(validate_handshake(&answers, 1), HandshakeStep::DrawNonce));
    answers.nonce = Some(Ok("abcd".to_owned()));
    assert!(matches!(
        validate_handshake(&answers, 1),
        HandshakeStep::SendChallenge(nonce) if nonce == "abcd"
    ));
    answers.challenge_sent = Some(Ok(()));
    assert!(matches!(validate_handshake(&answers, 1), HandshakeStep::ReadSecond));
    answers.second = Some(Ok(request(1, None, Some("sig"))));
    assert!(matches!(
        validate_handshake(&answers, 1),
        HandshakeStep::CheckKeys(text) if text == "astrid-principal-auth:v1:alice:abcd"
    ));
    answers.evidence = Some(Evidence {
        profile: Ok(true),
        signature: Ok(()),
        keys: vec![
            CheckedKey { key_id: "bad".to_owned(), check: KeyCheck::Unreadable },
            CheckedKey { key_id: "good".to_owned(), check: KeyCheck::Verified },
        ],
    });
    assert!(matches!(validate_handshake(&answers, 1), HandshakeStep::SendAccept));
    answers.accept_sent = Some(Ok(()));
    match validate_handshake(&answers, 1) {
        HandshakeStep::LetIn(Some((principal, key))) => {
            assert_eq!(principal, "alice");
            assert_eq!(key, "good");
        }
        _ => panic!("let in"),
    }
}

#[test]
fn claims_that_are_not_proved_fail_closed() {
    let mut answers = opening(request(1, Some("alice"), None), TokenCheck::Right);
    answers.nonce = Some(Ok("abcd".to_owned()));
    answers.challenge_sent = Some(Ok(()));
    answers.second = Some(Ok(request(1, None, None)));
    let told = Some("authentication failed".to_owned());
    assert_eq!(
        refusal(validate_handshake(&answers, 1)),
        ("missing signature in second handshake frame".to_owned(), told.clone())
    );
    answers.second = Some(Ok(request(1, None, Some("sig"))));
    let cases = [
        (
            Evidence { profile: Err("gone".to_owned()), signature: Ok(()), keys: vec![] },
            "cannot load principal profile: gone",
        ),
        (
            Evidence { profile: Ok(false), signature: Ok(()), keys: vec![] },
            "principal alice is disabled",
        ),
        (
            Evidence { profile: Ok(true), signature: Err("short".to_owned()), keys: vec![] },
            "malformed signature: short",
        ),
        (
            Evidence { profile: Ok(true), signature: Ok(()), keys: vec![] },
            "principal alice has no registered ed25519 key",
        ),
        (
            Evidence {
                profile: Ok(true),
                signature: Ok(()),
                keys: vec![CheckedKey { key_id: "k".to_owned(), check: KeyCheck::Refused }],
            },
            "signature did not verify against any registered key for alice",
        ),
    ];
    for (evidence, reason) in cases {
        answers.evidence = Some(evidence);
        assert_eq!(
            refusal(validate_handshake(&answers, 1)),
            (reason.to_owned(), told.clone())
        );
    }
    answers.challenge_sent = Some(Err("gone".to_owned()));
    assert_eq!(
        refusal(validate_handshake(&answers, 1)),
        ("failed to send challenge: gone".to_owned(), None)
    );
    answers.nonce = Some(Err("dry".to_owned()));
    assert_eq!(
        refusal(validate_handshake(&answers, 1)),
        ("challenge nonce generation failed: dry".to_owned(), told.clone())
    );
    answers.principal = Err("empty".to_owned());
    assert_eq!(
        refusal(validate_handshake(&answers, 1)),
        ("invalid claimed principal: empty".to_owned(), told)
    );
}

#[test]
fn the_first_key_that_verifies_counts() {
    let keys = vec![
        CheckedKey { key_id: "a".to_owned(), check: KeyCheck::Refused },
        CheckedKey { key_id: "b".to_owned(), check: KeyCheck::Verified },
        CheckedKey { key_id: "c".to_owned(), check: KeyCheck::Verified },
    ];
    assert_eq!(verify_signature_against_keys("p", &keys), Ok("b".to_owned()));
    assert_eq!(challenge_message("p", "00"), "astrid-principal-auth:v1:p:00");
}

#[test]
fn nonces_are_hexadecimal_and_fresh() {
    let first = generate_nonce_hex(32).expect("random bytes");
    let second = generate_nonce_hex(32).expect("random bytes");
    assert_eq!(first.len(), 64);
    assert!(first.chars().all(|c| c.is_ascii_digit() || ('a'..='f').contains(&c)));
    assert_ne!(first, second);
}

#[test]
fn handshake_frames_are_bounded() {
    assert_eq!(handshake_length(&HeaderAnswer::Bytes(vec![0, 0, 16, 0])), Ok(4096));
    assert_eq!(
        handshake_length(&HeaderAnswer::Bytes(vec![0, 0, 16, 1])),
        Err("handshake too large: 4097 bytes".to_owned())
    );
    assert_eq!(
        handshake_length(&HeaderAnswer::TimedOut),
        Err("handshake timed out (5s)".to_owned())
    );
    assert_eq!(
        handshake_length(&HeaderAnswer::Failed("rst".to_owned())),
        Err("handshake read error: rst".to_owned())
    );
    let text = |answer| match handshake_request(answer) {
        Err(text) => text,
        Ok(_) => panic!("no request"),
    };
    assert_eq!(text(PayloadAnswer::TimedOut), "handshake payload timed out");
    assert_eq!(text(PayloadAnswer::Failed("e".to_owned())), "handshake payload read error: e");
    assert_eq!(text(PayloadAnswer::Invalid("e".to_owned())), "invalid handshake JSON: e");
    assert!(handshake_request(PayloadAnswer::Request(request(1, None, None))).is_ok());
}

#[test]
fn peers_run_under_the_same_user() {
    assert_eq!(verify_peer_credentials(&Ok(1000), 1000), Ok(()));
    assert_eq!(
        verify_peer_credentials(&Ok(0), 1000),
        Err("peer UID 0 does not match daemon UID 1000".to_owned())
    );
    assert_eq!(
        verify_peer_credentials(&Err("odd".to_owned()), 1000),
        Err("failed to check peer credentials: odd".to_owned())
    );
}

#[test]
fn stream_numbers_are_never_reused() {
    let mut table = StreamTable::new(1);
    let came = Attempt::Came(Handshake::NotNeeded);
    assert_eq!(table.net_accept(&came), Some(Ok(1)));
    assert_eq!(table.net_poll_accept(&came), Ok(Some(2)));
    table.net_close_stream(1);
    table.net_close_stream(1);
    assert_eq!(table.len(), 1);
    assert!(!table.is_open(1));
    assert_eq!(table.net_accept(&came), Some(Ok(3)));
    let mut last = StreamTable::new(u64::MAX);
    assert_eq!(
        last.net_accept(&came),
        Some(Err("stream handle ID space exhausted".to_owned()))
    );
}

#[test]
fn numbered_streams_stop_at_the_cap() {
    let mut table = StreamTable::new(1);
    let came = Attempt::Came(Handshake::NotNeeded);
    assert_eq!(table.may_accept(true), Ok(()));
    assert_eq!(
        table.may_accept(false),
        Err("No CLI Socket Listener available in HostState".to_owned())
    );
    for _ in 0..8 {
        assert!(matches!(table.net_accept(&came), Some(Ok(_))));
    }
    let cap = "connection cap reached (8/8)".to_owned();
    assert_eq!(table.may_accept(false), Err(cap.clone()));
    assert_eq!(table.net_accept(&came), Some(Err(cap.clone())));
    assert_eq!(table.net_poll_accept(&came), Ok(None));
    assert_eq!(table.may_poll(true), Ok(false));
    assert_eq!(
        table.may_poll(false),
        Err("No CLI Socket Listener available in HostState".to_owned())
    );
    assert_eq!(table.may_connect(&None), Err(cap.clone()));
    let dialled = DialAnswer::Resolved(vec![addr("1.1.1.1", true)], Ok(()));
    assert_eq!(table.net_connect_tcp(&dialled), Err(cap));
}

#[test]
fn numbered_accepts_retry_or_end() {
    let mut table = StreamTable::new(1);
    assert_eq!(
        table.net_accept(&Attempt::Cancelled),
        Some(Err("capsule unloading".to_owned()))
    );
    assert_eq!(
        table.net_accept(&Attempt::Failed(io(IoErrorKind::Other, "odd"))),
        Some(Err("accept error: odd".to_owned()))
    );
    assert_eq!(table.net_accept(&Attempt::Stranger("uid".to_owned())), None);
    assert_eq!(
        table.net_accept(&Attempt::Came(Handshake::Refused("token".to_owned()))),
        None
    );
    assert_eq!(table.net_poll_accept(&Attempt::TimedOut), Ok(None));
    assert_eq!(
        table.net_poll_accept(&Attempt::Failed(io(IoErrorKind::Other, "odd"))),
        Err("accept error: odd".to_owned())
    );
    assert_eq!(net_bind_unix(&None), Ok(1));
    assert_eq!(
        net_bind_unix(&Some("no".to_owned())),
        Err("security denied net_bind: no".to_owned())
    );
}

#[test]
fn numbered_streams_read_and_write() {
    let mut table = StreamTable::new(1);
    assert_eq!(table.net_read(1, None), Err("Stream handle not found".to_owned()));
    assert_eq!(table.net_write(1, &None), Err("Stream handle not found".to_owned()));
    let _ = table.net_accept(&Attempt::Came(Handshake::NotNeeded));
    assert_eq!(table.net_read(1, None), Ok(NetReadStatus::Pending));
    assert_eq!(
        table.net_read(1, Some(Ok(NetReadStatus::Data(vec![1])))),
        Ok(NetReadStatus::Data(vec![1]))
    );
    assert_eq!(table.net_write(1, &None), Err("capsule unloading".to_owned()));
    assert_eq!(table.net_write(1, &Some(Err(io(IoErrorKind::BrokenPipe, "gone")))), Ok(()));
}

#[test]
fn dialling_inside_is_refused() {
    let mut table = StreamTable::new(1);
    assert_eq!(
        table.may_connect(&Some("no".to_owned())),
        Err("security denied net_connect: no".to_owned())
    );
    assert_eq!(check_dial(&vec![]), Err("dns: no addresses returned".to_owned()));
    let inside = vec![addr("1.1.1.1", true), addr("10.0.0.1", false)];
    let text = "net.connect-tcp denied: resolved IP 10.0.0.1 is in a private/loopback/link-local \
                range (SSRF protection)";
    assert_eq!(table.net_connect_tcp(&DialAnswer::Resolved(inside, Ok(()))), Err(text.to_owned()));
    assert_eq!(
        table.net_connect_tcp(&DialAnswer::TimedOut),
        Err("connect timeout after 10s".to_owned())
    );
    assert_eq!(
        table.net_connect_tcp(&DialAnswer::LookupFailed("no".to_owned())),
        Err("dns: no".to_owned())
    );
    assert_eq!(
        table.net_connect_tcp(&DialAnswer::Cancelled),
        Err("capsule unloading".to_owned())
    );
    let outside = vec![addr("1.1.1.1", true)];
    assert_eq!(
        table.net_connect_tcp(&DialAnswer::Resolved(outside, Err("refused".to_owned()))),
        Err("connect: refused".to_owned())
    );
    let outside = vec![addr("1.1.1.1", true)];
    assert_eq!(table.net_connect_tcp(&DialAnswer::Resolved(outside, Ok(()))), Ok(1));
}

#[test]
fn the_control_socket_needs_only_a_handle() {
    let who = principal("alice");
    let told = |bind: UnixBind| match bind {
        UnixBind::Keep => panic!("not over"),
        UnixBind::Finish(result, record) => {
            assert!(matches!(&record.event, AuditEvent::NetBind(addr) if addr == "unix:cli-socket"));
            assert_eq!(record.principal, principal("alice"));
            (result, record.outcome)
        }
    };
    assert!(matches!(bind_unix(&who, &None, &None), UnixBind::Keep));
    let (result, outcome) = told(bind_unix(&who, &Some("policy".to_owned()), &Some(Ok(3))));
    assert_eq!(result, Err(ErrorCode::CapabilityDenied));
    assert!(matches!(outcome, AuditOutcome::Denied(why) if why == "policy"));
    let (result, outcome) = told(bind_unix(&who, &None, &Some(Err("full".to_owned()))));
    assert_eq!(result, Err(ErrorCode::Unknown("resource table: full".to_owned())));
    assert!(matches!(outcome, AuditOutcome::Failed(why) if why == "resource table: full"));
    let (result, outcome) = told(bind_unix(&who, &None, &Some(Ok(3))));
    assert_eq!(result, Ok(3));
    assert!(matches!(outcome, AuditOutcome::Allowed));
}

#[test]
fn socket_options_are_for_tcp() {
    let tcp = Some(Transport::Tcp { read_timeout: None, write_timeout: None });
    assert_eq!(with_tcp_stream(tcp, Some(Ok(64u32))), Ok(64));
    assert_eq!(with_tcp_stream::<u32>(tcp, None), Err(ErrorCode::Closed));
    assert_eq!(
        with_tcp_stream::<u32>(tcp, Some(Err(io(IoErrorKind::ConnectionReset, "reset")))),
        Err(ErrorCode::ConnectionReset)
    );
    assert_eq!(
        with_tcp_stream(Some(Transport::Unix), Some(Ok(64u32))),
        Err(ErrorCode::NotTcp)
    );
    assert_eq!(with_tcp_stream(None, Some(Ok(64u32))), Err(ErrorCode::InvalidHandle));
    assert_eq!(keepalive(true), Some(0));
    assert_eq!(keepalive(false), None);
    assert_eq!(linger(None), None);
    assert_eq!(linger(Some(1500)), Some(1500));
    assert_eq!(linger(Some(u128::MAX)), Some(u64::MAX));
}

#[test]
fn looking_for_a_client_finds_nobody_without_room() {
    let mut counts = empty_counts();
    assert_eq!(may_poll(false, &counts), Err(ErrorCode::Closed));
    assert_eq!(may_poll(true, &counts), Ok(true));
    counts.capsule = MAX_ACTIVE_STREAMS;
    assert_eq!(may_poll(true, &counts), Ok(false));
    assert_eq!(poll_result::<u32>(Err(ErrorCode::Quota)), Ok(None));
    assert_eq!(poll_result(Ok(4u32)), Ok(Some(4)));
    assert_eq!(poll_result::<u32>(Err(ErrorCode::Closed)), Err(ErrorCode::Closed));
}

#[test]
fn a_failed_connection_is_told_as_such_when_the_quota_is_used_up() {
    let who = principal("alice");
    let mut counts = empty_counts();
    counts.capsule = MAX_ACTIVE_STREAMS;
    let mut answers = ConnectAnswers {
        gate: Some(None),
        outcome: Some(ConnectAnswer::TimedOut),
        kept: None,
    };
    assert!(matches!(
        connect_tcp(&who, "example.com", 443, true, &answers, &mut counts),
        ConnectStep::Finish(Err(ErrorCode::Timeout), Some(_))
    ));
    let addr = ResolvedAddr { text: "93.184.216.34".to_owned(), safe: true };
    answers.outcome = Some(ConnectAnswer::Resolved(vec![addr], Some(Ok(()))));
    assert!(matches!(
        connect_tcp(&who, "example.com", 443, true, &answers, &mut counts),
        ConnectStep::Finish(Err(ErrorCode::Quota), Some(_))
    ));
    assert_eq!(counts.store, 0);
}

/// Signs by a keyed digest: whoever has the key can tell whether it signed a message.
fn sign(key: [u8; 32], message: &str) -> String {
    blake3::keyed_hash(&key, message.as_bytes()).to_hex().to_string()
}

fn check_key(key: [u8; 32], nonce_hex: &str, signature: &str) -> CheckedKey {
    let genuine = sign(key, &challenge_message("alice", nonce_hex)) == signature;
    CheckedKey {
        key_id: format!("key-{}", key[0]),
        check: if genuine { KeyCheck::Verified } else { KeyCheck::Refused },
    }
}

#[test]
fn challenge_signature_verifies_against_registered_key() {
    let nonce_hex = "07".repeat(32);
    let signature = sign([1; 32], &challenge_message("alice", &nonce_hex));

    assert_eq!(
        verify_signature_against_keys("alice", &vec![check_key([1; 32], &nonce_hex, &signature)]),
        Ok("key-1".to_owned()),
        "valid signature must verify and return the matched device key_id"
    );
    assert!(
        verify_signature_against_keys("alice", &vec![check_key([2; 32], &nonce_hex, &signature)])
            .is_err(),
        "signature must not verify against a different key"
    );
    let tampered_nonce = "09".repeat(32);
    assert!(
        verify_signature_against_keys(
            "alice",
            &vec![check_key([1; 32], &tampered_nonce, &signature)]
        )
        .is_err(),
        "signature over the wrong nonce must not verify"
    );
    assert!(
        verify_signature_against_keys("alice", &vec![]).is_err(),
        "a principal with no registered key must reject"
    );
}
