use quad_nakama::client::StubClient;
use quad_nakama::codec::decode_string;
use quad_nakama::codec::encode_string;
use quad_nakama::handshake::HandshakeState;
use quad_nakama::handshake::HostAction;
use quad_nakama::handshake::Observation;
use quad_nakama::handshake::advance;
use quad_nakama::handshake::next_action;
use quad_nakama::handshake::run_handshake;
use quad_nakama::mailbox::Mailbox;
use quad_nakama::mailbox::RawMessage;
use quad_nakama::model::Event;
use quad_nakama::model::MatchData;
use quad_nakama::model::NakamaError;
use quad_nakama::model::event_from_tag;
use quad_nakama::quad_nakama_crate_version;

/// A little host stand-in: what each handshake action is answered with,
/// and how many matchmaking requests were issued against it.
struct HostStub {
    auth_ok: bool,
    rt_connect_ok: bool,
    matchmake_requests: u32,
}

impl HostStub {
    fn perform(&mut self, action: HostAction) -> Option<Observation> {
        match action {
            HostAction::CreateClient => Some(Observation::ClientReady),
            HostAction::Authenticate => Some(Observation::AuthResult(self.auth_ok)),
            HostAction::CreateRealtime => Some(Observation::RealtimeReady),
            HostAction::ConnectRealtime => {
                Some(Observation::RealtimeConnectResult(self.rt_connect_ok))
            }
            HostAction::MatchMake => {
                self.matchmake_requests += 1;
                Some(Observation::MatchMakeIssued)
            }
            HostAction::Idle => None,
        }
    }
}

/// Drives the handshake against a host stub, gathering observations
/// until the machine is done or reports an error.
fn drive(host: &mut HostStub) -> (Result<HandshakeState, NakamaError>, Vec<Observation>) {
    let mut state = HandshakeState::Disconnected;
    let mut seen: Vec<Observation> = Vec::new();
    loop {
        let action = next_action(state);
        let obs = match host.perform(action) {
            Some(o) => o,
            None => return (Ok(state), seen),
        };
        seen.push(obs);
        match advance(state, obs) {
            Ok(s) => state = s,
            Err(e) => return (Err(e), seen),
        }
    }
}

#[test]
fn version_packs_major_minor_patch() {
    assert_eq!(quad_nakama_crate_version(), 65537);
    assert_eq!(quad_nakama_crate_version(), (1 << 16) + 1);
}

#[test]
fn connect_reaches_matchmaking_with_one_request() {
    // connect("k", "localhost", 7350, "http") against a host session
    // stub that authenticates and connects successfully.
    let mut host = HostStub { auth_ok: true, rt_connect_ok: true, matchmake_requests: 0 };
    let (outcome, seen) = drive(&mut host);
    assert_eq!(outcome, Ok(HandshakeState::Matchmaking));
    assert_eq!(host.matchmake_requests, 1);

    let mut client = StubClient::new();
    assert_eq!(client.connect(&seen), Ok(()));
    assert!(client.connected());
}

#[test]
fn auth_failure_terminates_before_matchmaking() {
    let mut host = HostStub { auth_ok: false, rt_connect_ok: true, matchmake_requests: 0 };
    let (outcome, seen) = drive(&mut host);
    assert_eq!(outcome, Err(NakamaError::AuthFailed));
    assert_eq!(host.matchmake_requests, 0);

    let mut client = StubClient::new();
    assert_eq!(client.connect(&seen), Err(NakamaError::AuthFailed));
    assert!(!client.connected());
}

#[test]
fn realtime_connect_failure_terminates_before_matchmaking() {
    let mut host = HostStub { auth_ok: true, rt_connect_ok: false, matchmake_requests: 0 };
    let (outcome, seen) = drive(&mut host);
    assert_eq!(outcome, Err(NakamaError::RealtimeConnectFailed));
    assert_eq!(host.matchmake_requests, 0);

    let mut client = StubClient::new();
    assert_eq!(client.connect(&seen), Err(NakamaError::RealtimeConnectFailed));
    assert!(!client.connected());
}

#[test]
fn run_handshake_ignores_stray_observations() {
    let obs = vec![
        Observation::MatchMakeIssued,
        Observation::ClientReady,
        Observation::RealtimeConnectResult(true),
    ];
    // A matchmaking or realtime answer arriving too early changes
    // nothing; only the client creation takes effect here.
    assert_eq!(
        run_handshake(HandshakeState::Disconnected, &obs),
        Ok(HandshakeState::ClientCreated)
    );
}

fn connected_client() -> StubClient {
    let obs = vec![
        Observation::ClientReady,
        Observation::AuthResult(true),
        Observation::RealtimeReady,
        Observation::RealtimeConnectResult(true),
        Observation::MatchMakeIssued,
    ];
    let mut client = StubClient::new();
    client.connect(&obs).unwrap();
    client.set_match_present(true);
    client
}

#[test]
fn send_then_recv_round_trips_value_and_opcode() {
    let mut client = connected_client();
    client.send_bin(7, &String::from("hello"));
    let sent = client.take_outbound();
    assert_eq!(sent.len(), 1);
    client.tick(sent);
    let md = client.try_recv().expect("one message was delivered");
    assert_eq!(md.opcode, 7);
    assert_eq!(md.user_id, "self");
    assert_eq!(decode_string(&md.data), Some(String::from("hello")));
}

#[test]
fn two_sends_drain_most_recent_first() {
    let mut client = connected_client();
    client.send_bin(1, &String::from("ping"));
    client.send_bin(2, &String::from("pong"));
    let sent = client.take_outbound();
    assert_eq!(sent.len(), 2);
    client.tick(sent);

    let first = client.try_recv().expect("two messages were delivered");
    assert_eq!(first.opcode, 2);
    assert_eq!(decode_string(&first.data), Some(String::from("pong")));

    let second = client.try_recv().expect("one message is left");
    assert_eq!(second.opcode, 1);
    assert_eq!(decode_string(&second.data), Some(String::from("ping")));

    assert!(client.try_recv().is_none());
}

#[test]
fn payload_is_the_real_encoding_not_the_raw_bytes() {
    let mut client = connected_client();
    client.send_bin(1, &String::from("ping"));
    let sent = client.take_outbound();
    let expected = nanoserde::SerBin::serialize_bin(&String::from("ping"));
    assert_eq!(sent[0].data, expected);
    assert_ne!(sent[0].data, b"ping".to_vec());
}

#[test]
fn encode_then_decode_gives_the_value_back() {
    for s in ["", "a", "ping", "héllo wörld"] {
        let v = String::from(s);
        let bytes = encode_string(&v);
        assert_eq!(decode_string(&bytes), Some(v));
    }
    // The encoding is nanoserde's, not something of this crate's own.
    assert_eq!(
        encode_string(&String::from("ab")),
        nanoserde::SerBin::serialize_bin(&String::from("ab"))
    );
}

#[test]
fn decode_rejects_bytes_that_encode_nothing() {
    assert_eq!(decode_string(&Vec::new()), None);
    assert_eq!(decode_string(&b"ping".to_vec()), None);
}

#[test]
fn decode_survives_hostile_length_prefixes() {
    // A prefix of u64::MAX: adding it to an offset would overflow.
    assert_eq!(decode_string(&vec![0xFF; 8]), None);
    assert_eq!(decode_string(&vec![0xFF; 16]), None);
    // A prefix just past the end of the input.
    let mut claims_five = vec![5, 0, 0, 0, 0, 0, 0, 0];
    claims_five.extend_from_slice(b"hi");
    assert_eq!(decode_string(&claims_five), None);
    // A prefix of exactly the remaining length decodes.
    let mut exact = vec![2, 0, 0, 0, 0, 0, 0, 0];
    exact.extend_from_slice(b"hi");
    assert_eq!(decode_string(&exact), Some(String::from("hi")));
}

#[test]
fn send_raw_carries_bytes_under_the_same_policy() {
    let mut client = connected_client();
    client.send_raw(3, vec![9, 8, 7]);
    let sent = client.take_outbound();
    assert_eq!(sent.len(), 1);
    client.tick(sent);
    let md = client.try_recv().expect("one message was delivered");
    assert_eq!(md.opcode, 3);
    assert_eq!(md.data, vec![9, 8, 7]);

    let mut dropped = StubClient::new();
    dropped.send_raw(3, vec![9]);
    assert!(dropped.take_outbound().is_empty());
}

#[test]
fn send_is_dropped_without_match_or_realtime_handle() {
    // No match, no realtime handle.
    let mut client = StubClient::new();
    client.send_bin(1, &String::from("ping"));
    assert!(client.take_outbound().is_empty());

    // A match reported, but no realtime handle yet.
    let mut client = StubClient::new();
    client.set_match_present(true);
    client.send_bin(1, &String::from("ping"));
    assert!(client.take_outbound().is_empty());

    // Connected, but the host reports no match.
    let mut client = connected_client();
    client.set_match_present(false);
    client.send_bin(1, &String::from("ping"));
    assert!(client.take_outbound().is_empty());
}

#[test]
fn try_recv_on_empty_queue_is_none_and_never_fatal() {
    let mut client = StubClient::new();
    assert!(client.try_recv().is_none());
    assert!(client.try_recv().is_none());
    client.tick(vec![RawMessage { opcode: 9, data: vec![1, 2, 3] }]);
    let md = client.try_recv().expect("one entry was queued");
    assert_eq!(md.opcode, 9);
    assert_eq!(md.data, vec![1, 2, 3]);
    assert!(client.try_recv().is_none());
}

#[test]
fn tick_with_empty_session_queues_nothing() {
    let mut client = StubClient::new();
    client.tick(Vec::new());
    assert!(client.try_recv().is_none());

    client.tick(vec![RawMessage { opcode: 4, data: vec![42] }]);
    client.tick(Vec::new());
    client.tick(Vec::new());
    assert_eq!(client.try_recv().map(|m| m.opcode), Some(4));
    assert!(client.try_recv().is_none());
}

#[test]
fn events_returns_only_join_or_leave() {
    let mut client = StubClient::new();
    client.tick(vec![
        RawMessage { opcode: 1, data: Vec::new() },
        RawMessage { opcode: 2, data: Vec::new() },
    ]);
    assert_eq!(
        client.events(),
        Ok(Some(Event::Leave(String::from("tmp_user_id"))))
    );
    assert_eq!(
        client.events(),
        Ok(Some(Event::Join(String::from("tmp_user_id"))))
    );
    assert_eq!(client.events(), Ok(None));
}

#[test]
fn events_rejects_tags_outside_the_contract() {
    for tag in [0, 3, -1, 99] {
        let mut client = StubClient::new();
        client.tick(vec![RawMessage { opcode: tag, data: Vec::new() }]);
        assert_eq!(client.events(), Err(NakamaError::UnknownEventTag));
        // The offending entry was consumed; the queue is empty again.
        assert_eq!(client.events(), Ok(None));
    }
}

#[test]
fn event_from_tag_decodes_exactly_the_two_tags() {
    assert_eq!(
        event_from_tag(1, String::from("alice")),
        Ok(Event::Join(String::from("alice")))
    );
    assert_eq!(
        event_from_tag(2, String::from("bob")),
        Ok(Event::Leave(String::from("bob")))
    );
    assert_eq!(
        event_from_tag(3, String::from("carol")),
        Err(NakamaError::UnknownEventTag)
    );
}

#[test]
fn self_id_of_the_stub_backend() {
    let client = StubClient::new();
    assert_eq!(client.self_id(), "self");
}

#[test]
fn match_data_keeps_the_raw_values() {
    let md = MatchData::new(-5, vec![0, 255], String::from("peer-1"));
    assert_eq!(md.opcode, -5);
    assert_eq!(md.data, vec![0, 255]);
    assert_eq!(md.user_id, "peer-1");
}

#[test]
fn mailbox_drains_lifo() {
    let mut mb = Mailbox::new();
    assert_eq!(mb.len(), 0);
    assert!(mb.pop().is_none());
    mb.push(1, vec![10]);
    mb.push(2, vec![20]);
    assert_eq!(mb.len(), 2);
    let first = mb.pop().unwrap();
    assert_eq!((first.opcode, first.data), (2, vec![20]));
    let second = mb.pop().unwrap();
    assert_eq!((second.opcode, second.data), (1, vec![10]));
    assert!(mb.pop().is_none());
}
