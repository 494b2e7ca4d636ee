use potato::{
    create_json, ClientAction, ClientPhase, RelayClient, RelayFailure, RelayServer, ServerAction, ServerPhase,
    StreamEvent,
};

fn sent(a: ServerAction) -> Vec<u8> {
    match a {
        ServerAction::Send(v) => v,
        other => panic!("expected Send, got {other:?}"),
    }
}

fn client_sent(a: ClientAction) -> Vec<u8> {
    match a {
        ClientAction::Send(v) => v,
        other => panic!("expected Send, got {other:?}"),
    }
}

/// Runs the handshake and gives back both established ends.
fn established() -> (RelayServer, RelayClient) {
    let mut server = RelayServer::new().unwrap();
    let mut client = RelayClient::new().unwrap();
    assert_eq!(server.phase(), ServerPhase::AwaitingEphemeral);
    assert_eq!(client.phase(), ClientPhase::Start);

    let m1 = client_sent(client.start());
    assert_eq!(client.phase(), ClientPhase::AwaitingResponderKeys);
    let m2 = sent(server.on_stream_event(StreamEvent::Message(m1)));
    assert_eq!(server.phase(), ServerPhase::AwaitingStatic);
    let m3 = match client.on_stream_event(StreamEvent::Message(m2)) {
        ClientAction::SendThenFinish(v) => v,
        other => panic!("expected SendThenFinish, got {other:?}"),
    };
    assert_eq!(client.phase(), ClientPhase::Finishing);
    assert!(matches!(client.finish(), ClientAction::Established));
    assert_eq!(client.phase(), ClientPhase::AwaitingPayload);
    assert!(matches!(server.on_stream_event(StreamEvent::Message(m3)), ServerAction::Established));
    assert_eq!(server.phase(), ServerPhase::Established);
    (server, client)
}

#[test]
fn request_and_reply_round_trip() {
    let (mut server, mut client) = established();
    let request = "{ \"jsonrpc\": \"2.0\", \"method\": \"add\", \"params\": [1, 2], \"id\":2 }";
    let sealed = client_sent(client.on_payload(request));
    assert_eq!(sealed.len(), request.len() + 16);
    assert_eq!(client.phase(), ClientPhase::AwaitingReply);

    match server.on_stream_event(StreamEvent::Message(sealed)) {
        ServerAction::Forward(text) => assert_eq!(text, request),
        other => panic!("expected Forward, got {other:?}"),
    }
    assert_eq!(server.phase(), ServerPhase::Relaying);

    let reply = sent(server.on_answer("3".to_string(), "2"));
    let expected = create_json("3".to_string(), "2");
    assert_eq!(reply.len(), expected.len() + 16);
    assert_eq!(server.phase(), ServerPhase::Established);

    match client.on_stream_event(StreamEvent::Message(reply)) {
        ClientAction::ShowReply(text) => assert_eq!(text, expected),
        other => panic!("expected ShowReply, got {other:?}"),
    }
    assert_eq!(client.phase(), ClientPhase::Judging);
    // The result of `add` is a number: the client goes on.
    assert!(matches!(client.on_reply(&expected), ClientAction::AskPayload));
    assert_eq!(client.phase(), ClientPhase::AwaitingPayload);
}

#[test]
fn exit_result_closes_the_client() {
    let (mut server, mut client) = established();
    let sealed = client_sent(client.on_payload("{\"method\": \"exit\", \"id\": 3}"));
    assert!(matches!(server.on_stream_event(StreamEvent::Message(sealed)), ServerAction::Forward(_)));
    let reply = sent(server.on_answer("\"exit\"".to_string(), "3"));
    assert!(matches!(client.on_stream_event(StreamEvent::Message(reply)), ClientAction::ShowReply(_)));
    assert!(matches!(client.on_reply("{\"jsonrpc\": \"2.0\", \"result\": \"exit\", \"id\": 3}"), ClientAction::Close));
    assert_eq!(client.phase(), ClientPhase::Closed);
}

#[test]
fn reply_results_decide_the_next_step() {
    for (result, exits) in [(Some("exit"), true), (Some("3"), false), (None, false)] {
        let (mut server, mut client) = established();
        let sealed = client_sent(client.on_payload("{}"));
        assert!(matches!(server.on_stream_event(StreamEvent::Message(sealed)), ServerAction::Forward(_)));
        let reply = sent(server.on_answer("3".to_string(), "1"));
        assert!(matches!(client.on_stream_event(StreamEvent::Message(reply)), ClientAction::ShowReply(_)));
        let action = client.on_reply_result(result.map(str::to_string));
        if exits {
            assert!(matches!(action, ClientAction::Close));
            assert_eq!(client.phase(), ClientPhase::Closed);
        } else {
            assert!(matches!(action, ClientAction::AskPayload));
            assert_eq!(client.phase(), ClientPhase::AwaitingPayload);
        }
    }
}

#[test]
fn reply_that_is_not_json_fails() {
    let (mut server, mut client) = established();
    let sealed = client_sent(client.on_payload("{}"));
    assert!(matches!(server.on_stream_event(StreamEvent::Message(sealed)), ServerAction::Forward(_)));
    let reply = sent(server.on_answer("3".to_string(), "1"));
    assert!(matches!(client.on_stream_event(StreamEvent::Message(reply)), ClientAction::ShowReply(_)));
    assert!(matches!(client.on_reply("not json"), ClientAction::Fail(RelayFailure::Json(_))));
    assert_eq!(client.phase(), ClientPhase::Closed);
}

#[test]
fn string_result_other_than_exit_goes_on() {
    let (mut server, mut client) = established();
    let sealed = client_sent(client.on_payload("{}"));
    assert!(matches!(server.on_stream_event(StreamEvent::Message(sealed)), ServerAction::Forward(_)));
    let reply = sent(server.on_answer("\"Hello, World!\"".to_string(), "1"));
    match client.on_stream_event(StreamEvent::Message(reply)) {
        ClientAction::ShowReply(text) => assert!(matches!(client.on_reply(&text), ClientAction::AskPayload)),
        other => panic!("expected ShowReply, got {other:?}"),
    }
}

#[test]
fn stream_trouble_during_handshake_fails() {
    let mut server = RelayServer::new().unwrap();
    assert!(matches!(server.on_stream_event(StreamEvent::End), ServerAction::Fail(RelayFailure::HandshakeInterrupted)));
    assert_eq!(server.phase(), ServerPhase::Closed);
    assert!(matches!(server.on_stream_event(StreamEvent::End), ServerAction::Close));

    let mut server = RelayServer::new().unwrap();
    assert!(matches!(server.on_stream_event(StreamEvent::Error), ServerAction::Fail(RelayFailure::StreamError)));

    let mut client = RelayClient::new().unwrap();
    client_sent(client.start());
    assert!(matches!(client.on_stream_event(StreamEvent::End), ClientAction::Fail(RelayFailure::HandshakeInterrupted)));
    assert_eq!(client.phase(), ClientPhase::Closed);
}

#[test]
fn stream_end_after_handshake_closes() {
    let (mut server, mut client) = established();
    assert!(matches!(server.on_stream_event(StreamEvent::Error), ServerAction::Close));
    assert_eq!(server.phase(), ServerPhase::Closed);
    client_sent(client.on_payload("{}"));
    assert!(matches!(client.on_stream_event(StreamEvent::End), ClientAction::Close));
    assert_eq!(client.phase(), ClientPhase::Closed);
}

#[test]
fn garbage_handshake_message_fails_with_snow_error() {
    let mut server = RelayServer::new().unwrap();
    assert!(matches!(
        server.on_stream_event(StreamEvent::Message(vec![1, 2, 3])),
        ServerAction::Fail(RelayFailure::Snow(snow::Error::Input))
    ));
    assert_eq!(server.phase(), ServerPhase::Closed);
}

#[test]
fn tampered_request_fails_to_decrypt() {
    let (mut server, mut client) = established();
    let mut sealed = client_sent(client.on_payload("{}"));
    sealed[0] ^= 1;
    assert!(matches!(
        server.on_stream_event(StreamEvent::Message(sealed)),
        ServerAction::Fail(RelayFailure::Snow(snow::Error::Decrypt))
    ));
}

#[test]
fn oversized_request_is_refused() {
    let (_server, mut client) = established();
    let big = "x".repeat(65535 - 15);
    assert!(matches!(client.on_payload(&big), ClientAction::Fail(RelayFailure::Snow(snow::Error::Input))));
    assert_eq!(client.phase(), ClientPhase::Closed);
}
