use potato::{Callback, NoiseHandshake, NoiseStateMachine, Payload};

const SECRET: [u8; 32] = *b"Random 32 characters long secret";

fn params() -> snow::params::NoiseParams {
    "Noise_XKpsk3_25519_ChaChaPoly_BLAKE2s".parse().unwrap()
}

/// A server key pair and a responder that holds it.
fn responder() -> (Vec<u8>, snow::HandshakeState) {
    let keypair = snow::Builder::new(params()).generate_keypair().unwrap();
    let responder = snow::Builder::new(params())
        .local_private_key(&keypair.private)
        .unwrap()
        .psk(3, &SECRET)
        .unwrap()
        .build_responder()
        .unwrap();
    (keypair.public, responder)
}

fn bytes(p: Payload) -> Vec<u8> {
    match p {
        Payload::Bytes(b) => b,
        Payload::Text(t) => panic!("expected bytes, got text {t:?}"),
    }
}

fn text(p: Payload) -> String {
    match p {
        Payload::Text(t) => t,
        Payload::Bytes(b) => panic!("expected text, got bytes {b:?}"),
    }
}

#[test]
fn new_machine_waits_for_connection() {
    let (key, _) = responder();
    let m = NoiseStateMachine::new_init(true, key).unwrap();
    assert!(m.role());
    assert_eq!(m.state(), NoiseHandshake::WaitingForConnection);
    assert_eq!(m.getHandshakestate(), "WaitingForConnection");
}

#[test]
fn full_handshake_with_a_responder() {
    let (key, mut server) = responder();
    let mut buf = vec![0u8; 65535];
    let mut m = NoiseStateMachine::new_init(true, key).unwrap();

    // -> e, es
    let d = m.handle_connection(None, false).unwrap();
    assert_eq!(d.target, Callback::Down);
    let first = bytes(d.payload);
    assert_eq!(first.len(), 48);
    assert_eq!(m.getHandshakestate(), "SentEphemeralPublicKey");
    server.read_message(&first, &mut buf).unwrap();

    // <- e, ee ; -> s, se, psk
    let len = server.write_message(&[], &mut buf).unwrap();
    let d = m.handle_connection(Some(buf[..len].to_vec()), false).unwrap();
    assert_eq!(d.target, Callback::Down);
    let third = bytes(d.payload);
    assert_eq!(m.state(), NoiseHandshake::HandshakeCompleted);
    assert_eq!(m.getHandshakestate(), "HandshakeCompleted");
    server.read_message(&third, &mut buf).unwrap();
    assert!(server.is_handshake_finished());
}

#[test]
fn messages_after_the_handshake_are_encrypted() {
    let (key, mut server) = responder();
    let mut buf = vec![0u8; 65535];
    let mut m = NoiseStateMachine::new_init(true, key).unwrap();
    let first = bytes(m.handle_connection(None, false).unwrap().payload);
    server.read_message(&first, &mut buf).unwrap();
    let len = server.write_message(&[], &mut buf).unwrap();
    let third = bytes(m.handle_connection(Some(buf[..len].to_vec()), false).unwrap().payload);
    server.read_message(&third, &mut buf).unwrap();
    let mut server = server.into_transport_mode().unwrap();

    // Send mode: the given message goes down, encrypted.
    let d = m.handle_connection(Some(b"hello".to_vec()), true).unwrap();
    assert_eq!(d.target, Callback::Down);
    let sealed = bytes(d.payload);
    assert_eq!(sealed.len(), 5 + 16);
    let n = server.read_message(&sealed, &mut buf).unwrap();
    assert_eq!(&buf[..n], b"hello");
    assert_eq!(m.state(), NoiseHandshake::HandshakeCompleted);

    // Receive mode: the server's message goes up, decrypted.
    let n = server.write_message(b"reply", &mut buf).unwrap();
    let d = m.handle_connection(Some(buf[..n].to_vec()), false).unwrap();
    assert_eq!(d.target, Callback::Up);
    assert_eq!(bytes(d.payload), b"reply".to_vec());

    // Send mode without a message sends an empty one.
    let sealed = bytes(m.handle_connection(None, true).unwrap().payload);
    assert_eq!(sealed.len(), 16);
    assert_eq!(server.read_message(&sealed, &mut buf).unwrap(), 0);

    // Receive mode without a message reads the error text, which fails to decrypt.
    let d = m.handle_connection(None, false).unwrap();
    assert_eq!(d.target, Callback::Up);
    assert_eq!(text(d.payload), "Other error: Error: SnowError(Decrypt)");
}

#[test]
fn missing_answer_still_completes_the_handshake() {
    let (key, _) = responder();
    let mut m = NoiseStateMachine::new_init(true, key).unwrap();
    m.handle_connection(None, false).unwrap();
    // No message from the server: the bytes of an error message are read, which
    // fails, and then writing the last message fails as it is not our turn.
    let d = m.handle_connection(None, false).unwrap();
    assert_eq!(d.target, Callback::Down);
    assert_eq!(
        text(d.payload),
        "Initiation error: \"Error: SnowError(State(NotTurnToWrite))\""
    );
    assert_eq!(m.state(), NoiseHandshake::HandshakeCompleted);
    // The handshake never finished, so there is no transport session.
    let d = m.handle_connection(Some(b"hi".to_vec()), true).unwrap();
    assert_eq!(d.target, Callback::Down);
    assert_eq!(text(d.payload), "Other error: Error: SnowError(State(HandshakeNotFinished))");
}

#[test]
fn server_role_does_nothing() {
    let (key, _) = responder();
    let mut m = NoiseStateMachine::new_init(false, key).unwrap();
    assert!(m.handle_connection(None, false).is_none());
    assert!(m.handle_connection(Some(vec![0; 48]), true).is_none());
    assert_eq!(m.state(), NoiseHandshake::WaitingForConnection);
    assert!(!m.role());
}

#[test]
fn short_server_key_is_accepted() {
    let m = NoiseStateMachine::new_init(true, vec![7u8; 5]);
    assert!(m.is_ok());
}

#[test]
fn shared_secret_is_the_ascii_phrase() {
    assert_eq!(potato::machine::shared_secret_bytes(), SECRET);
}

#[test]
fn written_payload_takes_the_start_of_the_buffer() {
    let buf = vec![9u8, 8, 7, 6];
    match potato::machine::written_payload(&buf, Ok(3)) {
        Ok(Payload::Bytes(b)) => assert_eq!(b, vec![9, 8, 7]),
        other => panic!("unexpected {other:?}"),
    }
    match potato::machine::written_payload(&buf, Err(snow::Error::Decrypt)) {
        Err(potato::NoiseError::SnowError(snow::Error::Decrypt)) => {}
        other => panic!("unexpected {other:?}"),
    }
}

#[test]
fn missing_message_becomes_error_bytes() {
    assert_eq!(potato::machine::message_or_missing(Some(vec![1, 2]), "x"), vec![1, 2]);
    assert_eq!(
        potato::machine::message_or_missing(None, "No message received"),
        b"Other error: No message received".to_vec()
    );
}

#[test]
fn failure_payload_texts() {
    let p = potato::machine::initiation_payload(Err(potato::NoiseError::from(snow::Error::Input)));
    assert_eq!(text(p), "Initiation error: \"Error: SnowError(Input)\"");
    let p = potato::machine::other_payload(Err(potato::NoiseError::from(snow::Error::Decrypt)));
    assert_eq!(text(p), "Other error: Error: SnowError(Decrypt)");
    let p = potato::machine::initiation_payload(Err(potato::NoiseError::OtherError("q".to_string())));
    assert_eq!(text(p), "Initiation error: \"Error: OtherError(\\\"q\\\")\"");
    let p = potato::machine::other_payload(Ok(Payload::Bytes(vec![4])));
    assert_eq!(bytes(p), vec![4]);
}

#[test]
fn only_three_stages_are_observed() {
    let observable = ["WaitingForConnection", "SentEphemeralPublicKey", "HandshakeCompleted"];
    for role in [true, false] {
        let (key, _) = responder();
        let mut m = NoiseStateMachine::new_init(role, key).unwrap();
        assert!(observable.contains(&m.getHandshakestate().as_str()));
        for (i, send_mode) in [false, true, false, true, true, false].into_iter().enumerate() {
            let msg = if i % 2 == 0 { None } else { Some(vec![i as u8; 40]) };
            m.handle_connection(msg, send_mode);
            assert!(observable.contains(&m.getHandshakestate().as_str()));
        }
    }
}
