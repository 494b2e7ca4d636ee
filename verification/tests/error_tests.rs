use potato::NoiseError;

#[test]
fn messages_of_text_variants() {
    assert_eq!(NoiseError::OtherError("No message received".to_string()).to_message(), "Other error: No message received");
    assert_eq!(NoiseError::InvalidStateError("Invalid state".to_string()).to_message(), "Invalid state error: Invalid state");
    assert_eq!(NoiseError::SerdeError("bad".to_string()).to_message(), "Snow error: bad");
    assert_eq!(
        NoiseError::InitiationSendError("Error: x".to_string()).to_message(),
        "Initiation error: \"Error: x\""
    );
}

#[test]
fn initiation_message_escapes_quotes() {
    assert_eq!(
        NoiseError::InitiationSendError("a\"b".to_string()).to_message(),
        "Initiation error: \"a\\\"b\""
    );
}

#[test]
fn messages_of_snow_errors() {
    assert_eq!(NoiseError::from(snow::Error::Decrypt).to_message(), "Snow error: decrypt error");
    assert_eq!(
        NoiseError::from(snow::Error::State(snow::error::StateProblem::NotTurnToWrite)).to_message(),
        "Snow error: state error: NotTurnToWrite"
    );
}

#[test]
fn debug_renderings() {
    assert_eq!(NoiseError::from(snow::Error::Input).debug_text(), "SnowError(Input)");
    assert_eq!(NoiseError::OtherError("x".to_string()).debug_text(), "OtherError(\"x\")");
    assert_eq!(NoiseError::InitiationSendError("y".to_string()).debug_text(), "InitiationSendError(\"y\")");
    assert_eq!(NoiseError::SerdeError("z".to_string()).debug_text(), "SerdeError(\"z\")");
    assert_eq!(NoiseError::InvalidStateError("w".to_string()).debug_text(), "InvalidStateError(\"w\")");
}

#[test]
fn bytes_of_an_error() {
    let bytes = NoiseError::OtherError("No message received".to_string()).into_bytes();
    assert_eq!(bytes, b"Other error: No message received".to_vec());
}
