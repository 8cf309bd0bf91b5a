use payment_engine::command::Command;

#[test]
fn command_as_string() {
    assert_eq!(Command::Version.to_string(), "version");
    assert_eq!(Command::VerAck.to_string(), "verack");
}

#[test]
fn string_as_command() {
    assert_eq!(Command::try_from("version").unwrap(), Command::Version);
    assert_eq!(Command::try_from("verack").unwrap(), Command::VerAck);
}

#[test]
fn command_as_bytes() {
    assert_eq!(Command::Version.to_bytes(), b"version");
    assert_eq!(Command::VerAck.to_bytes(), b"verack");
}

#[test]
fn unknown_command_name_is_reported() {
    let err = Command::try_from("sendheaders").unwrap_err();
    match err {
        payment_engine::errors::BitcoinMessageError::CommandNameUnknown(name) => {
            assert_eq!(name, "sendheaders");
        }
        other => panic!("unexpected error: {:?}", other),
    }
}
