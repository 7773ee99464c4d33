use swtchr::ipc::{
    can_bind_after_removal, receiver_step, runtime_dir_usable, Command, ReceiverStep,
    RemoveOutcome, BUF_LEN,
};

const ALL_COMMANDS: [Command; 8] = [
    Command::Next,
    Command::Prev,
    Command::PeekNext,
    Command::PeekPrev,
    Command::Show,
    Command::Dismiss,
    Command::Peek,
    Command::Select,
];

#[test]
fn tokens_are_stable() {
    assert_eq!(Command::Next.msg(), "next");
    assert_eq!(Command::Prev.msg(), "prev");
    assert_eq!(Command::PeekNext.msg(), "peek-next");
    assert_eq!(Command::PeekPrev.msg(), "peek-prev");
    assert_eq!(Command::Show.msg(), "show");
    assert_eq!(Command::Dismiss.msg(), "dismiss");
    assert_eq!(Command::Peek.msg(), "peek");
    assert_eq!(Command::Select.msg(), "select");
}

#[test]
fn every_command_round_trips() {
    for command in ALL_COMMANDS {
        assert_eq!(Command::from_msg(command.msg().as_bytes()), Ok(command));
    }
}

#[test]
fn select_token_decodes_to_select() {
    assert_eq!(Command::from_msg(b"select"), Ok(Command::Select));
}

#[test]
fn bogus_token_is_an_error_and_decoding_continues() {
    assert!(Command::from_msg(b"bogus").is_err());
    // The decode boundary is stateless: a bad datagram leaves the next one
    // decoding normally, so the receiver loop keeps accepting.
    assert_eq!(Command::from_msg(b"select"), Ok(Command::Select));
}

#[test]
fn near_misses_are_errors() {
    assert!(Command::from_msg(b"").is_err());
    assert!(Command::from_msg(b"nex").is_err());
    assert!(Command::from_msg(b"nextt").is_err());
    assert!(Command::from_msg(b"SHOW").is_err());
    assert!(Command::from_msg(b"peek-").is_err());
    assert!(Command::from_msg(b"peek-nextpeek-prev").is_err());
}

#[test]
fn decode_error_has_a_message() {
    let err = Command::from_msg(b"bogus").unwrap_err();
    assert_eq!(err.message(), "unrecognized command received over IPC socket");
}

#[test]
fn buffer_fits_every_token() {
    for command in ALL_COMMANDS {
        assert!(command.msg().len() < BUF_LEN);
    }
}

#[test]
fn bind_proceeds_only_when_stale_socket_is_gone() {
    assert!(can_bind_after_removal(RemoveOutcome::Removed));
    assert!(can_bind_after_removal(RemoveOutcome::NotFound));
    assert!(!can_bind_after_removal(RemoveOutcome::Failed));
}

#[test]
fn unset_or_blank_runtime_dir_is_unusable() {
    assert!(!runtime_dir_usable(None));
    assert!(!runtime_dir_usable(Some(&b"".to_vec())));
    assert!(!runtime_dir_usable(Some(&b"   \t\n".to_vec())));
    assert!(runtime_dir_usable(Some(&b"/run/user/1000".to_vec())));
    assert!(runtime_dir_usable(Some(&b"  /tmp ".to_vec())));
}

#[test]
fn receiver_forwards_decoded_datagrams() {
    assert_eq!(
        receiver_step(Some(b"select")),
        ReceiverStep::Forward(Ok(Command::Select))
    );
}

#[test]
fn receiver_forwards_decode_errors_and_goes_on() {
    assert!(matches!(
        receiver_step(Some(b"bogus")),
        ReceiverStep::Forward(Err(_))
    ));
    // The next datagram still decodes and is delivered.
    assert_eq!(
        receiver_step(Some(b"select")),
        ReceiverStep::Forward(Ok(Command::Select))
    );
}

#[test]
fn receiver_stops_on_socket_failure() {
    assert_eq!(receiver_step(None), ReceiverStep::Stop);
}
