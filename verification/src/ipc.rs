//! The control-plane wire protocol: a closed vocabulary of commands, each
//! encoded as one fixed UTF-8 text token sent in a single datagram.

use vstd::prelude::*;
use vstd::string::StringSliceAdditionalSpecFns;

verus! {

/// Size of the datagram receive buffer: the longest valid token plus margin.
pub const BUF_LEN: usize = 16;

/// The daemon's remote-controllable actions. Each carries no payload beyond
/// its tag and has a stable text encoding on the control socket.
#[derive(Debug, Clone, Copy, PartialEq, Eq, Hash)]
pub enum Command {
    Next,
    Prev,
    PeekNext,
    PeekPrev,
    Show,
    Dismiss,
    Peek,
    Select,
}

/// An unrecognized token arrived on the control socket. Decoding is total:
/// bad input yields this value, never a panic.
#[derive(Debug, Clone, Copy, PartialEq, Eq)]
pub struct DecodeError;

impl DecodeError {
    /// A human-readable description of the failure.
    pub fn message(&self) -> (r: String)
        ensures
            r@ == "unrecognized command received over IPC socket"@,
    {
        "unrecognized command received over IPC socket".to_owned()
    }
}

/// The text token that encodes a command, as a sequence of characters.
pub open spec fn msg_spec(c: Command) -> Seq<char> {
    match c {
        Command::Next => "next"@,
        Command::Prev => "prev"@,
        Command::PeekNext => "peek-next"@,
        Command::PeekPrev => "peek-prev"@,
        Command::Show => "show"@,
        Command::Dismiss => "dismiss"@,
        Command::Peek => "peek"@,
        Command::Select => "select"@,
    }
}

/// The bytes of an ASCII token: every token in the vocabulary is ASCII, so
/// its wire form is one byte per character.
pub open spec fn ascii_bytes(s: Seq<char>) -> Seq<u8> {
    Seq::new(s.len(), |i: int| s[i] as u8)
}

/// The unique command whose token a byte string is, if any.
pub open spec fn from_msg_spec(msg: Seq<u8>) -> Option<Command> {
    if msg == ascii_bytes(msg_spec(Command::Next)) {
        Some(Command::Next)
    } else if msg == ascii_bytes(msg_spec(Command::Prev)) {
        Some(Command::Prev)
    } else if msg == ascii_bytes(msg_spec(Command::PeekNext)) {
        Some(Command::PeekNext)
    } else if msg == ascii_bytes(msg_spec(Command::PeekPrev)) {
        Some(Command::PeekPrev)
    } else if msg == ascii_bytes(msg_spec(Command::Show)) {
        Some(Command::Show)
    } else if msg == ascii_bytes(msg_spec(Command::Dismiss)) {
        Some(Command::Dismiss)
    } else if msg == ascii_bytes(msg_spec(Command::Peek)) {
        Some(Command::Peek)
    } else if msg == ascii_bytes(msg_spec(Command::Select)) {
        Some(Command::Select)
    } else {
        None
    }
}

/// Byte-for-byte equality of two slices.
pub fn bytes_eq(a: &[u8], b: &[u8]) -> (r: bool)
    ensures
        r == (a@ == b@),
{
    if a.len() != b.len() {
        assert(a@ != b@);
        return false;
    }
    let mut i: usize = 0;
    while i < a.len()
        invariant
            i <= a@.len(),
            a@.len() == b@.len(),
            forall|j: int| 0 <= j < i ==> a@[j] == b@[j],
        decreases a@.len() - i,
    {
        if a[i] != b[i] {
            return false;
        }
        i = i + 1;
    }
    proof {
        assert(a@ =~= b@);
    }
    true
}

impl Command {
    /// Encode this command as its wire token.
    pub fn msg(&self) -> (r: &'static str)
        ensures
            r@ == msg_spec(*self),
    {
        match self {
            Command::Next => "next",
            Command::Prev => "prev",
            Command::PeekNext => "peek-next",
            Command::PeekPrev => "peek-prev",
            Command::Show => "show",
            Command::Dismiss => "dismiss",
            Command::Peek => "peek",
            Command::Select => "select",
        }
    }

    /// Decode one received datagram by exact byte match against the
    /// vocabulary. Exactly the eight valid tokens decode; everything else is
    /// a `DecodeError`.
    pub fn from_msg(msg: &[u8]) -> (r: Result<Command, DecodeError>)
        ensures
            r matches Ok(c) ==> from_msg_spec(msg@) == Some(c),
            r is Err ==> from_msg_spec(msg@) is None,
    {
        proof {
            lemma_tokens_ascii();
        }
        if bytes_eq(msg, "next".as_bytes()) {
            Ok(Command::Next)
        } else if bytes_eq(msg, "prev".as_bytes()) {
            Ok(Command::Prev)
        } else if bytes_eq(msg, "peek-next".as_bytes()) {
            Ok(Command::PeekNext)
        } else if bytes_eq(msg, "peek-prev".as_bytes()) {
            Ok(Command::PeekPrev)
        } else if bytes_eq(msg, "show".as_bytes()) {
            Ok(Command::Show)
        } else if bytes_eq(msg, "dismiss".as_bytes()) {
            Ok(Command::Dismiss)
        } else if bytes_eq(msg, "peek".as_bytes()) {
            Ok(Command::Peek)
        } else if bytes_eq(msg, "select".as_bytes()) {
            Ok(Command::Select)
        } else {
            Err(DecodeError)
        }
    }
}

/// Every token in the vocabulary is ASCII, so `as_bytes` on a token yields
/// exactly one byte per character.
pub proof fn lemma_tokens_ascii()
    ensures
        forall|c: Command| #[trigger] msg_spec(c).len() > 0,
        "next".spec_bytes() == ascii_bytes("next"@),
        "prev".spec_bytes() == ascii_bytes("prev"@),
        "peek-next".spec_bytes() == ascii_bytes("peek-next"@),
        "peek-prev".spec_bytes() == ascii_bytes("peek-prev"@),
        "show".spec_bytes() == ascii_bytes("show"@),
        "dismiss".spec_bytes() == ascii_bytes("dismiss"@),
        "peek".spec_bytes() == ascii_bytes("peek"@),
        "select".spec_bytes() == ascii_bytes("select"@),
{
    reveal_strlit("next");
    reveal_strlit("prev");
    reveal_strlit("peek-next");
    reveal_strlit("peek-prev");
    reveal_strlit("show");
    reveal_strlit("dismiss");
    reveal_strlit("peek");
    reveal_strlit("select");
    assert forall|c: Command| #[trigger] msg_spec(c).len() > 0 by {
        match c {
            Command::Next => assert("next"@.len() == 4),
            Command::Prev => assert("prev"@.len() == 4),
            Command::PeekNext => assert("peek-next"@.len() == 9),
            Command::PeekPrev => assert("peek-prev"@.len() == 9),
            Command::Show => assert("show"@.len() == 4),
            Command::Dismiss => assert("dismiss"@.len() == 7),
            Command::Peek => assert("peek"@.len() == 4),
            Command::Select => assert("select"@.len() == 6),
        }
    }
    assert(vstd::string::is_ascii("next"));
    assert(vstd::string::is_ascii("prev"));
    assert(vstd::string::is_ascii("peek-next"));
    assert(vstd::string::is_ascii("peek-prev"));
    assert(vstd::string::is_ascii("show"));
    assert(vstd::string::is_ascii("dismiss"));
    assert(vstd::string::is_ascii("peek"));
    assert(vstd::string::is_ascii("select"));
    broadcast use vstd::string::is_ascii_spec_bytes;

    assert("next".spec_bytes() =~= ascii_bytes("next"@));
    assert("prev".spec_bytes() =~= ascii_bytes("prev"@));
    assert("peek-next".spec_bytes() =~= ascii_bytes("peek-next"@));
    assert("peek-prev".spec_bytes() =~= ascii_bytes("peek-prev"@));
    assert("show".spec_bytes() =~= ascii_bytes("show"@));
    assert("dismiss".spec_bytes() =~= ascii_bytes("dismiss"@));
    assert("peek".spec_bytes() =~= ascii_bytes("peek"@));
    assert("select".spec_bytes() =~= ascii_bytes("select"@));
}

/// Round-trip law: the wire token of every command in the vocabulary decodes
/// back to exactly that command.
pub proof fn lemma_command_round_trip(c: Command)
    ensures
        from_msg_spec(ascii_bytes(msg_spec(c))) == Some(c),
{
    reveal_strlit("next");
    reveal_strlit("prev");
    reveal_strlit("peek-next");
    reveal_strlit("peek-prev");
    reveal_strlit("show");
    reveal_strlit("dismiss");
    reveal_strlit("peek");
    reveal_strlit("select");
    let next = ascii_bytes(msg_spec(Command::Next));
    let prev = ascii_bytes(msg_spec(Command::Prev));
    let peek_next = ascii_bytes(msg_spec(Command::PeekNext));
    let peek_prev = ascii_bytes(msg_spec(Command::PeekPrev));
    let show = ascii_bytes(msg_spec(Command::Show));
    let peek = ascii_bytes(msg_spec(Command::Peek));
    let dismiss = ascii_bytes(msg_spec(Command::Dismiss));
    let select = ascii_bytes(msg_spec(Command::Select));
    assert(next.len() == 4);
    assert(prev.len() == 4);
    assert(peek_next.len() == 9);
    assert(peek_prev.len() == 9);
    assert(show.len() == 4);
    assert(dismiss.len() == 7);
    assert(peek.len() == 4);
    assert(select.len() == 6);
    // Same-length tokens differ at an early byte; all other pairs differ in
    // length.
    assert(prev[0] != next[0]);
    assert(peek_prev[5] != peek_next[5]);
    assert(show[0] != next[0]);
    assert(show[0] != prev[0]);
    assert(peek[0] != next[0]);
    assert(peek[1] != prev[1]);
    assert(peek[0] != show[0]);
    match c {
        Command::Next => assert(from_msg_spec(next) == Some(Command::Next)),
        Command::Prev => assert(from_msg_spec(prev) == Some(Command::Prev)),
        Command::PeekNext => assert(from_msg_spec(peek_next) == Some(Command::PeekNext)),
        Command::PeekPrev => assert(from_msg_spec(peek_prev) == Some(Command::PeekPrev)),
        Command::Show => assert(from_msg_spec(show) == Some(Command::Show)),
        Command::Dismiss => assert(from_msg_spec(dismiss) == Some(Command::Dismiss)),
        Command::Peek => assert(from_msg_spec(peek) == Some(Command::Peek)),
        Command::Select => assert(from_msg_spec(select) == Some(Command::Select)),
    }
}

/// The outcome of removing a stale socket file before the daemon binds its
/// control socket.
#[derive(Debug, Clone, Copy, PartialEq, Eq)]
pub enum RemoveOutcome {
    /// A stale socket was there and was removed.
    Removed,
    /// There was no stale socket to remove.
    NotFound,
    /// The removal failed for some other reason.
    Failed,
}

/// The bind rule: binding proceeds exactly when the stale socket is gone —
/// already missing, or removed now. Any other removal failure propagates and
/// the daemon does not bind.
pub fn can_bind_after_removal(outcome: RemoveOutcome) -> (r: bool)
    ensures
        r == (outcome is Removed || outcome is NotFound),
{
    match outcome {
        RemoveOutcome::Removed => true,
        RemoveOutcome::NotFound => true,
        RemoveOutcome::Failed => false,
    }
}

/// Whether a runtime-directory value can carry the socket path: it is set
/// and something in it is not whitespace.
pub open spec fn usable_dir(v: Option<Seq<u8>>) -> bool {
    match v {
        Some(d) => exists|i: int|
            0 <= i < d.len() && !crate::sway::session::is_space(#[trigger] d[i]),
        None => false,
    }
}

/// Whether the runtime directory carries the socket path: only when the
/// variable is set and something in its value is not whitespace. An unset or
/// blank value means the deterministic per-user fallback path is used
/// instead.
pub fn runtime_dir_usable(dir: Option<&Vec<u8>>) -> (r: bool)
    ensures
        r == usable_dir(crate::sway::session::opt_bytes(dir)),
{
    let value = match dir {
        Some(value) => value,
        None => {
            return false;
        },
    };
    let mut i: usize = 0;
    while i < value.len()
        invariant
            dir == Some(value),
            i <= value@.len(),
            forall|j: int| 0 <= j < i ==> crate::sway::session::is_space(#[trigger] value@[j]),
        decreases value@.len() - i,
    {
        if !crate::sway::session::is_space_byte(value[i]) {
            proof {
                assert(usable_dir(Some(value@))) by {
                    assert(0 <= i < value@.len() && !crate::sway::session::is_space(
                        value@[i as int],
                    ));
                }
            }
            return true;
        }
        i = i + 1;
    }
    false
}

/// What the control-socket receiver does with one receive outcome.
#[derive(Debug, PartialEq, Eq)]
pub enum ReceiverStep {
    /// A datagram arrived: forward its decode result, in arrival order, to
    /// the internal command queue. An unrecognized token is a non-fatal
    /// decode error, never a crash of the receiver loop.
    Forward(Result<Command, DecodeError>),
    /// The socket failed: a fatal I/O error ends the receiver loop.
    Stop,
}

/// The receiver rule: each received datagram is decoded by exact byte match
/// and the result forwarded; a socket failure (no datagram) stops the loop.
pub fn receiver_step(received: Option<&[u8]>) -> (s: ReceiverStep)
    ensures
        received matches Some(datagram) ==> match from_msg_spec(datagram@) {
            Some(c) => s == ReceiverStep::Forward(Ok(c)),
            None => s == ReceiverStep::Forward(Err::<Command, DecodeError>(DecodeError)),
        },
        received is None ==> s == ReceiverStep::Stop,
{
    match received {
        Some(datagram) => match Command::from_msg(datagram) {
            Ok(c) => ReceiverStep::Forward(Ok(c)),
            Err(_) => ReceiverStep::Forward(Err(DecodeError)),
        },
        None => ReceiverStep::Stop,
    }
}

} // verus!
