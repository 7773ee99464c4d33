//! Effector commands issued to the window manager: focusing a window by
//! identity and switching the keybind mode. The exact command text is fixed
//! by `payload_spec` and built by verified code; the trusted boundary only
//! hands the finished payload to the transport. A response that reports
//! partial failure is surfaced as an error, never silently ignored.

use vstd::prelude::*;
use vstd::string::StringSliceAdditionalSpecFns;
use crate::ipc::ascii_bytes;
use crate::sway::subscribe::SwayWindowId;

verus! {

/// swayipc's connection handle to the compositor's IPC socket.
#[verifier::external_type_specification]
#[verifier::external_body]
pub struct ExConnection(swayipc::Connection);

/// swayipc's error type.
#[verifier::external_type_specification]
#[verifier::external_body]
pub struct ExSwayError(swayipc::Error);

/// A keybind mode the daemon can switch the window manager into.
#[derive(Debug, Clone, Copy)]
pub enum SwayMode {
    Default,
}

/// The mode's name in the window manager's configuration.
pub open spec fn mode_name_spec(mode: SwayMode) -> Seq<char> {
    match mode {
        SwayMode::Default => "default"@,
    }
}

impl SwayMode {
    /// The mode's name in the window manager's configuration.
    pub fn name(&self) -> (r: &'static str)
        ensures
            r@ == mode_name_spec(*self),
    {
        match self {
            SwayMode::Default => "default",
        }
    }
}

/// One effector request.
#[derive(Debug)]
pub enum SwayRequest {
    /// Focus the window with this identity.
    FocusWindow(i64),
    /// Switch the keybind mode.
    BindingMode(SwayMode),
}

/// The decimal digits of a nonnegative number, most significant first.
pub open spec fn dec_digits(n: int) -> Seq<u8>
    recommends
        n >= 0,
    decreases n,
{
    if n < 10 {
        seq![(48 + n) as u8]
    } else {
        dec_digits(n / 10).push((48 + n % 10) as u8)
    }
}

/// The decimal notation of an integer: a minus sign for a negative number,
/// then its digits.
pub open spec fn signed_dec_digits(n: int) -> Seq<u8> {
    if n < 0 {
        seq![45u8] + dec_digits(-n)
    } else {
        dec_digits(n)
    }
}

/// The exact command text a request puts on the wire, as UTF-8 bytes:
/// `[con_id="<id>"] focus` to focus a window, `mode <name>` to switch the
/// keybind mode.
pub open spec fn payload_spec(request: SwayRequest) -> Seq<u8> {
    match request {
        SwayRequest::FocusWindow(id) => ascii_bytes("[con_id=\""@) + signed_dec_digits(id as int)
            + ascii_bytes("\"] focus"@),
        SwayRequest::BindingMode(mode) => ascii_bytes("mode "@) + ascii_bytes(
            mode_name_spec(mode),
        ),
    }
}

/// The fixed pieces of the command texts are ASCII, one byte per character.
proof fn lemma_command_text_ascii()
    ensures
        "[con_id=\"".spec_bytes() == ascii_bytes("[con_id=\""@),
        "\"] focus".spec_bytes() == ascii_bytes("\"] focus"@),
        "mode ".spec_bytes() == ascii_bytes("mode "@),
        "default".spec_bytes() == ascii_bytes("default"@),
        forall|i: int|
            0 <= i < ascii_bytes("[con_id=\""@).len() ==> #[trigger] ascii_bytes(
                "[con_id=\""@,
            )[i] < 128,
        forall|i: int|
            0 <= i < ascii_bytes("\"] focus"@).len() ==> #[trigger] ascii_bytes(
                "\"] focus"@,
            )[i] < 128,
        forall|i: int|
            0 <= i < ascii_bytes("mode "@).len() ==> #[trigger] ascii_bytes("mode "@)[i] < 128,
        forall|i: int|
            0 <= i < ascii_bytes("default"@).len() ==> #[trigger] ascii_bytes("default"@)[i]
                < 128,
{
    reveal_strlit("[con_id=\"");
    reveal_strlit("\"] focus");
    reveal_strlit("mode ");
    reveal_strlit("default");
    assert(vstd::string::is_ascii("[con_id=\""));
    assert(vstd::string::is_ascii("\"] focus"));
    assert(vstd::string::is_ascii("mode "));
    assert(vstd::string::is_ascii("default"));
    broadcast use vstd::string::is_ascii_spec_bytes;

    assert("[con_id=\"".spec_bytes() =~= ascii_bytes("[con_id=\""@));
    assert("\"] focus".spec_bytes() =~= ascii_bytes("\"] focus"@));
    assert("mode ".spec_bytes() =~= ascii_bytes("mode "@));
    assert("default".spec_bytes() =~= ascii_bytes("default"@));
}

/// Decimal digits are the ASCII bytes of `0` through `9`.
proof fn lemma_dec_digits_ascii(n: int)
    requires
        n >= 0,
    ensures
        forall|i: int|
            0 <= i < dec_digits(n).len() ==> 48 <= #[trigger] dec_digits(n)[i] < 58,
    decreases n,
{
    if n >= 10 {
        lemma_dec_digits_ascii(n / 10);
        assert forall|i: int|
            0 <= i < dec_digits(n).len() implies 48 <= #[trigger] dec_digits(n)[i] < 58 by {
            if i < dec_digits(n).len() - 1 {
                assert(dec_digits(n)[i] == dec_digits(n / 10)[i]);
            }
        }
    }
}

/// Every byte of a command text is ASCII, so it passes to the string-typed
/// transport unchanged.
proof fn lemma_payload_ascii(request: SwayRequest)
    ensures
        forall|i: int|
            0 <= i < payload_spec(request).len() ==> #[trigger] payload_spec(request)[i] < 128,
{
    lemma_command_text_ascii();
    match request {
        SwayRequest::FocusWindow(id) => {
            let head = ascii_bytes("[con_id=\""@);
            let digits = signed_dec_digits(id as int);
            let tail = ascii_bytes("\"] focus"@);
            if id as int >= 0 {
                lemma_dec_digits_ascii(id as int);
            } else {
                lemma_dec_digits_ascii(-(id as int));
                assert(forall|i: int|
                    0 <= i < digits.len() ==> digits[i] == 45 || 48 <= #[trigger] digits[i]
                        < 58);
            }
            assert forall|i: int|
                0 <= i < payload_spec(request).len() implies #[trigger] payload_spec(request)[i]
                < 128 by {
                if i < head.len() {
                    assert(payload_spec(request)[i] == head[i]);
                } else if i < head.len() + digits.len() {
                    assert(payload_spec(request)[i] == digits[i - head.len()]);
                } else {
                    assert(payload_spec(request)[i] == tail[i - head.len() - digits.len()]);
                }
            }
        },
        SwayRequest::BindingMode(mode) => {
            reveal_strlit("default");
            let head = ascii_bytes("mode "@);
            let name = ascii_bytes(mode_name_spec(mode));
            assert forall|i: int|
                0 <= i < payload_spec(request).len() implies #[trigger] payload_spec(request)[i]
                < 128 by {
                if i < head.len() {
                    assert(payload_spec(request)[i] == head[i]);
                } else {
                    assert(payload_spec(request)[i] == name[i - head.len()]);
                    assert(name == ascii_bytes("default"@));
                }
            }
        },
    }
}

/// Append a byte slice.
fn push_bytes(out: &mut Vec<u8>, bytes: &[u8])
    ensures
        final(out)@ == old(out)@ + bytes@,
{
    let mut i: usize = 0;
    while i < bytes.len()
        invariant
            i <= bytes@.len(),
            out@ == old(out)@ + bytes@.take(i as int),
        decreases bytes@.len() - i,
    {
        out.push(bytes[i]);
        proof {
            assert(out@ =~= old(out)@ + bytes@.take(i + 1));
        }
        i = i + 1;
    }
    proof {
        assert(bytes@.take(bytes@.len() as int) =~= bytes@);
    }
}

/// Append the decimal digits of a nonnegative number.
fn push_decimal_u64(out: &mut Vec<u8>, m: u64)
    ensures
        final(out)@ == old(out)@ + dec_digits(m as int),
    decreases m,
{
    if m >= 10 {
        push_decimal_u64(out, m / 10);
    }
    let digit: u8 = 48 + ((m % 10) as u8);
    out.push(digit);
    proof {
        if m >= 10 {
            assert(out@ =~= old(out)@ + dec_digits(m as int / 10).push(digit));
            assert(dec_digits(m as int) == dec_digits(m as int / 10).push(digit));
        } else {
            assert(out@ =~= old(out)@ + dec_digits(m as int));
        }
    }
}

/// Append the decimal notation of an integer.
fn push_decimal_i64(out: &mut Vec<u8>, n: i64)
    ensures
        final(out)@ == old(out)@ + signed_dec_digits(n as int),
{
    if n < 0 {
        out.push(45u8);
        let magnitude: u64 = if n == i64::MIN {
            9223372036854775808u64
        } else {
            (-n) as u64
        };
        proof {
            assert(magnitude as int == -(n as int));
        }
        push_decimal_u64(out, magnitude);
        proof {
            assert(out@ =~= old(out)@ + signed_dec_digits(n as int));
        }
    } else {
        push_decimal_u64(out, n as u64);
    }
}

impl SwayRequest {
    /// The exact command text sent for this request.
    pub fn payload(&self) -> (r: Vec<u8>)
        ensures
            r@ == payload_spec(*self),
    {
        let mut out: Vec<u8> = Vec::new();
        proof {
            lemma_command_text_ascii();
        }
        match self {
            SwayRequest::FocusWindow(id) => {
                push_bytes(&mut out, "[con_id=\"".as_bytes());
                push_decimal_i64(&mut out, *id);
                push_bytes(&mut out, "\"] focus".as_bytes());
                proof {
                    assert(out@ =~= payload_spec(*self));
                }
            },
            SwayRequest::BindingMode(mode) => {
                push_bytes(&mut out, "mode ".as_bytes());
                let name = mode.name();
                proof {
                    assert(name.spec_bytes() =~= ascii_bytes(mode_name_spec(*mode))) by {
                        reveal_strlit("default");
                        assert(vstd::string::is_ascii(name));
                        broadcast use vstd::string::is_ascii_spec_bytes;

                    }
                }
                push_bytes(&mut out, name.as_bytes());
                proof {
                    assert(out@ =~= payload_spec(*self));
                }
            },
        }
        out
    }
}

/// A failure while issuing an effector command.
#[derive(Debug)]
pub enum CommandError {
    /// The IPC transport itself failed.
    Ipc(swayipc::Error),
    /// The window manager executed the request but reported a failure for
    /// one of its commands.
    Failed(swayipc::Error),
}

/// Relies on swayipc's `Connection::run_command`: sends exactly the given
/// payload as one command batch and returns sway's per-command outcomes, or
/// the transport error. The payload must be ASCII so that it passes to the
/// string-typed transport unchanged (and the conversion cannot panic).
#[verifier::external_body]
fn run_sway_command(conn: &mut swayipc::Connection, payload: &[u8]) -> (r: Result<
    Vec<Result<(), swayipc::Error>>,
    swayipc::Error,
>)
    requires
        forall|i: int| 0 <= i < payload@.len() ==> payload@[i] < 128,
{
    let payload = core::str::from_utf8(payload).expect("an ASCII payload is valid UTF-8");
    conn.run_command(payload)
}

/// The collapsed result of a batch of per-command outcomes: success exactly
/// when every command succeeded, otherwise the first reported failure.
pub open spec fn collapse_outcomes(v: Seq<Result<(), swayipc::Error>>) -> Result<
    (),
    CommandError,
>
    decreases v.len(),
{
    if v.len() == 0 {
        Ok(())
    } else {
        match v[0] {
            Result::Err(e) => Err(CommandError::Failed(e)),
            Result::Ok(_) => collapse_outcomes(v.drop_first()),
        }
    }
}

/// The collapsed result is `Ok` exactly when every outcome is `Ok`.
pub proof fn lemma_collapse_ok(v: Seq<Result<(), swayipc::Error>>)
    ensures
        collapse_outcomes(v) is Ok <==> (forall|i: int| 0 <= i < v.len() ==> (#[trigger] v[i]) is Ok),
    decreases v.len(),
{
    if v.len() > 0 {
        lemma_collapse_ok(v.drop_first());
        if v[0] is Ok {
            assert(forall|i: int| 0 <= i < v.drop_first().len() ==> v.drop_first()[i] == v[i + 1]);
            if collapse_outcomes(v) is Ok {
                assert forall|i: int| 0 <= i < v.len() implies (#[trigger] v[i]) is Ok by {
                    if i > 0 {
                        assert(v.drop_first()[i - 1] == v[i]);
                    }
                }
            }
        }
    }
}

/// Collapse the outcome of one effector request: a transport failure is an
/// `Ipc` error; otherwise success exactly when every command outcome
/// reports success, and the first failure is surfaced.
#[verifier::loop_isolation(false)]
pub fn command_outcome(outcomes: Result<Vec<Result<(), swayipc::Error>>, swayipc::Error>) -> (r:
    Result<(), CommandError>)
    ensures
        outcomes matches Ok(v) ==> r == collapse_outcomes(v@),
        outcomes matches Err(e) ==> r == Err::<(), CommandError>(CommandError::Ipc(e)),
{
    match outcomes {
        Result::Err(e) => Err(CommandError::Ipc(e)),
        Result::Ok(mut v) => {
            let ghost orig = v@;
            while v.len() > 0
                invariant
                    collapse_outcomes(v@) == collapse_outcomes(orig),
                decreases v.len(),
            {
                let ghost before = v@;
                let head = v.remove(0);
                proof {
                    assert(v@ =~= before.drop_first());
                }
                match head {
                    Result::Ok(_) => {},
                    Result::Err(e) => {
                        return Err(CommandError::Failed(e));
                    },
                }
            }
            Ok(())
        },
    }
}

/// Ask the window manager to focus the window with the given identity.
///
/// The reserved null identity means the switcher was empty at selection
/// time: that is a deliberate no-op, so no command reaches the window
/// manager. For any other identity, exactly the text
/// `payload_spec(FocusWindow(id))` — `[con_id="<id>"] focus` — is handed to
/// the transport (fixed by `SwayRequest::payload`'s contract), and the
/// result is the reply collapsed by `command_outcome`: success exactly when
/// the transport and every per-command outcome succeeded.
pub fn switch_window(conn: &mut swayipc::Connection, id: SwayWindowId) -> (r: Result<
    (),
    CommandError,
>)
    ensures
        id.0 == 0 ==> r == Ok::<(), CommandError>(()),
{
    if id.is_null() {
        return Ok(());
    }
    let request = SwayRequest::FocusWindow(id.0);
    let payload = request.payload();
    proof {
        lemma_payload_ascii(request);
    }
    command_outcome(run_sway_command(conn, payload.as_slice()))
}

/// Ask the window manager to switch to the given keybind mode.
///
/// Exactly the text `payload_spec(BindingMode(mode))` — `mode <name>` — is
/// handed to the transport (fixed by `SwayRequest::payload`'s contract), and
/// the result is the reply collapsed by `command_outcome`: success exactly
/// when the transport and every per-command outcome succeeded. The reply
/// itself comes from the window manager, so no clause here constrains it.
pub fn switch_mode(conn: &mut swayipc::Connection, mode: SwayMode) -> (r: Result<
    (),
    CommandError,
>) {
    let request = SwayRequest::BindingMode(mode);
    let payload = request.payload();
    proof {
        lemma_payload_ascii(request);
    }
    command_outcome(run_sway_command(conn, payload.as_slice()))
}

} // verus!
