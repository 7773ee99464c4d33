//! Session detection: whether the environment looks like a Wayland/Sway
//! session. Reading the environment variables is I/O and happens in the
//! binary; the normalization of their values and the acceptance rules are
//! the core's. The rules avoid false negatives: an unset or blank variable
//! is always accepted.

use vstd::prelude::*;
use vstd::string::StringSliceAdditionalSpecFns;
use crate::ipc::{ascii_bytes, bytes_eq};

verus! {

/// ASCII whitespace.
pub open spec fn is_space(b: u8) -> bool {
    b == 32 || b == 9 || b == 10 || b == 13 || b == 11 || b == 12
}

/// ASCII lowercasing of one byte.
pub open spec fn lower(b: u8) -> u8 {
    if 65 <= b && b <= 90 {
        (b + 32) as u8
    } else {
        b
    }
}

/// The value with leading whitespace removed.
pub open spec fn trim_front(s: Seq<u8>) -> Seq<u8>
    decreases s.len(),
{
    if s.len() > 0 && is_space(s[0]) {
        trim_front(s.drop_first())
    } else {
        s
    }
}

/// The value with trailing whitespace removed.
pub open spec fn trim_back(s: Seq<u8>) -> Seq<u8>
    decreases s.len(),
{
    if s.len() > 0 && is_space(s.last()) {
        trim_back(s.drop_last())
    } else {
        s
    }
}

/// Each byte lowercased.
pub open spec fn lowered(s: Seq<u8>) -> Seq<u8> {
    Seq::new(s.len(), |i: int| lower(s[i]))
}

/// A variable's value, normalized the way the session check compares it:
/// trimmed of surrounding whitespace and lowercased.
pub open spec fn normalized(s: Seq<u8>) -> Seq<u8> {
    lowered(trim_back(trim_front(s)))
}

/// Trimming from the front stops at the first non-space byte.
proof fn lemma_trim_front_skip(s: Seq<u8>, i: int)
    requires
        0 <= i <= s.len(),
        forall|j: int| 0 <= j < i ==> is_space(#[trigger] s[j]),
        i < s.len() ==> !is_space(s[i]),
    ensures
        trim_front(s) == s.skip(i),
    decreases i,
{
    if i == 0 {
        assert(s.skip(0) =~= s);
    } else {
        assert(is_space(s[0]));
        lemma_trim_front_skip(s.drop_first(), i - 1);
        assert(s.drop_first().skip(i - 1) =~= s.skip(i));
    }
}

/// Trimming from the back stops at the last non-space byte.
proof fn lemma_trim_back_take(s: Seq<u8>, j: int)
    requires
        0 <= j <= s.len(),
        forall|k: int| j <= k < s.len() ==> is_space(#[trigger] s[k]),
        j > 0 ==> !is_space(s[j - 1]),
    ensures
        trim_back(s) == s.take(j),
    decreases s.len(),
{
    if j == s.len() {
        if s.len() > 0 {
            assert(!is_space(s.last()));
        }
        assert(s.take(j) =~= s);
    } else {
        assert(is_space(s.last()));
        lemma_trim_back_take(s.drop_last(), j);
        assert(s.drop_last().take(j) =~= s.take(j));
    }
}

/// Whether one byte is ASCII whitespace.
pub fn is_space_byte(b: u8) -> (r: bool)
    ensures
        r == is_space(b),
{
    b == 32 || b == 9 || b == 10 || b == 13 || b == 11 || b == 12
}

/// ASCII-lowercase one byte.
pub fn lower_byte(b: u8) -> (r: u8)
    ensures
        r == lower(b),
{
    if 65 <= b && b <= 90 {
        b + 32
    } else {
        b
    }
}

/// Normalize a variable's value: trim surrounding ASCII whitespace and
/// lowercase the rest.
pub fn normalize(s: &[u8]) -> (r: Vec<u8>)
    ensures
        r@ == normalized(s@),
{
    let n = s.len();
    let mut start: usize = 0;
    while start < n && is_space_byte(s[start])
        invariant
            start <= n,
            n == s@.len(),
            forall|j: int| 0 <= j < start ==> is_space(#[trigger] s@[j]),
        decreases n - start,
    {
        start = start + 1;
    }
    let mut end: usize = n;
    while end > start && is_space_byte(s[end - 1])
        invariant
            start <= end <= n,
            n == s@.len(),
            forall|k: int| end <= k < n ==> is_space(#[trigger] s@[k]),
        decreases end,
    {
        end = end - 1;
    }
    proof {
        lemma_trim_front_skip(s@, start as int);
        let t = s@.skip(start as int);
        lemma_trim_back_take(t, end - start);
        assert(t.take(end - start) =~= s@.subrange(start as int, end as int));
    }
    let mut out: Vec<u8> = Vec::new();
    let mut i: usize = start;
    while i < end
        invariant
            start <= i <= end <= n,
            n == s@.len(),
            out@.len() == i - start,
            forall|k: int|
                0 <= k < out@.len() ==> out@[k] == lower(#[trigger] s@[start as int + k]),
        decreases end - i,
    {
        let b = lower_byte(s[i]);
        out.push(b);
        i = i + 1;
    }
    proof {
        let mid = s@.subrange(start as int, end as int);
        assert(out@.len() == lowered(mid).len());
        assert forall|k: int| 0 <= k < out@.len() implies out@[k] == lowered(mid)[k] by {
            assert(mid[k] == s@[start as int + k]);
            assert(out@[k] == lower(s@[start as int + k]));
        }
        assert(out@ =~= lowered(mid));
        assert(trim_back(trim_front(s@)) == mid);
    }
    out
}

/// Whether `s` begins with `p`.
pub open spec fn starts_with(s: Seq<u8>, p: Seq<u8>) -> bool {
    p.len() <= s.len() && s.subrange(0, p.len() as int) == p
}

/// Whether `s` ends with `p`.
pub open spec fn ends_with(s: Seq<u8>, p: Seq<u8>) -> bool {
    p.len() <= s.len() && s.subrange(s.len() - p.len(), s.len() as int) == p
}

/// Byte-level prefix test.
pub fn starts_with_bytes(s: &[u8], p: &[u8]) -> (r: bool)
    ensures
        r == starts_with(s@, p@),
{
    if p.len() > s.len() {
        return false;
    }
    let mut i: usize = 0;
    while i < p.len()
        invariant
            i <= p@.len() <= s@.len(),
            forall|j: int| 0 <= j < i ==> s@[j] == p@[j],
        decreases p@.len() - i,
    {
        if s[i] != p[i] {
            proof {
                assert(!starts_with(s@, p@)) by {
                    assert(s@.subrange(0, p@.len() as int)[i as int] != p@[i as int]);
                }
            }
            return false;
        }
        i = i + 1;
    }
    proof {
        assert(s@.subrange(0, p@.len() as int) =~= p@);
    }
    true
}

/// Byte-level suffix test.
pub fn ends_with_bytes(s: &[u8], p: &[u8]) -> (r: bool)
    ensures
        r == ends_with(s@, p@),
{
    if p.len() > s.len() {
        return false;
    }
    let off = s.len() - p.len();
    let mut i: usize = 0;
    while i < p.len()
        invariant
            i <= p@.len() <= s@.len(),
            s@.len() <= usize::MAX,
            off == s@.len() - p@.len(),
            forall|j: int| 0 <= j < i ==> s@[off + j] == p@[j],
        decreases p@.len() - i,
    {
        if s[off + i] != p[i] {
            proof {
                assert(!ends_with(s@, p@)) by {
                    assert(s@.subrange(s@.len() - p@.len(), s@.len() as int)[i as int]
                        != p@[i as int]);
                }
            }
            return false;
        }
        i = i + 1;
    }
    proof {
        assert(s@.subrange(s@.len() - p@.len(), s@.len() as int) =~= p@);
    }
    true
}

/// The session-type rule: an unset or blank `XDG_SESSION_TYPE` is accepted,
/// anything else must normalize to exactly "wayland".
pub open spec fn wayland_session_ok(v: Option<Seq<u8>>) -> bool {
    match v {
        None => true,
        Some(s) => normalized(s).len() == 0 || normalized(s) == ascii_bytes("wayland"@),
    }
}

/// The desktop-session rule: an unset or blank variable is accepted,
/// anything else must start or end with "sway" once normalized (a desktop
/// such as "regolith-sway" runs the Sway window manager too).
pub open spec fn sway_desktop_ok(v: Option<Seq<u8>>) -> bool {
    match v {
        None => true,
        Some(s) => {
            let nrm = normalized(s);
            nrm.len() == 0 || starts_with(nrm, ascii_bytes("sway"@)) || ends_with(
                nrm,
                ascii_bytes("sway"@),
            )
        },
    }
}

/// Why the environment was rejected.
#[derive(Debug, Clone, Copy, PartialEq, Eq)]
pub enum SessionError {
    /// The session type is set and is not a Wayland session.
    NotWayland,
    /// A desktop-session variable is set and does not look like Sway.
    NotSway,
}

impl SessionError {
    /// A human-readable description of the failure.
    pub fn message(&self) -> (r: String)
        ensures
            *self is NotWayland ==> r@ == "you do not seem to be running in a Wayland session"@,
            *self is NotSway ==> r@ == "you do not seem to be running in a Sway session"@,
    {
        match self {
            SessionError::NotWayland => "you do not seem to be running in a Wayland session".to_owned(),
            SessionError::NotSway => "you do not seem to be running in a Sway session".to_owned(),
        }
    }
}

/// The view of an optional variable value.
pub open spec fn opt_bytes(v: Option<&Vec<u8>>) -> Option<Seq<u8>> {
    match v {
        Some(s) => Some(s@),
        None => None,
    }
}

/// The bytes of "wayland" and "sway" as the specs spell them.
proof fn lemma_session_tokens()
    ensures
        "wayland".spec_bytes() == ascii_bytes("wayland"@),
        "sway".spec_bytes() == ascii_bytes("sway"@),
{
    reveal_strlit("wayland");
    reveal_strlit("sway");
    assert(vstd::string::is_ascii("wayland"));
    assert(vstd::string::is_ascii("sway"));
    broadcast use vstd::string::is_ascii_spec_bytes;

    assert("wayland".spec_bytes() =~= ascii_bytes("wayland"@));
    assert("sway".spec_bytes() =~= ascii_bytes("sway"@));
}

/// Check the session variables against the acceptance rules: `Ok` exactly
/// when every set variable passes its rule; a bad session type is reported
/// before a bad desktop session.
pub fn check_is_sway_session(
    session_type: Option<&Vec<u8>>,
    desktop_session: Option<&Vec<u8>>,
    xdg_session_desktop: Option<&Vec<u8>>,
) -> (r: Result<(), SessionError>)
    ensures
        r is Ok <==> wayland_session_ok(opt_bytes(session_type)) && sway_desktop_ok(
            opt_bytes(desktop_session),
        ) && sway_desktop_ok(opt_bytes(xdg_session_desktop)),
        r == Err::<(), SessionError>(SessionError::NotWayland) <==> !wayland_session_ok(
            opt_bytes(session_type),
        ),
{
    proof {
        lemma_session_tokens();
    }
    if let Some(value) = session_type {
        let nrm = normalize(value.as_slice());
        if nrm.len() > 0 && !bytes_eq(nrm.as_slice(), "wayland".as_bytes()) {
            return Err(SessionError::NotWayland);
        }
    }
    if !desktop_value_ok(desktop_session) {
        return Err(SessionError::NotSway);
    }
    if !desktop_value_ok(xdg_session_desktop) {
        return Err(SessionError::NotSway);
    }
    Ok(())
}

/// Whether one desktop-session variable passes the Sway rule.
fn desktop_value_ok(v: Option<&Vec<u8>>) -> (r: bool)
    ensures
        r == sway_desktop_ok(opt_bytes(v)),
{
    proof {
        lemma_session_tokens();
    }
    match v {
        None => true,
        Some(value) => {
            let nrm = normalize(value.as_slice());
            nrm.len() == 0 || starts_with_bytes(nrm.as_slice(), "sway".as_bytes())
                || ends_with_bytes(nrm.as_slice(), "sway".as_bytes())
        },
    }
}

} // verus!
