//! The library's own rules for Q IPC: validating a received response frame
//! before its body is decoded, and tracking which attach owns each selector.

use vstd::prelude::*;
use std::collections::HashMap;
use crate::env::contains_nul;
use crate::error::{ErrorCode, RayError, Result};

verus! {

/// Length of the Q wire header: endianness, message type, compression flag,
/// reserved byte, and the little-endian `u32` size of the whole message.
pub const HEADER_LEN: usize = 8;

/// The little-endian `u32` at bytes 4..8 of a frame.
pub open spec fn frame_size(msg: Seq<u8>) -> int {
    msg[4] as int + 256 * msg[5] as int + 65536 * msg[6] as int + 16777216 * msg[7] as int
}

/// A frame whose header checks out: at least a header long, sized as it says,
/// with a non-empty body.
pub open spec fn frame_ok(msg: Seq<u8>) -> bool {
    msg.len() >= 8 && frame_size(msg) == msg.len() && msg.len() > 8
}

/// A validated response frame.
#[derive(Debug)]
pub struct ResponseFrame<'a> {
    /// The body is compressed.
    pub compressed: bool,
    /// The serialized body following the header.
    pub body: &'a [u8],
}

/// Check a complete Q response message (8-byte header + body) received by an
/// external transport, and split off its body.
///
/// Errors if the message is shorter than the header, if the header's size
/// field disagrees with the message's length, or if the body is empty.
pub fn check_response_frame(msg: &[u8]) -> (r: Result<ResponseFrame<'_>>)
    ensures
        r is Ok <==> frame_ok(msg@),
        r matches Ok(f) ==> f.compressed == (msg@[2] != 0) && f.body@ == msg@.subrange(8, msg@.len() as int),
        r matches Err(e) ==> e.code == ErrorCode::Wire,
{
    if msg.len() < HEADER_LEN {
        return Err(RayError::new(ErrorCode::Wire, "Q: message shorter than wire header"));
    }
    let size: u64 = msg[4] as u64 + 256 * (msg[5] as u64) + 65536 * (msg[6] as u64) + 16777216 * (
    msg[7] as u64);
    if size != msg.len() as u64 {
        return Err(RayError::new(ErrorCode::Wire, "Q: message length does not match wire header"));
    }
    if msg.len() == HEADER_LEN {
        return Err(RayError::new(ErrorCode::Wire, "Q: empty response body"));
    }
    let compressed = msg[2] != 0;
    let body = slice_from(msg, HEADER_LEN);
    Ok(ResponseFrame { compressed, body })
}

/// Check the host and credentials of a TCP client connection before they are
/// handed to the transport as C strings: none may contain a NUL character. The host is
/// checked first, then the user, then the password.
pub fn check_connect_args(host: &str, user: &str, password: &str) -> (r: Result<()>)
    ensures
        r is Ok <==> !host@.contains('\0') && !user@.contains('\0') && !password@.contains('\0'),
        r matches Err(e) ==> e.code == ErrorCode::Domain && e.message@ == (if host@.contains('\0') {
            "host contains NUL"@
        } else if user@.contains('\0') {
            "user contains NUL"@
        } else {
            "password contains NUL"@
        }),
{
    if contains_nul(host) {
        return Err(RayError::new(ErrorCode::Domain, "host contains NUL"));
    }
    if contains_nul(user) {
        return Err(RayError::new(ErrorCode::Domain, "user contains NUL"));
    }
    if contains_nul(password) {
        return Err(RayError::new(ErrorCode::Domain, "password contains NUL"));
    }
    Ok(())
}

/// The same check for a Q connection, whose refusals name the protocol:
/// `Q host contains NUL`, `Q user contains NUL`, `Q password contains NUL`.
pub fn check_q_connect_args(host: &str, user: &str, password: &str) -> (r: Result<()>)
    ensures
        r is Ok <==> !host@.contains('\0') && !user@.contains('\0') && !password@.contains('\0'),
        r matches Err(e) ==> e.code == ErrorCode::Domain && e.message@ == (if host@.contains('\0') {
            "Q host contains NUL"@
        } else if user@.contains('\0') {
            "Q user contains NUL"@
        } else {
            "Q password contains NUL"@
        }),
{
    if contains_nul(host) {
        return Err(RayError::new(ErrorCode::Domain, "Q host contains NUL"));
    }
    if contains_nul(user) {
        return Err(RayError::new(ErrorCode::Domain, "Q user contains NUL"));
    }
    if contains_nul(password) {
        return Err(RayError::new(ErrorCode::Domain, "Q password contains NUL"));
    }
    Ok(())
}

/// Why a Q connect failed, as the transport reports it.
#[derive(Clone, Copy, Debug, PartialEq, Eq, Structural)]
pub enum ConnectFailure {
    /// The connect or the handshake timed out.
    Timeout,
    /// The login handshake or its authentication was refused.
    Handshake,
    /// Anything else.
    Other,
}

/// The reason a failed Q connect reports.
pub open spec fn connect_reason(f: ConnectFailure) -> Seq<char> {
    match f {
        ConnectFailure::Timeout => "timed out"@,
        ConnectFailure::Handshake => "handshake/auth failed"@,
        ConnectFailure::Other => "connection failed"@,
    }
}

impl ConnectFailure {
    /// The reason this failure reports.
    pub fn reason(&self) -> (r: &'static str)
        ensures
            r@ == connect_reason(*self),
    {
        match self {
            ConnectFailure::Timeout => "timed out",
            ConnectFailure::Handshake => "handshake/auth failed",
            ConnectFailure::Other => "connection failed",
        }
    }
}

/// `&s[start..]`.
fn slice_from(s: &[u8], start: usize) -> (r: &[u8])
    requires
        start <= s@.len(),
    ensures
        r@ == s@.subrange(start as int, s@.len() as int),
{
    let end = s.len();
    &s[start..end]
}

/// The claims of attached connections on event-loop selectors.
///
/// Selector ids are slot indices that the loop reuses as soon as a connection
/// goes away, so each attach takes a fresh token; a selector belongs to the
/// attach whose token it holds.
pub struct SelectorClaims {
    attached: HashMap<i64, u64>,
    next_token: u64,
}

/// The claim table's content: the token each selector is held by, and the next token.
pub struct ClaimsView {
    pub attached: Map<i64, u64>,
    pub next_token: u64,
}

impl View for SelectorClaims {
    type V = ClaimsView;

    closed spec fn view(&self) -> ClaimsView {
        ClaimsView { attached: self.attached@, next_token: self.next_token }
    }
}

/// Every token handed out so far is below the next one.
pub open spec fn tokens_below(v: ClaimsView) -> bool {
    forall|id: i64| #[trigger] v.attached.contains_key(id) ==> v.attached[id] < v.next_token
}

/// Selector `id` is held by the attach that got `token`.
pub open spec fn claimed_by(v: ClaimsView, id: i64, token: u64) -> bool {
    v.attached.contains_key(id) && v.attached[id] == token
}

/// The claims after `token` gives up selector `id`: the entry goes only if
/// `token` still holds it.
pub open spec fn released(v: ClaimsView, id: i64, token: u64) -> Map<i64, u64> {
    if claimed_by(v, id, token) {
        v.attached.remove(id)
    } else {
        v.attached
    }
}

/// The claims after selector `id` is claimed by a new attach.
pub open spec fn claimed(v: ClaimsView, id: i64) -> ClaimsView {
    ClaimsView { attached: v.attached.insert(id, v.next_token), next_token: (v.next_token + 1) as u64 }
}

impl SelectorClaims {
    #[verifier::type_invariant]
    spec fn inv(self) -> bool {
        tokens_below(self@)
    }

    /// No selector claimed; the first token is 1.
    pub fn new() -> (c: SelectorClaims)
        ensures
            c@.attached == Map::<i64, u64>::empty(),
            c@.next_token == 1,
    {
        broadcast use vstd::std_specs::hash::group_hash_axioms;
        let c = SelectorClaims { attached: HashMap::new(), next_token: 1 };
        c
    }

    /// Claim selector `id` for a new attach, returning its token.
    pub fn claim_selector(&mut self, id: i64) -> (token: u64)
        requires
            old(self)@.next_token < u64::MAX,
        ensures
            token == old(self)@.next_token,
            final(self)@.attached == old(self)@.attached.insert(id, token),
            final(self)@.next_token == token + 1,
            forall|t: u64| t < token ==> !claimed_by(final(self)@, id, t),
    {
        broadcast use vstd::std_specs::hash::group_hash_axioms;
        proof { use_type_invariant(&*self); }
        let token = self.next_token;
        let ghost old_att = self.attached@;
        assert(tokens_below(self@));
        assert forall|k: i64| #[trigger] old_att.contains_key(k) implies old_att[k] < token by {
            assert(self@.attached.contains_key(k));
        }
        let mut m: HashMap<i64, u64> = HashMap::new();
        std::mem::swap(&mut m, &mut self.attached);
        assert(m@ == old_att);
        m.insert(id, token);
        assert(m@ == old_att.insert(id, token));
        assert forall|k: i64| #[trigger] m@.contains_key(k) implies m@[k] < token + 1 by {
            if k != id {
                assert(old_att.contains_key(k));
                assert(m@[k] == old_att[k]);
            }
        }
        let mut replacement = SelectorClaims { attached: m, next_token: token + 1 };
        std::mem::swap(self, &mut replacement);
        token
    }

    /// Settle an attach once the event loop has answered: `id` is the selector
    /// it registered the connection under (negative when it refused), and
    /// `resolved` tells whether that selector resolves to the connection's
    /// state. On success the selector is claimed for the new attach and its
    /// token returned; otherwise nothing changes.
    pub fn settle_attach(&mut self, id: i64, resolved: bool) -> (r: Result<u64>)
        requires
            id >= 0 && resolved ==> old(self)@.next_token < u64::MAX,
        ensures
            r is Ok <==> id >= 0 && resolved,
            r matches Ok(token) ==> token == old(self)@.next_token && final(self)@.attached
                == old(self)@.attached.insert(id, token) && final(self)@.next_token == token + 1,
            r matches Err(e) ==> final(self)@ == old(self)@ && e.code == ErrorCode::Wire && e.message@
                == (if id < 0 {
                "Q: could not attach to the event loop"@
            } else {
                "Q: attached selector did not resolve"@
            }),
    {
        if id < 0 {
            return Err(RayError::new(ErrorCode::Wire, "Q: could not attach to the event loop"));
        }
        if !resolved {
            return Err(RayError::new(ErrorCode::Wire, "Q: attached selector did not resolve"));
        }
        Ok(self.claim_selector(id))
    }

    /// Selector `id` is still held by the attach that got `token`.
    pub fn selector_is_claimed_by(&self, id: i64, token: u64) -> (b: bool)
        ensures
            b == claimed_by(self@, id, token),
    {
        broadcast use vstd::std_specs::hash::group_hash_axioms;
        match self.attached.get(&id) {
            Some(t) => *t == token,
            None => false,
        }
    }

    /// Give up the claim of `token` on selector `id`, if it still holds it;
    /// a successor's claim on the same id is left alone.
    pub fn release_selector(&mut self, id: i64, token: u64)
        ensures
            final(self)@.attached == released(old(self)@, id, token),
            final(self)@.next_token == old(self)@.next_token,
    {
        broadcast use vstd::std_specs::hash::group_hash_axioms;
        proof { use_type_invariant(&*self); }
        if self.selector_is_claimed_by(id, token) {
            let next = self.next_token;
            let ghost old_att = self.attached@;
            let mut m: HashMap<i64, u64> = HashMap::new();
            std::mem::swap(&mut m, &mut self.attached);
            assert(m@ == old_att);
            m.remove(&id);
            assert(m@ == old_att.remove(id));
            assert forall|k: i64| #[trigger] m@.contains_key(k) implies m@[k] < next by {
                assert(old_att.contains_key(k));
            }
            let mut replacement = SelectorClaims { attached: m, next_token: next };
            std::mem::swap(self, &mut replacement);
        }
    }
}

/// A stale claim never matches again: once selector `id` is re-claimed, no
/// token handed out before the new one is held on it, and releasing the stale
/// token leaves the new claim in place.
pub proof fn law_stale_token_never_matches(before: ClaimsView, id: i64, stale: u64)
    requires
        tokens_below(before),
        stale < before.next_token,
        before.next_token < u64::MAX,
    ensures
        ({
            let after = ClaimsView {
                attached: before.attached.insert(id, before.next_token),
                next_token: (before.next_token + 1) as u64,
            };
            &&& !claimed_by(after, id, stale)
            &&& claimed_by(after, id, before.next_token)
            &&& tokens_below(after)
        }),
{
    let after = ClaimsView {
        attached: before.attached.insert(id, before.next_token),
        next_token: (before.next_token + 1) as u64,
    };
    assert forall|k: i64| #[trigger] after.attached.contains_key(k) implies after.attached[k] < after.next_token by {
        if k != id {
            assert(before.attached.contains_key(k));
        }
    }
}

/// A stale release spares its successor: when selector `id` is claimed twice,
/// the second token is the larger; releasing the first leaves the second's
/// claim in place, and releasing the second then removes the entry.
pub proof fn law_release_spares_successor(before: ClaimsView, id: i64)
    requires
        tokens_below(before),
        before.next_token < u64::MAX - 1,
    ensures
        ({
            let t1 = before.next_token;
            let first = claimed(before, id);
            let t2 = first.next_token;
            let second = claimed(first, id);
            let after_stale = ClaimsView { attached: released(second, id, t1), ..second };
            let after_own = ClaimsView { attached: released(after_stale, id, t2), ..after_stale };
            &&& t1 < t2
            &&& claimed_by(second, id, t2)
            &&& !claimed_by(second, id, t1)
            &&& claimed_by(after_stale, id, t2)
            &&& !claimed_by(after_own, id, t2)
            &&& !after_own.attached.contains_key(id)
        }),
{
}

/// The size field is the little-endian `u32` of header bytes 4..8: a message
/// of `size` bytes (more than a header) whose bytes 4..8 are
/// `size.to_le_bytes()` is a valid frame, whatever its body.
pub proof fn law_size_is_little_endian(msg: Seq<u8>, size: u32)
    requires
        msg.len() == size,
        size > 8,
        msg[4] == (size % 256) as u8,
        msg[5] == ((size / 256) % 256) as u8,
        msg[6] == ((size / 65536) % 256) as u8,
        msg[7] == (size / 16777216) as u8,
    ensures
        frame_size(msg) == size,
        frame_ok(msg),
{
    assert(size == (size % 256) + 256 * ((size / 256) % 256) + 65536 * ((size / 65536) % 256)
        + 16777216 * (size / 16777216)) by (bit_vector);
    assert(msg[4] as int == size % 256);
    assert(msg[5] as int == (size / 256) % 256);
    assert(msg[6] as int == (size / 65536) % 256);
    assert(msg[7] as int == size / 16777216);
}

/// A frame is refused when its header's little-endian size differs from its
/// length, and when it is no longer than the header.
pub proof fn law_size_mismatch_is_refused(msg: Seq<u8>, size: u32)
    requires
        msg.len() >= 8,
        msg[4] == (size % 256) as u8,
        msg[5] == ((size / 256) % 256) as u8,
        msg[6] == ((size / 65536) % 256) as u8,
        msg[7] == (size / 16777216) as u8,
    ensures
        size != msg.len() ==> !frame_ok(msg),
        msg.len() == 8 ==> !frame_ok(msg),
{
    assert(size == (size % 256) + 256 * ((size / 256) % 256) + 65536 * ((size / 65536) % 256)
        + 16777216 * (size / 16777216)) by (bit_vector);
    assert(frame_size(msg) == size);
}

} // verus!
