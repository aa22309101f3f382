//! Wire codec: one structured-text message per length-delimited frame.
//!
//! Outbound events and inbound judgments each have a fixed textual shape
//! (see the grammar spec functions below). Deserialization first checks that
//! a frame is well-formed text, then matches it against the schema,
//! reporting an encoding failure and a structural failure distinctly.

use crate::messages::{
    BisectError, DeserializationError, InboundMessage, MsgV, OutboundMessage, PayloadText,
    ProtocolError, wf_payload,
};
use vstd::prelude::*;
use vstd::string::{StrSliceExecFns, StringSliceAdditionalSpecFns};
use vstd::utf8::{
    decode_utf8, encode_utf8, encode_utf8_decode_utf8, encode_utf8_valid_utf8, is_ascii_chars,
    is_ascii_chars_encode_utf8, valid_utf8, valid_utf8_concat,
};

verus! {

/// Relies on `core::str::from_utf8`: it succeeds exactly on valid UTF-8 and
/// yields the decoded characters.
#[verifier::external_body]
pub(crate) fn utf8_to_string(bytes: &[u8]) -> (r: Option<String>)
    ensures
        r is Some <==> valid_utf8(bytes@),
        r matches Some(s) ==> s@ == decode_utf8(bytes@),
{
    match core::str::from_utf8(bytes) {
        Ok(s) => Some(s.to_owned()),
        Err(_) => None,
    }
}

/// The exact text of an inbound judgment frame.
pub open spec fn inbound_text(m: InboundMessage) -> Seq<char> {
    match m {
        InboundMessage::Good => "{\"type\":\"Good\"}"@,
        InboundMessage::Bad => "{\"type\":\"Bad\"}"@,
    }
}

/// The bytes of an inbound judgment frame.
pub open spec fn inbound_frame(m: InboundMessage) -> Seq<u8> {
    encode_utf8(inbound_text(m))
}

/// What deserializing an inbound frame yields: an encoding failure on bytes
/// that are not valid text, a judgment on exactly the two known shapes, and
/// a structural failure on any other text — never a silent default.
pub open spec fn parse_inbound(b: Seq<u8>) -> Result<InboundMessage, ProtocolError> {
    if !valid_utf8(b) {
        Err(ProtocolError::Deserialization(DeserializationError::Encoding))
    } else if decode_utf8(b) == inbound_text(InboundMessage::Good) {
        Ok(InboundMessage::Good)
    } else if decode_utf8(b) == inbound_text(InboundMessage::Bad) {
        Ok(InboundMessage::Bad)
    } else {
        Err(ProtocolError::Deserialization(DeserializationError::Schema))
    }
}

/// Serializes a judgment for the client side of the exchange.
pub fn serialize_inbound(m: &InboundMessage) -> (r: Vec<u8>)
    ensures
        r@ == inbound_frame(*m),
{
    match m {
        InboundMessage::Good => "{\"type\":\"Good\"}".as_bytes_vec(),
        InboundMessage::Bad => "{\"type\":\"Bad\"}".as_bytes_vec(),
    }
}

/// Turns one received frame into a judgment, distinguishing bytes that are
/// not valid text from text of the wrong shape.
pub fn deserialize(frame: &[u8]) -> (r: Result<InboundMessage, ProtocolError>)
    ensures
        r == parse_inbound(frame@),
{
    match utf8_to_string(frame) {
        None => Err(ProtocolError::Deserialization(DeserializationError::Encoding)),
        Some(s) => {
            if s == "{\"type\":\"Good\"}".to_owned() {
                Ok(InboundMessage::Good)
            } else if s == "{\"type\":\"Bad\"}".to_owned() {
                Ok(InboundMessage::Bad)
            } else {
                Err(ProtocolError::Deserialization(DeserializationError::Schema))
            }
        },
    }
}

/// Round trip on the inbound schema: deserializing a serialized judgment
/// yields that judgment back.
pub proof fn lemma_inbound_round_trip(m: InboundMessage)
    ensures
        parse_inbound(inbound_frame(m)) == Ok::<InboundMessage, ProtocolError>(m),
{
    reveal_strlit("{\"type\":\"Good\"}");
    reveal_strlit("{\"type\":\"Bad\"}");
    encode_utf8_valid_utf8(inbound_text(m));
    encode_utf8_decode_utf8(inbound_text(m));
    assert(inbound_text(InboundMessage::Good).len() == 15);
    assert(inbound_text(InboundMessage::Bad).len() == 14);
}

/// Bytes that are not valid text deserialize to an encoding failure; valid
/// text of an unknown shape deserializes to a structural failure.
pub proof fn lemma_malformed_inbound_rejected(b: Seq<u8>)
    ensures
        !valid_utf8(b) ==> parse_inbound(b) == Err::<InboundMessage, ProtocolError>(
            ProtocolError::Deserialization(DeserializationError::Encoding),
        ),
        valid_utf8(b) && (forall|m: InboundMessage| decode_utf8(b) != inbound_text(m))
            ==> parse_inbound(b) == Err::<InboundMessage, ProtocolError>(
            ProtocolError::Deserialization(DeserializationError::Schema),
        ),
{
}

/// Text standing before the quoted payload of a `Step` event frame.
pub open spec fn step_prefix() -> Seq<char> {
    "{\"type\":\"Step\",\"payload\":\""@
}

/// Text standing before the quoted payload of a `Finish` event frame.
pub open spec fn finish_prefix() -> Seq<char> {
    "{\"type\":\"Finish\",\"payload\":\""@
}

/// Text closing a frame that carries a quoted payload.
pub open spec fn frame_tail() -> Seq<char> {
    "\"}"@
}

/// The exact text of the subhandler error frame.
pub open spec fn error_text() -> Seq<char> {
    "{\"type\":\"Error\",\"reason\":\"RepoPathNotSet\"}"@
}

/// The bytes of an outbound event frame: the fixed skeleton with the
/// payload's text standing verbatim between the quotes.
pub open spec fn outbound_frame(m: MsgV) -> Seq<u8> {
    match m {
        MsgV::Step(p) => encode_utf8(step_prefix()) + p + encode_utf8(frame_tail()),
        MsgV::Error(_) => encode_utf8(error_text()),
        MsgV::Finish(p) => encode_utf8(finish_prefix()) + p + encode_utf8(frame_tail()),
    }
}

/// True when `b` is the given prefix, then a well-formed payload, then the
/// closing tail.
pub open spec fn is_wrapped_frame(b: Seq<u8>, prefix: Seq<char>) -> bool {
    let pre = encode_utf8(prefix);
    let tail = encode_utf8(frame_tail());
    &&& b.len() >= pre.len() + tail.len()
    &&& b.subrange(0, pre.len() as int) == pre
    &&& b.subrange(b.len() - tail.len(), b.len() as int) == tail
    &&& wf_payload(wrapped_payload(b, prefix))
}

/// The payload bytes between the prefix and the tail.
pub open spec fn wrapped_payload(b: Seq<u8>, prefix: Seq<char>) -> Seq<u8> {
    b.subrange(
        encode_utf8(prefix).len() as int,
        b.len() - encode_utf8(frame_tail()).len(),
    )
}

/// What deserializing a frame against the outbound schema yields; the same
/// two-stage discipline as on the inbound side.
pub open spec fn parse_outbound(b: Seq<u8>) -> Result<MsgV, ProtocolError> {
    if !valid_utf8(b) {
        Err(ProtocolError::Deserialization(DeserializationError::Encoding))
    } else if b == encode_utf8(error_text()) {
        Ok(MsgV::Error(BisectError::RepoPathNotSet))
    } else if is_wrapped_frame(b, step_prefix()) {
        Ok(MsgV::Step(wrapped_payload(b, step_prefix())))
    } else if is_wrapped_frame(b, finish_prefix()) {
        Ok(MsgV::Finish(wrapped_payload(b, finish_prefix())))
    } else {
        Err(ProtocolError::Deserialization(DeserializationError::Schema))
    }
}

/// Serializes one outbound event to its frame bytes.
pub fn serialize_outbound(m: &OutboundMessage) -> (r: Vec<u8>)
    ensures
        r@ == outbound_frame(m@),
{
    match m {
        OutboundMessage::Error(_) => "{\"type\":\"Error\",\"reason\":\"RepoPathNotSet\"}".as_bytes_vec(),
        OutboundMessage::Step(p) => wrap_payload_frame(
            "{\"type\":\"Step\",\"payload\":\"".as_bytes_vec(),
            p,
        ),
        OutboundMessage::Finish(p) => wrap_payload_frame(
            "{\"type\":\"Finish\",\"payload\":\"".as_bytes_vec(),
            p,
        ),
    }
}

/// Appends the payload and the closing tail to an already-serialized prefix.
fn wrap_payload_frame(prefix: Vec<u8>, p: &PayloadText) -> (r: Vec<u8>)
    ensures
        r@ == prefix@ + p@ + encode_utf8(frame_tail()),
{
    let mut out = prefix;
    let ghost pre = out@;
    let payload = p.bytes();
    let mut i: usize = 0;
    while i < payload.len()
        invariant
            0 <= i <= payload@.len(),
            payload@ == p@,
            out@ == pre + p@.subrange(0, i as int),
        decreases payload@.len() - i,
    {
        out.push(payload[i]);
        i += 1;
        proof {
            assert(out@ =~= pre + p@.subrange(0, i as int));
        }
    }
    let mut tail = "\"}".as_bytes_vec();
    out.append(&mut tail);
    proof {
        assert(p@.subrange(0, p@.len() as int) =~= p@);
        assert(out@ =~= pre + p@ + encode_utf8(frame_tail()));
    }
    out
}

/// True exactly when the two byte strings are equal.
fn bytes_eq(a: &[u8], b: &[u8]) -> (r: bool)
    ensures
        r == (a@ == b@),
{
    if a.len() != b.len() {
        proof {
            assert(a@.len() != b@.len());
        }
        return false;
    }
    let mut i: usize = 0;
    while i < a.len()
        invariant
            0 <= i <= a@.len(),
            a@.len() == b@.len(),
            forall|j: int| 0 <= j < i ==> a@[j] == b@[j],
        decreases a@.len() - i,
    {
        if a[i] != b[i] {
            return false;
        }
        i += 1;
    }
    proof {
        assert(a@ =~= b@);
    }
    true
}

/// Copies `b[from..to]` out as an owned byte vector.
fn copy_range(b: &[u8], from: usize, to: usize) -> (r: Vec<u8>)
    requires
        from <= to <= b@.len(),
    ensures
        r@ == b@.subrange(from as int, to as int),
{
    let mut out: Vec<u8> = Vec::new();
    let mut i: usize = from;
    while i < to
        invariant
            from <= i <= to <= b@.len(),
            out@ == b@.subrange(from as int, i as int),
        decreases to - i,
    {
        out.push(b[i]);
        i += 1;
        proof {
            assert(out@ =~= b@.subrange(from as int, i as int));
        }
    }
    out
}

/// True exactly when the bytes satisfy `wf_payload`.
fn payload_ok(mid: &Vec<u8>) -> (r: bool)
    ensures
        r == wf_payload(mid@),
{
    let mut i: usize = 0;
    while i < mid.len()
        invariant
            0 <= i <= mid@.len(),
            forall|j: int|
                0 <= j < i ==> (#[trigger] mid@[j]) != 0x22 && mid@[j] != 0x5c && mid@[j]
                    >= 0x20,
        decreases mid@.len() - i,
    {
        let x = mid[i];
        if x == 0x22 || x == 0x5c || x < 0x20 {
            return false;
        }
        i += 1;
    }
    utf8_to_string(mid.as_slice()).is_some()
}

/// Tries to read `frame` as prefix + payload + tail; yields the payload.
fn parse_wrapped(frame: &[u8], prefix: &Vec<u8>, ghost_prefix: Ghost<Seq<char>>) -> (r: Option<
    PayloadText,
>)
    requires
        prefix@ == encode_utf8(ghost_prefix@),
    ensures
        r is Some <==> is_wrapped_frame(frame@, ghost_prefix@),
        r matches Some(p) ==> p@ == wrapped_payload(frame@, ghost_prefix@),
{
    let tail = "\"}".as_bytes_vec();
    if frame.len() < prefix.len() || frame.len() - prefix.len() < tail.len() {
        return None;
    }
    let head = copy_range(frame, 0, prefix.len());
    if !bytes_eq(head.as_slice(), prefix.as_slice()) {
        return None;
    }
    let tl = copy_range(frame, frame.len() - tail.len(), frame.len());
    if !bytes_eq(tl.as_slice(), tail.as_slice()) {
        return None;
    }
    let mid = copy_range(frame, prefix.len(), frame.len() - tail.len());
    if !payload_ok(&mid) {
        return None;
    }
    Some(PayloadText::wrap(mid))
}

/// Turns one received frame into an outbound event, for the client side of
/// the exchange; the same error discipline as `deserialize`.
pub fn deserialize_outbound(frame: &[u8]) -> (r: Result<OutboundMessage, ProtocolError>)
    ensures
        r is Ok <==> parse_outbound(frame@) is Ok,
        r matches Ok(m) ==> parse_outbound(frame@) == Ok::<MsgV, ProtocolError>(m@),
        r matches Err(e) ==> parse_outbound(frame@) == Err::<MsgV, ProtocolError>(e),
{
    if utf8_to_string(frame).is_none() {
        return Err(ProtocolError::Deserialization(DeserializationError::Encoding));
    }
    let err_frame = "{\"type\":\"Error\",\"reason\":\"RepoPathNotSet\"}".as_bytes_vec();
    if bytes_eq(frame, err_frame.as_slice()) {
        return Ok(OutboundMessage::Error(BisectError::RepoPathNotSet));
    }
    let step_pre = "{\"type\":\"Step\",\"payload\":\"".as_bytes_vec();
    match parse_wrapped(frame, &step_pre, Ghost(step_prefix())) {
        Some(p) => Ok(OutboundMessage::Step(p)),
        None => {
            let finish_pre = "{\"type\":\"Finish\",\"payload\":\"".as_bytes_vec();
            match parse_wrapped(frame, &finish_pre, Ghost(finish_prefix())) {
                Some(p) => Ok(OutboundMessage::Finish(p)),
                None => Err(ProtocolError::Deserialization(DeserializationError::Schema)),
            }
        },
    }
}

/// The prefixes and the error text are ASCII, are pairwise distinguishable
/// at character nine, and encode byte-for-byte.
proof fn lemma_skeleton_facts()
    ensures
        is_ascii_chars(step_prefix()),
        is_ascii_chars(finish_prefix()),
        is_ascii_chars(error_text()),
        step_prefix().len() == 26,
        finish_prefix().len() == 28,
        error_text().len() == 42,
        frame_tail().len() == 2,
        step_prefix()[9] == 'S',
        finish_prefix()[9] == 'F',
        error_text()[9] == 'E',
        valid_utf8(encode_utf8(step_prefix())),
        valid_utf8(encode_utf8(finish_prefix())),
        valid_utf8(encode_utf8(error_text())),
        valid_utf8(encode_utf8(frame_tail())),
        encode_utf8(step_prefix()).len() == 26,
        encode_utf8(finish_prefix()).len() == 28,
        encode_utf8(error_text()).len() == 42,
        encode_utf8(frame_tail()).len() == 2,
        encode_utf8(step_prefix())[9] == 'S' as u8,
        encode_utf8(finish_prefix())[9] == 'F' as u8,
        encode_utf8(error_text())[9] == 'E' as u8,
{
    reveal_strlit("{\"type\":\"Step\",\"payload\":\"");
    reveal_strlit("{\"type\":\"Finish\",\"payload\":\"");
    reveal_strlit("{\"type\":\"Error\",\"reason\":\"RepoPathNotSet\"}");
    reveal_strlit("\"}");
    encode_utf8_valid_utf8(step_prefix());
    encode_utf8_valid_utf8(finish_prefix());
    encode_utf8_valid_utf8(error_text());
    encode_utf8_valid_utf8(frame_tail());
    is_ascii_chars_encode_utf8(step_prefix());
    is_ascii_chars_encode_utf8(finish_prefix());
    is_ascii_chars_encode_utf8(error_text());
    is_ascii_chars_encode_utf8(frame_tail());
}

/// Round trip on the outbound schema: deserializing a serialized event
/// yields that event back, for every constructible event value.
pub proof fn lemma_outbound_round_trip(m: MsgV)
    requires
        m matches MsgV::Step(p) ==> wf_payload(p),
        m matches MsgV::Finish(p) ==> wf_payload(p),
    ensures
        parse_outbound(outbound_frame(m)) == Ok::<MsgV, ProtocolError>(m),
{
    lemma_skeleton_facts();
    match m {
        MsgV::Error(_) => {
        },
        MsgV::Step(p) => {
            let pre = encode_utf8(step_prefix());
            let tl = encode_utf8(frame_tail());
            let b = outbound_frame(m);
            valid_utf8_concat(pre, p);
            valid_utf8_concat(pre + p, tl);
            assert(b =~= (pre + p) + tl);
            assert(b[9] == 'S' as u8);
            assert(b != encode_utf8(error_text()));
            assert(b.subrange(0, 26) =~= pre);
            assert(b.subrange(b.len() - 2, b.len() as int) =~= tl);
            assert(wrapped_payload(b, step_prefix()) =~= p);
            assert(is_wrapped_frame(b, step_prefix()));
        },
        MsgV::Finish(p) => {
            let pre = encode_utf8(finish_prefix());
            let tl = encode_utf8(frame_tail());
            let b = outbound_frame(m);
            valid_utf8_concat(pre, p);
            valid_utf8_concat(pre + p, tl);
            assert(b =~= (pre + p) + tl);
            assert(b[9] == 'F' as u8);
            assert(b != encode_utf8(error_text()));
            assert(!is_wrapped_frame(b, step_prefix())) by {
                if is_wrapped_frame(b, step_prefix()) {
                    assert(b.subrange(0, 26)[9] == b[9]);
                    assert(encode_utf8(step_prefix())[9] == 'S' as u8);
                }
            }
            assert(b.subrange(0, 28) =~= pre);
            assert(b.subrange(b.len() - 2, b.len() as int) =~= tl);
            assert(wrapped_payload(b, finish_prefix()) =~= p);
            assert(is_wrapped_frame(b, finish_prefix()));
        },
    }
}

/// Whatever parses against the outbound schema is a genuine frame: there is
/// no silent default. Malformed bytes fail with the encoding reason, and
/// well-formed text of the wrong shape with the structural reason.
pub proof fn lemma_outbound_parse_sound(b: Seq<u8>)
    ensures
        parse_outbound(b) matches Ok(m) ==> b == outbound_frame(m),
        !valid_utf8(b) ==> parse_outbound(b) == Err::<MsgV, ProtocolError>(
            ProtocolError::Deserialization(DeserializationError::Encoding),
        ),
        parse_outbound(b) matches Err(e) ==> e is Deserialization,
{
    lemma_skeleton_facts();
    if valid_utf8(b) {
        if b == encode_utf8(error_text()) {
        } else if is_wrapped_frame(b, step_prefix()) {
            let pre = encode_utf8(step_prefix());
            let tl = encode_utf8(frame_tail());
            let p = wrapped_payload(b, step_prefix());
            assert(b =~= pre + p + tl);
        } else if is_wrapped_frame(b, finish_prefix()) {
            let pre = encode_utf8(finish_prefix());
            let tl = encode_utf8(frame_tail());
            let p = wrapped_payload(b, finish_prefix());
            assert(b =~= pre + p + tl);
        }
    }
}

/// The protocol version announced by the handshake.
pub const PROTOCOL_VERSION_MAJOR: u64 = 0;

/// The protocol version announced by the handshake.
pub const PROTOCOL_VERSION_MINOR: u64 = 1;

/// The protocol version announced by the handshake.
pub const PROTOCOL_VERSION_PATCH: u64 = 0;

/// Text standing before the quoted version of the handshake frame.
pub open spec fn hello_prefix() -> Seq<char> {
    "{\"type\":\"Hello\",\"version\":\""@
}

/// The decimal digits of `n`, most significant first.
pub open spec fn dec_digits(n: nat) -> Seq<u8>
    decreases n,
{
    if n < 10 {
        seq![(0x30 + n) as u8]
    } else {
        dec_digits(n / 10).push((0x30 + n % 10) as u8)
    }
}

/// The bytes of the handshake frame carrying the server's protocol version.
pub open spec fn hello_frame(major: u64, minor: u64, patch: u64) -> Seq<u8> {
    encode_utf8(hello_prefix()) + dec_digits(major as nat) + seq![0x2eu8] + dec_digits(
        minor as nat,
    ) + seq![0x2eu8] + dec_digits(patch as nat) + encode_utf8(frame_tail())
}

/// Appends the decimal rendering of `n`.
fn push_dec(out: &mut Vec<u8>, n: u64)
    ensures
        final(out)@ == old(out)@ + dec_digits(n as nat),
    decreases n,
{
    if n >= 10 {
        push_dec(out, n / 10);
    }
    out.push(0x30 + (n % 10) as u8);
    proof {
        if n >= 10 {
            assert(out@ =~= old(out)@ + dec_digits(n as nat));
        } else {
            assert(out@ =~= old(out)@ + dec_digits(n as nat));
        }
    }
}

/// Serializes the handshake event sent once, right after accept.
pub fn serialize_hello(major: u64, minor: u64, patch: u64) -> (r: Vec<u8>)
    ensures
        r@ == hello_frame(major, minor, patch),
{
    let mut out = "{\"type\":\"Hello\",\"version\":\"".as_bytes_vec();
    push_dec(&mut out, major);
    out.push(0x2e);
    push_dec(&mut out, minor);
    out.push(0x2e);
    push_dec(&mut out, patch);
    let mut tail = "\"}".as_bytes_vec();
    out.append(&mut tail);
    proof {
        assert(out@ =~= hello_frame(major, minor, patch));
    }
    out
}

} // verus!
