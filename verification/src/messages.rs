//! Protocol values: inbound judgments, outbound events, and the two-layer
//! error taxonomy shared by every subprotocol built on this transport core.

use vstd::prelude::*;
use vstd::utf8::{encode_utf8, encode_utf8_valid_utf8, valid_utf8};

verus! {

/// A client's judgment about the current bisection point.
#[derive(Clone, Copy, PartialEq, Eq, Structural, Debug)]
pub enum InboundMessage {
    Bad,
    Good,
}

/// Why a received frame could not be turned into a message: the bytes were
/// not valid text, or they were text of the wrong shape.
#[derive(Clone, Copy, PartialEq, Eq, Structural, Debug)]
pub enum DeserializationError {
    Encoding,
    Schema,
}

/// Why an external process run yielded no usable output.
#[derive(Clone, Copy, PartialEq, Eq, Structural, Debug)]
pub enum ProcessError {
    /// Spawn failure or non-zero exit.
    Failed,
    /// Captured output was not valid text.
    Encoding,
    /// Captured output was text of an unexpected shape.
    Parsing,
}

/// Errors meaningful to any subprotocol on this core; each one ends the
/// session abnormally, with no further protocol message.
#[derive(Clone, Copy, PartialEq, Eq, Structural, Debug)]
pub enum ProtocolError {
    TcpSend,
    TcpReceive,
    Deserialization(DeserializationError),
    Process(ProcessError),
}

/// Error specific to the bisection subprotocol; reported to the client as a
/// structured message, after which the session ends normally.
#[derive(Clone, Copy, PartialEq, Eq, Structural, Debug)]
pub enum BisectError {
    RepoPathNotSet,
}

/// Two-layer error union: a shared kind terminates the session abnormally,
/// while a subhandler kind is delivered to the client and ends the session
/// normally. Generic so other subprotocols can reuse the shared arm.
#[derive(Clone, Copy, PartialEq, Eq, Structural, Debug)]
pub enum SubhandlerError<E> {
    Shared(ProtocolError),
    Subhandler(E),
}

/// True of payload bytes that may stand verbatim inside a quoted string of a
/// frame: valid text with no quote, no backslash, and no control byte, so no
/// escaping is ever needed on the wire.
pub open spec fn wf_payload(b: Seq<u8>) -> bool {
    &&& valid_utf8(b)
    &&& forall|i: int|
        0 <= i < b.len() ==> (#[trigger] b[i]) != 0x22 && b[i] != 0x5c && b[i] >= 0x20
}

/// Opaque textual payload of a `Step` or `Finish` event, as produced by the
/// external output parser. Held as text bytes that need no escaping.
#[derive(PartialEq, Eq, Debug)]
pub struct PayloadText {
    bytes: Vec<u8>,
}

impl View for PayloadText {
    type V = Seq<u8>;

    closed spec fn view(&self) -> Seq<u8> {
        self.bytes@
    }
}

impl PayloadText {
    #[verifier::type_invariant]
    closed spec fn inv(self) -> bool {
        wf_payload(self.bytes@)
    }

    /// Accepts exactly the texts whose bytes may stand unescaped in a frame.
    pub fn from_str(s: &str) -> (r: Option<PayloadText>)
        ensures
            r is Some <==> wf_payload(encode_utf8(s@)),
            r matches Some(p) ==> p@ == encode_utf8(s@),
    {
        let bytes = s.as_bytes_vec();
        proof {
            encode_utf8_valid_utf8(s@);
        }
        let mut i: usize = 0;
        while i < bytes.len()
            invariant
                0 <= i <= bytes.len(),
                bytes@ == encode_utf8(s@),
                forall|j: int|
                    0 <= j < i ==> (#[trigger] bytes@[j]) != 0x22 && bytes@[j] != 0x5c
                        && bytes@[j] >= 0x20,
            decreases bytes.len() - i,
        {
            let b = bytes[i];
            if b == 0x22 || b == 0x5c || b < 0x20 {
                return None;
            }
            i += 1;
        }
        Some(PayloadText { bytes })
    }

    /// Wraps bytes already known to need no escaping.
    pub(crate) fn wrap(bytes: Vec<u8>) -> (r: PayloadText)
        requires
            wf_payload(bytes@),
        ensures
            r@ == bytes@,
    {
        PayloadText { bytes }
    }

    /// The payload's text bytes.
    pub fn bytes(&self) -> (r: &Vec<u8>)
        ensures
            r@ == self@,
    {
        &self.bytes
    }

}

/// Spec-level value of an outbound event: the payload reduced to its bytes.
pub enum MsgV {
    Step(Seq<u8>),
    Error(BisectError),
    Finish(Seq<u8>),
}

/// One outbound protocol event of the bisection session. Exactly one is sent
/// per loop iteration's outcome; `Finish` is terminal.
#[derive(PartialEq, Eq, Debug)]
pub enum OutboundMessage {
    Step(PayloadText),
    Error(BisectError),
    Finish(PayloadText),
}

impl View for OutboundMessage {
    type V = MsgV;

    open spec fn view(&self) -> MsgV {
        match self {
            OutboundMessage::Step(p) => MsgV::Step(p@),
            OutboundMessage::Error(e) => MsgV::Error(*e),
            OutboundMessage::Finish(p) => MsgV::Finish(p@),
        }
    }
}

/// A session may only dispatch on a configured repository path; its absence
/// is the subhandler error `RepoPathNotSet`, never a crash.
pub fn verify_repo_path(repo_path: Option<String>) -> (r: Result<
    String,
    SubhandlerError<BisectError>,
>)
    ensures
        r is Ok <==> repo_path is Some,
        r matches Ok(p) ==> p@ == repo_path.unwrap()@,
        r matches Err(e) ==> e == SubhandlerError::<BisectError>::Subhandler(
            BisectError::RepoPathNotSet,
        ),
{
    match repo_path {
        Some(p) => Ok(p),
        None => Err(SubhandlerError::Subhandler(BisectError::RepoPathNotSet)),
    }
}

} // verus!
