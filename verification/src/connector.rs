//! The transport connector: the fixed endpoint and control payloads, the
//! frames that carry them, and the order of the steps that open a session.
//!
//! Opening the connection is network work and stays with the caller. What is
//! decided here is which step comes next, what is sent in it, and that the
//! first failure ends the attempt with its cause.

use std::fmt::Debug;
use vstd::prelude::*;
use vstd::string::StrSliceExecFns;
use vstd::utf8::{decode_utf8, encode_utf8, encode_utf8_decode_utf8, valid_utf8};

verus! {

/// The endpoint of the feed.
pub const WEBSOCKET: &'static str = "wss://ws-feed.gdax.com";

/// The payload that subscribes to the channel.
pub const SUBSCRIBE: &'static str = r#"{"type":"subscribe","product_id":"BTC-USD"}"#;

/// The payload that switches heartbeats on.
pub const HEARTBEAT: &'static str = r#"{"type":"heartbeat","on":true}"#;

/// The text of an error, for diagnostics.
///
/// Trusted: the body is `format!` with the `{:?}` directive, so the text is
/// whatever the value's `Debug` impl writes. Nothing is claimed of it.
#[verifier::external_body]
pub fn err2str<D: Debug>(err: &D) -> String {
    format!("{:?}", err)
}

/// The type tag of a transport frame.
#[derive(Debug, Clone, Copy, PartialEq, Eq, Structural)]
pub enum Opcode {
    Continuation,
    Text,
    Binary,
    NonControl1,
    NonControl2,
    NonControl3,
    NonControl4,
    NonControl5,
    Close,
    Ping,
    Pong,
    Control1,
    Control2,
    Control3,
    Control4,
    Control5,
}

/// A transport frame with its payload unmasked.
#[derive(Debug, Clone, PartialEq)]
pub struct DataFrame {
    /// Whether this frame ends a message.
    pub finished: bool,
    /// The three reserved bits.
    pub reserved: [bool; 3],
    /// The type tag.
    pub opcode: Opcode,
    /// The payload.
    pub data: Vec<u8>,
}

impl DataFrame {
    /// Whether the frame is a single unfragmented text frame, with no reserved
    /// bit set, whose payload is the UTF-8 encoding of `payload`.
    pub open spec fn carries(self, payload: Seq<char>) -> bool {
        &&& self.finished
        &&& !self.reserved[0] && !self.reserved[1] && !self.reserved[2]
        &&& self.opcode == Opcode::Text
        &&& self.data@ == encode_utf8(payload)
    }

    /// The text of the frame: its payload decoded, where its tag is text and
    /// its payload is valid UTF-8.
    pub open spec fn text(self) -> Option<Seq<char>> {
        if self.opcode == Opcode::Text && valid_utf8(self.data@) {
            Some(decode_utf8(self.data@))
        } else {
            None
        }
    }
}

/// A byte slice as text, where it is valid UTF-8.
///
/// Trusted: calls `std::str::from_utf8`, which returns the same bytes as a
/// string slice exactly when they are valid UTF-8, and an error otherwise.
#[verifier::external_body]
fn checked_text(bytes: &[u8]) -> (r: Option<&str>)
    ensures
        r is Some <==> valid_utf8(bytes@),
        r matches Some(text) ==> encode_utf8(text@) == bytes@,
{
    std::str::from_utf8(bytes).ok()
}

/// Borrows the payload of a text frame as a string slice.
///
/// Succeeds exactly on a frame whose tag is text and whose payload is valid
/// UTF-8; the text is then the payload, byte for byte. Every other frame is
/// refused.
pub fn df2txt<'a>(df: &'a DataFrame) -> (r: Result<&'a str, ()>)
    ensures
        r is Ok <==> df.text() is Some,
        r matches Ok(text) ==> Some(text@) == df.text() && encode_utf8(text@) == df.data@,
{
    match df.opcode {
        Opcode::Text => {},
        _ => {
            return Err(());
        },
    }
    match checked_text(df.data.as_slice()) {
        Some(text) => {
            proof {
                encode_utf8_decode_utf8(text@);
            }
            Ok(text)
        },
        None => Err(()),
    }
}

/// A step of opening a session, in the order in which the steps are taken.
#[derive(Debug, Clone, Copy, PartialEq, Eq, Structural)]
pub enum ConnectStage {
    /// Establish the secure context.
    SecureContext,
    /// Parse the endpoint, [`WEBSOCKET`].
    ParseUrl,
    /// Open the connection and build the upgrade request.
    OpenRequest,
    /// Send the upgrade request and read the response.
    SendRequest,
    /// Validate the response.
    ValidateResponse,
    /// Make the streaming client from the validated response.
    BeginClient,
    /// Send the frame that carries [`HEARTBEAT`].
    EnableHeartbeat,
    /// Send the frame that carries [`SUBSCRIBE`].
    Subscribe,
    /// Every step has succeeded: the session can be read.
    Ready,
}

impl ConnectStage {
    /// The stage that follows this one when it succeeds.
    pub open spec fn next(self) -> ConnectStage {
        match self {
            ConnectStage::SecureContext => ConnectStage::ParseUrl,
            ConnectStage::ParseUrl => ConnectStage::OpenRequest,
            ConnectStage::OpenRequest => ConnectStage::SendRequest,
            ConnectStage::SendRequest => ConnectStage::ValidateResponse,
            ConnectStage::ValidateResponse => ConnectStage::BeginClient,
            ConnectStage::BeginClient => ConnectStage::EnableHeartbeat,
            ConnectStage::EnableHeartbeat => ConnectStage::Subscribe,
            ConnectStage::Subscribe => ConnectStage::Ready,
            ConnectStage::Ready => ConnectStage::Ready,
        }
    }

    /// The stage reached after `steps` steps have succeeded.
    pub open spec fn after(steps: nat) -> ConnectStage
        decreases steps,
    {
        if steps == 0 {
            ConnectStage::SecureContext
        } else {
            Self::after((steps - 1) as nat).next()
        }
    }

    /// The payload of the control frame that a stage sends, if it sends one.
    pub open spec fn payload(self) -> Option<Seq<char>> {
        match self {
            ConnectStage::EnableHeartbeat => Some(HEARTBEAT@),
            ConnectStage::Subscribe => Some(SUBSCRIBE@),
            _ => None,
        }
    }

    /// The stage that every attempt starts with.
    pub fn first() -> (stage: ConnectStage)
        ensures
            stage == ConnectStage::after(0),
    {
        ConnectStage::SecureContext
    }

    /// The control frame to send in this stage: the heartbeat request in
    /// `EnableHeartbeat`, the subscription in `Subscribe`, none in any other.
    pub fn control_frame(self) -> (frame: Option<DataFrame>)
        ensures
            frame is Some <==> self.payload() is Some,
            frame matches Some(df) ==> df.carries(self.payload()->0),
    {
        let payload = match self {
            ConnectStage::EnableHeartbeat => HEARTBEAT,
            ConnectStage::Subscribe => SUBSCRIBE,
            _ => {
                return None;
            },
        };
        Some(
            DataFrame {
                finished: true,
                reserved: [false, false, false],
                opcode: Opcode::Text,
                data: payload.as_bytes_vec(),
            },
        )
    }

    /// The session is ready exactly when all eight steps have succeeded, and
    /// the two control frames are the last two of them, the heartbeat request
    /// before the subscription.
    pub proof fn ready_after_every_step(steps: nat)
        ensures
            Self::after(steps) is Ready <==> steps >= 8,
            Self::after(6) == ConnectStage::EnableHeartbeat,
            Self::after(7) == ConnectStage::Subscribe,
        decreases steps,
    {
        reveal_with_fuel(ConnectStage::after, 9);
        if steps > 8 {
            Self::ready_after_every_step((steps - 1) as nat);
        }
    }
}

/// Decides how an attempt to open a session goes on.
///
/// `stage` is the step that was just taken and `outcome` how it ended. A
/// failure ends the attempt with its cause, whatever the step. A success
/// leads to the next step in order, and after the subscription to `Ready`.
/// So `Ready` is reached only through the success of the subscription, which
/// is only reached through the success of the heartbeat request.
pub fn connect_gdax(stage: ConnectStage, outcome: Result<(), String>) -> (r: Result<
    ConnectStage,
    String,
>)
    ensures
        match outcome {
            Ok(_) => r == Ok::<ConnectStage, String>(stage.next()),
            Err(cause) => r == Err::<ConnectStage, String>(cause),
        },
        r == Ok::<ConnectStage, String>(ConnectStage::Ready) ==> stage is Subscribe || stage is Ready,
{
    match outcome {
        Err(cause) => Err(cause),
        Ok(_) => Ok(
            match stage {
                ConnectStage::SecureContext => ConnectStage::ParseUrl,
                ConnectStage::ParseUrl => ConnectStage::OpenRequest,
                ConnectStage::OpenRequest => ConnectStage::SendRequest,
                ConnectStage::SendRequest => ConnectStage::ValidateResponse,
                ConnectStage::ValidateResponse => ConnectStage::BeginClient,
                ConnectStage::BeginClient => ConnectStage::EnableHeartbeat,
                ConnectStage::EnableHeartbeat => ConnectStage::Subscribe,
                ConnectStage::Subscribe => ConnectStage::Ready,
                ConnectStage::Ready => ConnectStage::Ready,
            },
        ),
    }
}

} // verus!
