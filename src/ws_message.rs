//! The message type handed to downstream code, and its bytes.

use vstd::prelude::*;
use vstd::std_specs::cmp::PartialEqSpec;
use vstd::string::StrSliceExecFns;
use vstd::utf8::encode_utf8;

use web_sys::MessageEvent;

use crate::host::{event_data, read_payload};
use crate::js_msg_event::JsMsgEvtData;
use crate::payload::{bytes_equal, classified, classify, classify_owned, result_view, PayloadError, PayloadView, RawPayload, RawPayloadView};

verus! {

/// A message: its data is a string or binary.
#[derive(Debug, Clone, Eq, Hash)]
pub enum WsMessage {
    /// The data of the message is a string.
    Text(String),
    /// The message contains binary data.
    Binary(Vec<u8>),
}

impl View for WsMessage {
    type V = PayloadView;

    open spec fn view(&self) -> PayloadView {
        match self {
            WsMessage::Text(s) => PayloadView::Text(s@),
            WsMessage::Binary(b) => PayloadView::Binary(b@),
        }
    }
}

impl PartialEq for WsMessage {
    /// Equal when of the same variant with equal contents.
    fn eq(&self, other: &WsMessage) -> (r: bool) {
        match (self, other) {
            (WsMessage::Text(a), WsMessage::Text(b)) => a.eq(b),
            (WsMessage::Binary(a), WsMessage::Binary(b)) => bytes_equal(a, b),
            _ => false,
        }
    }
}

impl vstd::std_specs::cmp::PartialEqSpecImpl for WsMessage {
    open spec fn obeys_eq_spec() -> bool {
        true
    }

    open spec fn eq_spec(&self, other: &WsMessage) -> bool {
        self@ == other@
    }
}

/// The bytes of a payload: the UTF-8 encoding of a text, or the binary data
/// itself.
pub open spec fn payload_bytes(p: PayloadView) -> Seq<u8> {
    match p {
        PayloadView::Text(t) => encode_utf8(t),
        PayloadView::Binary(b) => b,
    }
}

impl WsMessage {
    /// The message that holds the same text or bytes as `d`.
    pub fn from_data(d: JsMsgEvtData) -> (r: WsMessage)
        ensures
            r@ == d@,
    {
        match d {
            JsMsgEvtData::Text(t) => WsMessage::Text(t),
            JsMsgEvtData::Binary(b) => WsMessage::Binary(b),
        }
    }

    /// Classifies a payload into a message, by the same rule as [`classify`].
    pub fn from_payload(raw: &RawPayload) -> (r: Result<WsMessage, PayloadError>)
        ensures
            result_view(r) == classified(raw@),
    {
        match classify(raw) {
            Ok(d) => Ok(WsMessage::from_data(d)),
            Err(e) => Err(e),
        }
    }

    /// Classifies the data of a host message event.
    ///
    /// What the host reports about the data is not known here; whatever it
    /// reports, the result is the classification of it.
    pub fn from_event(evt: &MessageEvent) -> (r: Result<WsMessage, PayloadError>)
        ensures
            exists|raw: RawPayloadView| #[trigger] classified(raw) == result_view(r),
    {
        let value = event_data(evt);
        let raw = read_payload(&value);
        let ghost content = raw@;
        let r = match classify_owned(raw) {
            Ok(d) => Ok(WsMessage::from_data(d)),
            Err(e) => Err(e),
        };
        assert(classified(content) == result_view(r));
        r
    }

    /// The bytes of the message: a text as UTF-8, binary data as it is.
    pub fn into_bytes(self) -> (r: Vec<u8>)
        ensures
            r@ == payload_bytes(self@),
    {
        match self {
            WsMessage::Text(s) => s.as_str().as_bytes_vec(),
            WsMessage::Binary(b) => b,
        }
    }
}

impl From<WsMessage> for Vec<u8> {
    /// The bytes of the message: a text as UTF-8, binary data as it is.
    fn from(msg: WsMessage) -> (r: Vec<u8>)
        ensures
            r@ == payload_bytes(msg@),
    {
        msg.into_bytes()
    }
}

impl vstd::std_specs::convert::FromSpecImpl<WsMessage> for Vec<u8> {
    /// A `Vec` is not determined by its contents alone: `from` states its
    /// result over views instead.
    open spec fn obeys_from_spec() -> bool {
        false
    }

    open spec fn from_spec(msg: WsMessage) -> Vec<u8> {
        vstd::pervasive::arbitrary()
    }
}

/// Two messages are equal exactly when they are of the same variant with
/// equal contents: a text never equals binary data, whatever its bytes.
pub proof fn lemma_message_equality(a: WsMessage, b: WsMessage)
    ensures
        a.eq_spec(&b) <==> match (a, b) {
            (WsMessage::Text(x), WsMessage::Text(y)) => x@ == y@,
            (WsMessage::Binary(x), WsMessage::Binary(y)) => x@ == y@,
            _ => false,
        },
{
}

/// Classifying a binary payload and taking the bytes of the result gives
/// back exactly the payload's bytes.
pub proof fn lemma_binary_bytes_round_trip(raw: RawPayloadView, bytes: Seq<u8>)
    requires
        raw.buffer == Some(bytes),
    ensures
        classified(raw) is Ok,
        payload_bytes(classified(raw)->Ok_0) == bytes,
{
}

} // verus!
