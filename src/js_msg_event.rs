//! A message event from the host, and the typed data it carries.

use vstd::prelude::*;
use vstd::std_specs::cmp::PartialEqSpec;

use web_sys::MessageEvent;

use crate::host::{event_data, read_payload};
use crate::payload::{bytes_equal, classified, classify_owned, result_view, PayloadError, PayloadView, RawPayloadView};

verus! {

/// A host message event, kept as the host handed it over.
#[derive(Debug, Clone)]
pub struct JsMsgEvent {
    /// The wrapped host event.
    pub msg_evt: MessageEvent,
}

impl JsMsgEvent {
    /// The data contained by the message, classified.
    ///
    /// What the host reports about the data is not known here; whatever it
    /// reports, the result is the classification of it.
    pub fn data(&self) -> (r: Result<JsMsgEvtData, PayloadError>)
        ensures
            exists|raw: RawPayloadView| #[trigger] classified(raw) == result_view(r),
    {
        let value = event_data(&self.msg_evt);
        let raw = read_payload(&value);
        let ghost content = raw@;
        let r = classify_owned(raw);
        assert(classified(content) == result_view(r));
        r
    }
}

/// The data contained in a message event: a string or binary.
#[derive(Debug, Clone, Eq, Hash)]
pub enum JsMsgEvtData {
    /// The data of the message is a string.
    Text(String),
    /// The message contains binary data.
    Binary(Vec<u8>),
}

impl View for JsMsgEvtData {
    type V = PayloadView;

    open spec fn view(&self) -> PayloadView {
        match self {
            JsMsgEvtData::Text(s) => PayloadView::Text(s@),
            JsMsgEvtData::Binary(b) => PayloadView::Binary(b@),
        }
    }
}

impl PartialEq for JsMsgEvtData {
    /// Equal when of the same variant with equal contents.
    fn eq(&self, other: &JsMsgEvtData) -> (r: bool) {
        match (self, other) {
            (JsMsgEvtData::Text(a), JsMsgEvtData::Text(b)) => a.eq(b),
            (JsMsgEvtData::Binary(a), JsMsgEvtData::Binary(b)) => bytes_equal(a, b),
            _ => false,
        }
    }
}

impl vstd::std_specs::cmp::PartialEqSpecImpl for JsMsgEvtData {
    open spec fn obeys_eq_spec() -> bool {
        true
    }

    open spec fn eq_spec(&self, other: &JsMsgEvtData) -> bool {
        self@ == other@
    }
}

/// Two messages are equal exactly when they are of the same variant with
/// equal contents: a text never equals binary data, whatever its bytes.
pub proof fn lemma_data_equality(a: JsMsgEvtData, b: JsMsgEvtData)
    ensures
        a.eq_spec(&b) <==> match (a, b) {
            (JsMsgEvtData::Text(x), JsMsgEvtData::Text(y)) => x@ == y@,
            (JsMsgEvtData::Binary(x), JsMsgEvtData::Binary(y)) => x@ == y@,
            _ => false,
        },
{
}

} // verus!
