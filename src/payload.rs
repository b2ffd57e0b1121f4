//! The shapes that a message event's data can take, and the rule that
//! decides between them.

use vstd::prelude::*;

use crate::js_msg_event::JsMsgEvtData;

verus! {

/// What the host reported about a message event's data field.
///
/// A host value may answer more than one of these questions at once: the
/// classifier settles that by priority, binary first.
pub struct RawPayload {
    /// The bytes of the payload, when it is a binary buffer.
    pub buffer: Option<Vec<u8>>,
    /// The text of the payload, when it is a string.
    pub text: Option<String>,
    /// Whether the payload is a blob, whose contents can only be read later.
    pub blob: bool,
}

/// The mathematical content of a [`RawPayload`].
pub struct RawPayloadView {
    pub buffer: Option<Seq<u8>>,
    pub text: Option<Seq<char>>,
    pub blob: bool,
}

impl View for RawPayload {
    type V = RawPayloadView;

    open spec fn view(&self) -> RawPayloadView {
        RawPayloadView {
            buffer: match self.buffer {
                Some(b) => Some(b@),
                None => None,
            },
            text: match self.text {
                Some(t) => Some(t@),
                None => None,
            },
            blob: self.blob,
        }
    }
}

/// The content of a typed payload: text or bytes, never both.
pub enum PayloadView {
    Text(Seq<char>),
    Binary(Seq<u8>),
}

/// Why a payload could not be classified.
#[derive(Clone, Copy, Debug, PartialEq, Eq, Structural, Hash)]
pub enum PayloadError {
    /// The payload is a blob: a known shape that is not handled.
    UnsupportedShape,
    /// The payload is none of the known shapes.
    UnrecognizedShape,
}

/// The outcome of classifying a payload whose content is `raw`.
pub open spec fn classified(raw: RawPayloadView) -> Result<PayloadView, PayloadError> {
    match raw.buffer {
        Some(bytes) => Ok(PayloadView::Binary(bytes)),
        None => match raw.text {
            Some(t) => Ok(PayloadView::Text(t)),
            None => if raw.blob {
                Err(PayloadError::UnsupportedShape)
            } else {
                Err(PayloadError::UnrecognizedShape)
            },
        },
    }
}

/// The content of a classification result.
pub open spec fn result_view<T: View<V = PayloadView>>(r: Result<T, PayloadError>) -> Result<
    PayloadView,
    PayloadError,
> {
    match r {
        Ok(d) => Ok(d@),
        Err(e) => Err(e),
    }
}

/// A fresh copy of `bytes`, sharing nothing with it.
pub fn copy_bytes(bytes: &Vec<u8>) -> (r: Vec<u8>)
    ensures
        r@ == bytes@,
{
    let mut out: Vec<u8> = Vec::with_capacity(bytes.len());
    let mut i: usize = 0;
    while i < bytes.len()
        invariant
            i <= bytes@.len(),
            out@ == bytes@.subrange(0, i as int),
        decreases bytes@.len() - i,
    {
        out.push(bytes[i]);
        i = i + 1;
    }
    assert(out@ =~= bytes@);
    out
}

/// Whether two byte sequences are the same.
pub fn bytes_equal(a: &Vec<u8>, b: &Vec<u8>) -> (r: bool)
    ensures
        r == (a@ == b@),
{
    if a.len() != b.len() {
        return false;
    }
    let mut i: usize = 0;
    while i < a.len()
        invariant
            i <= a@.len(),
            a@.len() == b@.len(),
            a@.subrange(0, i as int) == b@.subrange(0, i as int),
        decreases a@.len() - i,
    {
        if a[i] != b[i] {
            assert(a@[i as int] != b@[i as int]);
            return false;
        }
        assert(a@.subrange(0, i + 1) =~= a@.subrange(0, i as int).push(a@[i as int]));
        assert(b@.subrange(0, i + 1) =~= b@.subrange(0, i as int).push(b@[i as int]));
        i = i + 1;
    }
    assert(a@ =~= a@.subrange(0, i as int));
    assert(b@ =~= b@.subrange(0, i as int));
    true
}

/// Classifies a payload: a buffer gives `Binary` with a copy of its bytes, else
/// a string gives `Text`, else a blob is `UnsupportedShape`, and anything else
/// is `UnrecognizedShape`.
pub fn classify(raw: &RawPayload) -> (r: Result<JsMsgEvtData, PayloadError>)
    ensures
        result_view(r) == classified(raw@),
{
    // Copy only what the classification keeps.
    let owned = match &raw.buffer {
        Some(bytes) => RawPayload { buffer: Some(copy_bytes(bytes)), text: None, blob: raw.blob },
        None => RawPayload {
            buffer: None,
            text: match &raw.text {
                Some(t) => Some(t.clone()),
                None => None,
            },
            blob: raw.blob,
        },
    };
    assert(classified(owned@) == classified(raw@));
    classify_owned(owned)
}

/// Classifies a payload by the same rule as [`classify`], moving its text or
/// bytes into the result instead of copying them.
pub fn classify_owned(raw: RawPayload) -> (r: Result<JsMsgEvtData, PayloadError>)
    ensures
        result_view(r) == classified(raw@),
{
    match raw.buffer {
        Some(bytes) => Ok(JsMsgEvtData::Binary(bytes)),
        None => match raw.text {
            Some(t) => Ok(JsMsgEvtData::Text(t)),
            None => if raw.blob {
                Err(PayloadError::UnsupportedShape)
            } else {
                Err(PayloadError::UnrecognizedShape)
            },
        },
    }
}

/// A binary payload is classified as binary data holding exactly its bytes,
/// whatever else the host reported about it.
pub proof fn lemma_binary_payload(raw: RawPayloadView, bytes: Seq<u8>)
    requires
        raw.buffer == Some(bytes),
    ensures
        classified(raw) == Ok::<PayloadView, PayloadError>(PayloadView::Binary(bytes)),
{
}

/// A textual payload that is not a buffer is classified as that text.
pub proof fn lemma_text_payload(raw: RawPayloadView, t: Seq<char>)
    requires
        raw.buffer is None,
        raw.text == Some(t),
    ensures
        classified(raw) == Ok::<PayloadView, PayloadError>(PayloadView::Text(t)),
{
}

/// A blob that is neither a buffer nor a string is reported as an
/// unsupported shape, never as an unrecognized one.
pub proof fn lemma_blob_payload(raw: RawPayloadView)
    requires
        raw.buffer is None,
        raw.text is None,
        raw.blob,
    ensures
        classified(raw) == Err::<PayloadView, PayloadError>(PayloadError::UnsupportedShape),
        classified(raw) != Err::<PayloadView, PayloadError>(PayloadError::UnrecognizedShape),
{
}

} // verus!
