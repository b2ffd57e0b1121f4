//! Reading a host value: the few questions that the classifier needs
//! answered, put to the host through its bindings.

use vstd::prelude::*;

use js_sys::ArrayBuffer;
use wasm_bindgen::JsCast;
use wasm_bindgen::JsValue;
use web_sys::MessageEvent;

use crate::payload::RawPayload;

verus! {

#[verifier::external_type_specification]
#[verifier::external_body]
pub struct ExJsValue(JsValue);

#[verifier::external_type_specification]
#[verifier::external_body]
pub struct ExMessageEvent(MessageEvent);

#[verifier::external_type_specification]
#[verifier::external_body]
pub struct ExArrayBuffer(ArrayBuffer);

/// Relies on web_sys::MessageEvent's Clone: another handle to the same host
/// event.
pub assume_specification[ <MessageEvent as Clone>::clone ](evt: &MessageEvent) -> MessageEvent;

/// Relies on web_sys::MessageEvent::data: a handle to the event's data field.
#[verifier::external_body]
pub(crate) fn event_data(evt: &MessageEvent) -> JsValue {
    evt.data()
}

/// Relies on wasm_bindgen's JsCast::dyn_ref with js_sys::ArrayBuffer: the
/// value as a binary buffer, when it is one.
#[verifier::external_body]
fn as_array_buffer(v: &JsValue) -> Option<ArrayBuffer> {
    v.dyn_ref::<ArrayBuffer>().cloned()
}

/// Relies on js_sys::Reflect::construct, which catches what the constructor
/// throws, to build a js_sys::Uint8Array over the buffer, and on
/// Uint8Array::to_vec: a fresh copy of the buffer's bytes, or `None` where the
/// view cannot be built (a detached buffer).
#[verifier::external_body]
fn buffer_bytes(buf: &ArrayBuffer) -> Option<Vec<u8>> {
    let ctor = js_sys::Uint8Array::new_with_length(0).constructor();
    js_sys::Reflect::construct(&ctor, &js_sys::Array::of1(buf.as_ref()))
        .ok()
        .map(|view| view.unchecked_into::<js_sys::Uint8Array>().to_vec())
}

/// Relies on wasm_bindgen::JsValue::as_string: the text of a string value,
/// `None` for any other value and for a string that is not valid UTF-8.
#[verifier::external_body]
fn string_value(v: &JsValue) -> Option<String> {
    v.as_string()
}

/// Relies on wasm_bindgen's JsCast::is_instance_of with web_sys::Blob:
/// whether the value is a blob.
#[verifier::external_body]
fn is_blob(v: &JsValue) -> bool {
    v.is_instance_of::<web_sys::Blob>()
}

/// Reads what the classifier needs from a host value, each field from its
/// own question: the bytes of a buffer (empty where they cannot be
/// read, as for a detached buffer, whose storage is gone), the text of a
/// string, whether it is a blob.
///
/// A string that is not valid UTF-8 has no text here, so it is classified as
/// unrecognized.
pub fn read_payload(v: &JsValue) -> RawPayload {
    let buffer = match as_array_buffer(v) {
        Some(buf) => match buffer_bytes(&buf) {
            Some(bytes) => Some(bytes),
            None => Some(Vec::new()),
        },
        None => None,
    };
    RawPayload { buffer, text: string_value(v), blob: is_blob(v) }
}

} // verus!
