use ws_stream_wasm::{classify, classify_owned, JsMsgEvtData, PayloadError, RawPayload, WsMessage};

fn raw(buffer: Option<Vec<u8>>, text: Option<&str>, blob: bool) -> RawPayload {
    RawPayload { buffer, text: text.map(|t| t.to_string()), blob }
}

#[test]
fn binary_payload_is_copied() {
    let mut payload = raw(Some(vec![0x00, 0x01, 0xFF, 0x10]), None, false);
    let r = classify(&payload);
    assert_eq!(r, Ok(JsMsgEvtData::Binary(vec![0x00, 0x01, 0xFF, 0x10])));
    if let Some(b) = payload.buffer.as_mut() {
        b[0] = 0x7F;
        b.push(0x01);
    }
    assert_eq!(r, Ok(JsMsgEvtData::Binary(vec![0x00, 0x01, 0xFF, 0x10])));
}

#[test]
fn text_payload() {
    let r = classify(&raw(None, Some("hello"), false));
    assert_eq!(r, Ok(JsMsgEvtData::Text("hello".to_string())));
}

#[test]
fn blob_payload_is_unsupported() {
    let r = classify(&raw(None, None, true));
    assert_eq!(r, Err(PayloadError::UnsupportedShape));
    assert_ne!(r, Err(PayloadError::UnrecognizedShape));
}

#[test]
fn unknown_payload_is_unrecognized() {
    let r = classify(&raw(None, None, false));
    assert_eq!(r, Err(PayloadError::UnrecognizedShape));
}

#[test]
fn binary_takes_priority_over_text() {
    let r = classify(&raw(Some(vec![0x61]), Some("a"), true));
    assert_eq!(r, Ok(JsMsgEvtData::Binary(vec![0x61])));
}

#[test]
fn text_takes_priority_over_blob() {
    let r = classify(&raw(None, Some(""), true));
    assert_eq!(r, Ok(JsMsgEvtData::Text(String::new())));
}

#[test]
fn empty_buffer_is_binary() {
    let r = classify(&raw(Some(Vec::new()), None, false));
    assert_eq!(r, Ok(JsMsgEvtData::Binary(Vec::new())));
}

#[test]
fn data_equality_is_structural() {
    assert_eq!(JsMsgEvtData::Text("a".to_string()), JsMsgEvtData::Text("a".to_string()));
    assert_ne!(JsMsgEvtData::Text("a".to_string()), JsMsgEvtData::Text("b".to_string()));
    assert_ne!(JsMsgEvtData::Text("a".to_string()), JsMsgEvtData::Binary(vec![0x61]));
    assert_ne!(JsMsgEvtData::Binary(vec![0x61]), JsMsgEvtData::Text("a".to_string()));
    assert_eq!(JsMsgEvtData::Binary(vec![1, 2]), JsMsgEvtData::Binary(vec![1, 2]));
    assert_ne!(JsMsgEvtData::Binary(vec![1, 2]), JsMsgEvtData::Binary(vec![1, 3]));
    assert_ne!(JsMsgEvtData::Binary(vec![1, 2]), JsMsgEvtData::Binary(vec![1]));
}

#[test]
fn message_equality_is_structural() {
    assert_eq!(WsMessage::Text("a".to_string()), WsMessage::Text("a".to_string()));
    assert_ne!(WsMessage::Text("a".to_string()), WsMessage::Binary(vec![0x61]));
    assert_eq!(WsMessage::Binary(vec![0x61]), WsMessage::Binary(vec![0x61]));
    assert_ne!(WsMessage::Binary(vec![0x61]), WsMessage::Binary(vec![0x62]));
}

#[test]
fn message_from_payload() {
    let r = WsMessage::from_payload(&raw(Some(vec![0x00, 0x01, 0xFF, 0x10]), None, false));
    assert_eq!(r, Ok(WsMessage::Binary(vec![0x00, 0x01, 0xFF, 0x10])));
    let r = WsMessage::from_payload(&raw(None, Some("hello"), false));
    assert_eq!(r, Ok(WsMessage::Text("hello".to_string())));
    assert_eq!(WsMessage::from_payload(&raw(None, None, true)), Err(PayloadError::UnsupportedShape));
    assert_eq!(WsMessage::from_payload(&raw(None, None, false)), Err(PayloadError::UnrecognizedShape));
}

#[test]
fn message_bytes() {
    assert_eq!(WsMessage::Text("h\u{e9}".to_string()).into_bytes(), vec![0x68, 0xC3, 0xA9]);
    assert_eq!(WsMessage::Binary(vec![0xFF, 0x00]).into_bytes(), vec![0xFF, 0x00]);
    let v: Vec<u8> = Vec::from(WsMessage::Text("hi".to_string()));
    assert_eq!(v, vec![0x68, 0x69]);
    let v: Vec<u8> = WsMessage::Binary(vec![7, 8, 9]).into();
    assert_eq!(v, vec![7, 8, 9]);
}

#[test]
fn owned_classification_moves_contents() {
    let r = classify_owned(raw(Some(vec![0x00, 0x01, 0xFF, 0x10]), None, false));
    assert_eq!(r, Ok(JsMsgEvtData::Binary(vec![0x00, 0x01, 0xFF, 0x10])));
    let r = classify_owned(raw(None, Some("hello"), true));
    assert_eq!(r, Ok(JsMsgEvtData::Text("hello".to_string())));
    let r = classify_owned(raw(None, None, true));
    assert_eq!(r, Err(PayloadError::UnsupportedShape));
    let r = classify_owned(raw(None, None, false));
    assert_eq!(r, Err(PayloadError::UnrecognizedShape));
}

#[test]
fn text_and_binary_share_bytes_not_equality() {
    let text = WsMessage::Text("a".to_string());
    let binary = WsMessage::Binary(vec![0x61]);
    assert_ne!(text, binary);
    assert_eq!(Vec::<u8>::from(text), vec![0x61]);
    assert_eq!(Vec::<u8>::from(binary), vec![0x61]);
}

#[test]
fn binary_payload_bytes_round_trip() {
    let bytes = vec![0x00, 0x01, 0xFF, 0x10];
    let m = WsMessage::from_payload(&raw(Some(bytes.clone()), None, false)).unwrap();
    assert_eq!(Vec::<u8>::from(m), bytes);
}

#[test]
fn message_from_data_keeps_contents() {
    assert_eq!(WsMessage::from_data(JsMsgEvtData::Text("hi".to_string())), WsMessage::Text("hi".to_string()));
    assert_eq!(WsMessage::from_data(JsMsgEvtData::Binary(vec![1, 2])), WsMessage::Binary(vec![1, 2]));
}
