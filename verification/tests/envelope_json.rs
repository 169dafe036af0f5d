use can_bridge::envelope::{assemble_envelope, encode_envelope, ClientEnvelope, EncodeError};

fn envelope(sequence: u64, data: Option<&str>, notice: Option<&str>) -> ClientEnvelope {
    ClientEnvelope {
        sequence,
        service_url: String::from("http://10.0.0.1:3000"),
        data: data.map(String::from),
        notice: notice.map(String::from),
    }
}

#[test]
fn envelope_with_a_notice_has_null_data() {
    let text = encode_envelope(&envelope(0, None, Some("missing CAN device"))).unwrap();
    assert_eq!(
        text,
        "{\"sequence\":0,\"serviceUrl\":\"http://10.0.0.1:3000\",\"data\":null,\"notice\":\"missing CAN device\"}"
    );
}

#[test]
fn envelope_with_data_has_a_null_notice() {
    let text = encode_envelope(&envelope(7, Some("1a3#deadbeef"), None)).unwrap();
    assert_eq!(
        text,
        "{\"sequence\":7,\"serviceUrl\":\"http://10.0.0.1:3000\",\"data\":\"1a3#deadbeef\",\"notice\":null}"
    );
}

#[test]
fn envelope_without_data_and_notice_has_two_nulls() {
    let text = encode_envelope(&envelope(3, None, None)).unwrap();
    assert_eq!(
        text,
        "{\"sequence\":3,\"serviceUrl\":\"http://10.0.0.1:3000\",\"data\":null,\"notice\":null}"
    );
}

#[test]
fn envelope_with_data_and_notice_has_both() {
    let text = encode_envelope(&envelope(4, Some("1#00"), Some("note"))).unwrap();
    assert_eq!(
        text,
        "{\"sequence\":4,\"serviceUrl\":\"http://10.0.0.1:3000\",\"data\":\"1#00\",\"notice\":\"note\"}"
    );
}

#[test]
fn envelope_writes_the_sequence_in_decimal() {
    let text = encode_envelope(&envelope(u64::MAX, None, None)).unwrap();
    assert!(text.starts_with("{\"sequence\":18446744073709551615,\"serviceUrl\":"));
    let text = encode_envelope(&envelope(1000, None, None)).unwrap();
    assert!(text.starts_with("{\"sequence\":1000,"));
}

#[test]
fn envelope_escapes_its_texts() {
    let text = encode_envelope(&ClientEnvelope {
        sequence: 1,
        service_url: String::from("a\"b"),
        data: Some(String::from("back\\slash")),
        notice: Some(String::from("line\nbreak\ttab\u{1}")),
    })
    .unwrap();
    assert_eq!(
        text,
        "{\"sequence\":1,\"serviceUrl\":\"a\\\"b\",\"data\":\"back\\\\slash\",\"notice\":\"line\\nbreak\\ttab\\u0001\"}"
    );
}

#[test]
fn envelope_keeps_characters_outside_ascii() {
    let text = encode_envelope(&envelope(2, None, Some("Ger\u{e4}t fehlt \u{2013} \u{1f697}"))).unwrap();
    assert_eq!(
        text,
        "{\"sequence\":2,\"serviceUrl\":\"http://10.0.0.1:3000\",\"data\":null,\"notice\":\"Ger\u{e4}t fehlt \u{2013} \u{1f697}\"}"
    );
}

#[test]
fn envelope_is_read_back_by_a_json_parser() {
    let written = ClientEnvelope {
        sequence: 42,
        service_url: String::from("http://[::1]:3000/\"quoted\""),
        data: Some(String::from("1a3#deadbeef")),
        notice: Some(String::from("tab\there, quote\" and \\ and \u{7f} and \u{0}")),
    };
    let text = encode_envelope(&written).unwrap();
    let value: serde_json::Value = serde_json::from_str(&text).unwrap();
    let object = value.as_object().unwrap();
    assert_eq!(object.len(), 4);
    assert_eq!(object.get("sequence").unwrap().as_u64(), Some(42));
    assert_eq!(object.get("serviceUrl").unwrap().as_str(), Some(written.service_url.as_str()));
    assert_eq!(object.get("data").unwrap().as_str(), written.data.as_deref());
    assert_eq!(object.get("notice").unwrap().as_str(), written.notice.as_deref());
}

#[test]
fn envelope_with_absent_texts_is_read_back_with_nulls() {
    let text = encode_envelope(&envelope(5, None, None)).unwrap();
    let value: serde_json::Value = serde_json::from_str(&text).unwrap();
    let object = value.as_object().unwrap();
    assert_eq!(object.len(), 4);
    assert!(object.get("data").unwrap().is_null());
    assert!(object.get("notice").unwrap().is_null());
    assert_eq!(object.get("sequence").unwrap().as_u64(), Some(5));
}

#[test]
fn envelope_text_agrees_with_serde_json_on_each_string() {
    let notice = "a \"b\" \\ c \u{8} \u{c} \r\n";
    let text = encode_envelope(&envelope(9, None, Some(notice))).unwrap();
    let expected = format!(
        "{{\"sequence\":9,\"serviceUrl\":{},\"data\":null,\"notice\":{}}}",
        serde_json::to_string("http://10.0.0.1:3000").unwrap(),
        serde_json::to_string(notice).unwrap()
    );
    assert_eq!(text, expected);
}

fn written(json: &str) -> Result<String, serde_json::Error> {
    Ok(String::from(json))
}

fn refused() -> Result<String, serde_json::Error> {
    Err(serde_json::from_str::<serde_json::Value>("{").unwrap_err())
}

#[test]
fn assemble_puts_the_members_in_order() {
    let text = assemble_envelope(12, written("\"u\""), Some(written("\"d\"")), Some(written("\"n\"")));
    assert_eq!(
        text,
        Ok(String::from("{\"sequence\":12,\"serviceUrl\":\"u\",\"data\":\"d\",\"notice\":\"n\"}"))
    );
}

#[test]
fn assemble_writes_null_for_what_is_absent() {
    assert_eq!(
        assemble_envelope(0, written("\"u\""), None, None).unwrap(),
        "{\"sequence\":0,\"serviceUrl\":\"u\",\"data\":null,\"notice\":null}"
    );
    assert_eq!(
        assemble_envelope(0, written("\"u\""), Some(written("\"d\"")), None).unwrap(),
        "{\"sequence\":0,\"serviceUrl\":\"u\",\"data\":\"d\",\"notice\":null}"
    );
    assert_eq!(
        assemble_envelope(0, written("\"u\""), None, Some(written("\"n\""))).unwrap(),
        "{\"sequence\":0,\"serviceUrl\":\"u\",\"data\":null,\"notice\":\"n\"}"
    );
}

#[test]
fn assemble_takes_its_values_as_they_are() {
    assert_eq!(
        assemble_envelope(1, written("1"), Some(written("[]")), Some(written("{}"))).unwrap(),
        "{\"sequence\":1,\"serviceUrl\":1,\"data\":[],\"notice\":{}}"
    );
}

#[test]
fn assemble_fails_when_a_text_was_refused() {
    assert_eq!(assemble_envelope(1, refused(), None, None), Err(EncodeError));
    assert_eq!(assemble_envelope(1, written("\"u\""), Some(refused()), None), Err(EncodeError));
    assert_eq!(assemble_envelope(1, written("\"u\""), None, Some(refused())), Err(EncodeError));
    assert_eq!(
        assemble_envelope(1, written("\"u\""), Some(written("\"d\"")), Some(refused())),
        Err(EncodeError)
    );
    assert_eq!(
        assemble_envelope(1, refused(), Some(refused()), Some(refused())),
        Err(EncodeError)
    );
}

#[test]
fn a_copy_of_an_envelope_is_equal_to_it() {
    let written = envelope(3, Some("1#00"), None);
    let copy = written.clone();
    assert_eq!(copy, written);
    assert_eq!(copy.sequence, 3);
    assert_eq!(copy.data.as_deref(), Some("1#00"));
    assert_eq!(copy.notice, None);
    let written = envelope(4, None, Some("n"));
    assert_eq!(written.clone(), written);
}
