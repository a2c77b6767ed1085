use twrs_sms::{DecodeError, Field, JsonValue, TWRSError, TwilioReply, UriMap};

fn sample() -> String {
    "{\"sid\": \"XXXX\", \"date_created\": \"Wed, 22 Jan 2020 15:23:30 +0000\", \"date_updated\": \"Wed, 22 Jan 2020 15:23:30 +0000\", \"date_sent\": null, \"account_sid\": \"ACXXXX\", \"to\": \"+11234567890\", \"from\": \"+10987654321\", \"messaging_service_sid\": null, \"body\": \"Sent from your Twilio trial account - Hiya\", \"status\": \"queued\", \"num_segments\": \"1\", \"num_media\": \"0\", \"direction\": \"outbound-api\", \"api_version\": \"2010-04-01\", \"price\": null, \"price_unit\": \"USD\", \"error_code\": null, \"error_message\": null, \"uri\": \"/2010-04-01/Accounts/ACXXXX/Messages/XXXX.json\", \"subresource_uris\": {\"media\": \"/2010-04-01/Accounts/ACXXXX/Messages/XXXX/Media.json\"}}".to_string()
}

fn expected_sample() -> TwilioReply {
    let mut uris = UriMap::new();
    uris.insert(
        "media".to_string(),
        "/2010-04-01/Accounts/ACXXXX/Messages/XXXX/Media.json".to_string(),
    );
    TwilioReply {
        sid: "XXXX".to_string(),
        date_created: "Wed, 22 Jan 2020 15:23:30 +0000".to_string(),
        date_updated: "Wed, 22 Jan 2020 15:23:30 +0000".to_string(),
        date_sent: None,
        account_sid: "ACXXXX".to_string(),
        to: "+11234567890".to_string(),
        from: "+10987654321".to_string(),
        messaging_service_sid: None,
        body: "Sent from your Twilio trial account - Hiya".to_string(),
        status: "queued".to_string(),
        num_segments: "1".to_string(),
        num_media: "0".to_string(),
        direction: "outbound-api".to_string(),
        api_version: "2010-04-01".to_string(),
        price: None,
        price_unit: "USD".to_string(),
        error_code: None,
        error_message: None,
        uri: "/2010-04-01/Accounts/ACXXXX/Messages/XXXX.json".to_string(),
        subresource_uris: uris,
    }
}

fn render(value: &JsonValue) -> String {
    match value {
        JsonValue::Null => "null".to_string(),
        JsonValue::Bool(b) => format!("{}", b),
        JsonValue::Number(n) => n.clone(),
        JsonValue::Text(t) => format!("\"{}\"", t),
        JsonValue::Array(items) => {
            let parts: Vec<String> = items.iter().map(render).collect();
            format!("[{}]", parts.join(", "))
        }
        JsonValue::Object(members) => {
            let parts: Vec<String> =
                members.iter().map(|(k, v)| format!("\"{}\": {}", k, render(v))).collect();
            format!("{{{}}}", parts.join(", "))
        }
    }
}

/// A document with one member taken out or replaced: `with` is the text of
/// the member that stands in its place, or nothing.
fn replace_member(doc: &str, name: &str, with: Option<&str>) -> String {
    let members = match JsonValue::parse(doc).expect("the document is JSON") {
        JsonValue::Object(members) => members,
        _ => unreachable!(),
    };
    let mut parts: Vec<String> = Vec::new();
    for (key, value) in members.iter() {
        if key != name {
            parts.push(format!("\"{}\": {}", key, render(value)));
        }
    }
    if let Some(text) = with {
        parts.push(format!("\"{}\": {}", name, text));
    }
    format!("{{{}}}", parts.join(", "))
}

fn sample_with(name: &str, with: Option<&str>) -> String {
    replace_member(&sample(), name, with)
}

#[test]
fn test_decoding() {
    let d = sample();

    let t_r = TwilioReply::decode_str(&d).expect("Error decoding reply");

    let expected: TwilioReply = expected_sample();

    assert_eq!(t_r, expected);
}

#[test]
fn null_members_decode_to_absent() {
    let reply = TwilioReply::decode_str(&sample()).expect("the sample decodes");
    assert_eq!(reply.date_sent, None);
    assert_eq!(reply.messaging_service_sid, None);
    assert_eq!(reply.price, None);
    assert_eq!(reply.error_code, None);
    assert_eq!(reply.error_message, None);
    assert_eq!(reply.sid, "XXXX");
    assert_eq!(reply.status, "queued");
    assert_eq!(reply.uri, "/2010-04-01/Accounts/ACXXXX/Messages/XXXX.json");
}

#[test]
fn sample_has_exactly_one_link() {
    let reply = TwilioReply::decode_str(&sample()).expect("the sample decodes");
    assert_eq!(reply.subresource_uris.len(), 1);
    assert_eq!(
        reply.subresource_uris.get("media"),
        Some(&"/2010-04-01/Accounts/ACXXXX/Messages/XXXX/Media.json".to_string())
    );
    assert_eq!(reply.subresource_uris.get("feedback"), None);
}

#[test]
fn decoding_twice_gives_equal_replies() {
    let text = sample();
    let first = TwilioReply::decode_str(&text).expect("the sample decodes");
    let second = TwilioReply::decode_str(&text).expect("the sample decodes");
    assert_eq!(first, second);
}

#[test]
fn decoding_from_bytes_agrees_with_decoding_from_text() {
    let text = sample();
    let from_bytes = TwilioReply::decode(text.as_bytes()).expect("the sample decodes");
    assert_eq!(from_bytes, expected_sample());
}

#[test]
fn optional_members_may_be_left_out() {
    let mut text = sample();
    for name in ["date_sent", "messaging_service_sid", "price", "error_code", "error_message"] {
        text = replace_member(&text, name, None);
    }
    let reply = TwilioReply::decode_str(&text).expect("optional members may be absent");
    assert_eq!(reply, expected_sample());
}

#[test]
fn optional_members_that_are_set_are_kept() {
    let mut text = sample_with("date_sent", Some("\"Wed, 22 Jan 2020 15:23:31 +0000\""));
    text = replace_member(&text, "price", Some("\"-0.00750\""));
    text = replace_member(&text, "error_code", Some("\"30007\""));
    text = replace_member(&text, "error_message", Some("\"Carrier violation\""));
    text = replace_member(&text, "messaging_service_sid", Some("\"MGXXXX\""));
    let reply = TwilioReply::decode_str(&text).expect("the document decodes");
    assert_eq!(reply.date_sent, Some("Wed, 22 Jan 2020 15:23:31 +0000".to_string()));
    assert_eq!(reply.price, Some("-0.00750".to_string()));
    assert_eq!(reply.error_code, Some("30007".to_string()));
    assert_eq!(reply.error_message, Some("Carrier violation".to_string()));
    assert_eq!(reply.messaging_service_sid, Some("MGXXXX".to_string()));
    assert_ne!(reply, expected_sample());
}

#[test]
fn unknown_members_are_passed_over() {
    let mut text = sample_with("tags", Some("{\"campaign\": [1, 2.5, true, null]}"));
    text = replace_member(&text, "num_retries", Some("3"));
    let reply = TwilioReply::decode_str(&text).expect("unknown members do no harm");
    assert_eq!(reply, expected_sample());
}

#[test]
fn every_required_member_is_missed() {
    let required = [
        ("sid", Field::Sid),
        ("date_created", Field::DateCreated),
        ("date_updated", Field::DateUpdated),
        ("account_sid", Field::AccountSid),
        ("to", Field::To),
        ("from", Field::From),
        ("body", Field::Body),
        ("status", Field::Status),
        ("num_segments", Field::NumSegments),
        ("num_media", Field::NumMedia),
        ("direction", Field::Direction),
        ("api_version", Field::ApiVersion),
        ("price_unit", Field::PriceUnit),
        ("uri", Field::Uri),
        ("subresource_uris", Field::SubresourceUris),
    ];
    for (name, field) in required {
        let text = sample_with(name, None);
        match TwilioReply::decode_str(&text) {
            Err(DecodeError::MissingField(f)) => assert_eq!(f, field),
            other => panic!("{}: {:?}", name, other),
        }
    }
}

#[test]
fn a_required_member_must_be_a_string() {
    for with in ["null", "5", "true", "[\"queued\"]", "{\"is\": \"queued\"}"] {
        let text = sample_with("status", Some(with));
        match TwilioReply::decode_str(&text) {
            Err(DecodeError::MismatchedField(f)) => assert_eq!(f, Field::Status),
            other => panic!("{}: {:?}", with, other),
        }
    }
}

#[test]
fn an_optional_member_must_be_a_string_or_null() {
    for with in ["5", "false", "[]", "{}"] {
        let text = sample_with("price", Some(with));
        match TwilioReply::decode_str(&text) {
            Err(DecodeError::MismatchedField(f)) => assert_eq!(f, Field::Price),
            other => panic!("{}: {:?}", with, other),
        }
    }
}

#[test]
fn the_links_must_be_an_object_of_strings() {
    for with in ["null", "\"media\"", "[]", "{\"media\": 1}", "{\"a\": \"/a\", \"b\": null}"] {
        let text = sample_with("subresource_uris", Some(with));
        match TwilioReply::decode_str(&text) {
            Err(DecodeError::MismatchedField(f)) => assert_eq!(f, Field::SubresourceUris),
            other => panic!("{}: {:?}", with, other),
        }
    }
}

#[test]
fn the_links_may_be_none_or_many() {
    let none = sample_with("subresource_uris", Some("{}"));
    let reply = TwilioReply::decode_str(&none).expect("the document decodes");
    assert_eq!(reply.subresource_uris.len(), 0);

    let many = sample_with(
        "subresource_uris",
        Some("{\"media\": \"/m\", \"feedback\": \"/f\", \"media\": \"/m2\"}"),
    );
    let reply = TwilioReply::decode_str(&many).expect("the document decodes");
    assert_eq!(reply.subresource_uris.len(), 2);
    assert_eq!(reply.subresource_uris.get("media"), Some(&"/m2".to_string()));
    assert_eq!(reply.subresource_uris.get("feedback"), Some(&"/f".to_string()));
}

#[test]
fn the_first_ill_fitting_member_is_reported() {
    let text = replace_member(&sample_with("status", Some("7")), "sid", None);
    assert!(matches!(
        TwilioReply::decode_str(&text),
        Err(DecodeError::MissingField(Field::Sid))
    ));
    let text = replace_member(&sample_with("uri", None), "body", Some("null"));
    assert!(matches!(
        TwilioReply::decode_str(&text),
        Err(DecodeError::MismatchedField(Field::Body))
    ));
}

#[test]
fn a_repeated_member_counts_once_the_last_time() {
    let text = sample_with("status", Some("\"delivered\""));
    assert!(text.matches("\"status\"").count() == 1);
    let twice = format!("{{\"status\": \"sent\", {}", &text[1..]);
    let reply = TwilioReply::decode_str(&twice).expect("the document decodes");
    assert_eq!(reply.status, "delivered");
}

#[test]
fn text_that_is_not_json_does_not_decode() {
    for text in ["", "not json", "{", "{\"sid\": }", "{\"sid\": \"XXXX\"} trailing", "<html></html>"] {
        assert!(
            matches!(TwilioReply::decode_str(text), Err(DecodeError::Syntax(_))),
            "{}",
            text
        );
    }
}

#[test]
fn json_that_is_no_object_does_not_decode() {
    for text in ["null", "true", "12", "\"queued\"", "[]", "[{\"sid\": \"XXXX\"}]"] {
        assert!(
            matches!(TwilioReply::decode_str(text), Err(DecodeError::NotAnObject)),
            "{}",
            text
        );
    }
}

#[test]
fn bytes_that_are_not_utf8_do_not_decode() {
    let mut bytes = sample().into_bytes();
    bytes[10] = 0xff;
    assert!(matches!(
        TwilioReply::decode(&bytes),
        Err(TWRSError::URLDecodeFailure(DecodeError::InvalidUtf8))
    ));
    assert!(matches!(
        TwilioReply::decode(&[0xc3]),
        Err(TWRSError::URLDecodeFailure(DecodeError::InvalidUtf8))
    ));
}

#[test]
fn decode_wraps_the_errors_of_decode_str() {
    assert!(matches!(
        TwilioReply::decode(b"{"),
        Err(TWRSError::URLDecodeFailure(DecodeError::Syntax(_)))
    ));
    assert!(matches!(
        TwilioReply::decode(b"[]"),
        Err(TWRSError::URLDecodeFailure(DecodeError::NotAnObject))
    ));
    assert!(matches!(
        TwilioReply::decode(b"{}"),
        Err(TWRSError::URLDecodeFailure(DecodeError::MissingField(Field::Sid)))
    ));
}

#[test]
fn replies_differ_where_one_member_differs() {
    let base = expected_sample();
    let mut other = expected_sample();
    other.status = "sent".to_string();
    assert_ne!(base, other);

    let mut other = expected_sample();
    other.price = Some("USD".to_string());
    assert_ne!(base, other);

    let mut other = expected_sample();
    other.subresource_uris.insert("media".to_string(), "/elsewhere".to_string());
    assert_ne!(base, other);

    let mut other = expected_sample();
    other.subresource_uris.insert("feedback".to_string(), "/f".to_string());
    assert_ne!(base, other);
}

#[test]
fn a_document_built_by_hand_decodes_like_its_text() {
    let doc = JsonValue::parse(&sample()).expect("the sample is JSON");
    let reply = TwilioReply::from_document(&doc).expect("the sample decodes");
    assert_eq!(reply, expected_sample());

    let members = match doc {
        JsonValue::Object(members) => members,
        _ => unreachable!(),
    };
    let mut shuffled: Vec<(String, JsonValue)> = members.into_iter().rev().collect();
    shuffled.insert(0, ("status".to_string(), JsonValue::Number("7".to_string())));
    shuffled.push(("extra".to_string(), JsonValue::Array(vec![JsonValue::Bool(true)])));
    let reply = TwilioReply::from_document(&JsonValue::Object(shuffled))
        .expect("order does not count, and the last entry under a key does");
    assert_eq!(reply, expected_sample());
}

#[test]
fn text_outside_ascii_survives_decoding() {
    let text = sample_with("body", Some("\"gr\u{fc}\u{df}e \u{2603} \u{1F600} \\u00e9\""));
    let reply = TwilioReply::decode(text.as_bytes()).expect("the document decodes");
    assert_eq!(reply.body, "gr\u{fc}\u{df}e \u{2603} \u{1F600} \u{e9}");
    assert_eq!(reply.body.chars().count(), 11);
}
