use twrs_sms::{
    fetch_request, send_request, DecodeError, Field, Method, TWRSError, TwilioSend,
};

#[test]
fn the_send_request_posts_the_form_to_the_account() {
    let request = send_request("ACXXXX", "SECRET", "Body=Hiya&From=a&To=b".to_string());
    assert_eq!(request.method, Method::Post);
    assert_eq!(request.url, "https://api.twilio.com/2010-04-01/Accounts/ACXXXX/Messages.json");
    assert_eq!(request.username, "ACXXXX");
    assert_eq!(request.password, "SECRET");
    assert_eq!(request.content_type, Some("application/x-www-form-urlencoded".to_string()));
    assert_eq!(request.body, Some("Body=Hiya&From=a&To=b".to_string()));
}

#[test]
fn the_send_request_takes_the_account_as_it_stands() {
    let request = send_request("", "", String::new());
    assert_eq!(request.url, "https://api.twilio.com/2010-04-01/Accounts//Messages.json");
    assert_eq!(request.username, "");
    assert_eq!(request.password, "");
    assert_eq!(request.body, Some(String::new()));
}

#[test]
fn an_encoded_message_is_the_body_of_the_send_request() {
    let message = TwilioSend { Body: "Hello, world!", From: "+11234567890", To: "+10987654321" };
    let body = message.encode().expect("plain text encodes");
    let request = send_request("ACXXXX", "SECRET", body);
    assert_eq!(
        request.body,
        Some("Body=Hello%2C+world%21&From=%2B11234567890&To=%2B10987654321".to_string())
    );
}

#[test]
fn the_fetch_request_gets_the_url_with_the_same_credentials() {
    let request = fetch_request("https://api.twilio.com//x.json", "ACXXXX", "SECRET");
    assert_eq!(request.method, Method::Get);
    assert_eq!(request.url, "https://api.twilio.com//x.json");
    assert_eq!(request.username, "ACXXXX");
    assert_eq!(request.password, "SECRET");
    assert_eq!(request.content_type, None);
    assert_eq!(request.body, None);
}

#[test]
fn every_error_has_its_message() {
    assert_eq!(
        TWRSError::NotDelivered("failed".to_string()).message(),
        "Error message not delivered: failed"
    );
    assert_eq!(
        TWRSError::HTTPRequestError("connection reset".to_string()).message(),
        "Error while sending HTTP POST: connection reset"
    );
    assert_eq!(
        TWRSError::URLEncodeFailure(serde_urlencoded::ser::Error::Custom("unsupported value".into()))
            .message(),
        "Error while serializing URL to encoded string: unsupported value"
    );
    assert_eq!(
        TWRSError::URLDecodeFailure(DecodeError::MissingField(Field::Status)).message(),
        "Error while serializing URL to encoded string: missing field `status`"
    );
}

#[test]
fn every_decoding_error_has_its_message() {
    assert_eq!(DecodeError::InvalidUtf8.message(), "response is not valid UTF-8");
    assert_eq!(DecodeError::NotAnObject.message(), "response is not a JSON object");
    assert_eq!(DecodeError::MissingField(Field::Sid).message(), "missing field `sid`");
    assert_eq!(
        DecodeError::MismatchedField(Field::SubresourceUris).message(),
        "invalid type for field `subresource_uris`"
    );
    let cause = serde_json::from_str::<serde_json::Value>("{\"sid\": }").unwrap_err();
    let report = cause.to_string();
    assert_eq!(DecodeError::Syntax(cause).message(), report);
    assert_eq!(report, "expected value at line 1 column 9");
}

#[test]
fn every_member_has_its_name() {
    let all = [
        (Field::Sid, "sid"),
        (Field::DateCreated, "date_created"),
        (Field::DateUpdated, "date_updated"),
        (Field::DateSent, "date_sent"),
        (Field::AccountSid, "account_sid"),
        (Field::To, "to"),
        (Field::From, "from"),
        (Field::MessagingServiceSid, "messaging_service_sid"),
        (Field::Body, "body"),
        (Field::Status, "status"),
        (Field::NumSegments, "num_segments"),
        (Field::NumMedia, "num_media"),
        (Field::Direction, "direction"),
        (Field::ApiVersion, "api_version"),
        (Field::Price, "price"),
        (Field::PriceUnit, "price_unit"),
        (Field::ErrorCode, "error_code"),
        (Field::ErrorMessage, "error_message"),
        (Field::Uri, "uri"),
        (Field::SubresourceUris, "subresource_uris"),
    ];
    for (field, name) in all {
        assert_eq!(field.name(), name);
    }
}
