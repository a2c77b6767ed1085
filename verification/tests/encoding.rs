use twrs_sms::TwilioSend;

#[test]
fn test_encoding() {
    let mut tw = TwilioSend::new();
    tw.From = "+11234567890";
    tw.To = "+10987654321";
    tw.Body = "Hello, world!";

    let tw_e = tw.encode().expect("Error converting to url encoded scheme");

    assert_eq!(
        tw_e,
        "Body=Hello%2C+world%21&From=%2B11234567890&To=%2B10987654321".to_string()
    );
}

#[test]
fn new_message_is_empty() {
    let tw = TwilioSend::new();
    assert_eq!(tw.Body, "");
    assert_eq!(tw.From, "");
    assert_eq!(tw.To, "");
}

#[test]
fn empty_fields_are_still_sent() {
    let encoded = TwilioSend::new().encode().expect("plain text encodes");
    assert_eq!(encoded, "Body=&From=&To=");
}

#[test]
fn fields_are_sent_in_name_order() {
    let tw = TwilioSend { To: "c", Body: "a", From: "b" };
    assert_eq!(tw.encode().expect("plain text encodes"), "Body=a&From=b&To=c");
}

#[test]
fn reserved_characters_are_escaped() {
    let tw = TwilioSend { Body: "a b&c=d/e?f#g%h+i", From: "*-._~", To: "" };
    assert_eq!(
        tw.encode().expect("plain text encodes"),
        "Body=a+b%26c%3Dd%2Fe%3Ff%23g%25h%2Bi&From=*-._%7E&To="
    );
}

#[test]
fn text_outside_ascii_is_escaped_byte_by_byte() {
    let tw = TwilioSend { Body: "comt\u{e9} \u{1F600}", From: "", To: "\n" };
    assert_eq!(
        tw.encode().expect("plain text encodes"),
        "Body=comt%C3%A9+%F0%9F%98%80&From=&To=%0A"
    );
}
