use socketlabs::error::ErrorKind;
use socketlabs::message::Message;
use socketlabs::request::Request;

fn message(to: &str) -> Message {
    let mut m = Message::new("a@example.com", None).unwrap();
    m.add_to(to, None).unwrap();
    m.set_subject("Hi");
    m.set_text("Hello");
    m
}

#[test]
fn request_without_messages_is_refused() {
    let e = Request::new(1, "k".to_string(), Vec::new()).unwrap_err();
    assert_eq!(*e.kind(), ErrorKind::MessageCountError);
}

#[test]
fn request_keeps_messages_in_order() {
    let r = Request::new(
        1,
        "k".to_string(),
        vec![message("one@example.com"), message("two@example.com"), message("three@example.com")],
    )
    .unwrap();
    assert_eq!(r.messages().len(), 3);
    let v: serde_json::Value = serde_json::from_str(&r.to_json()).unwrap();
    assert_eq!(v["Messages"][0]["To"][0]["EmailAddress"], "one@example.com");
    assert_eq!(v["Messages"][1]["To"][0]["EmailAddress"], "two@example.com");
    assert_eq!(v["Messages"][2]["To"][0]["EmailAddress"], "three@example.com");
}

#[test]
fn end_to_end_request_body() {
    let r = Request::new(12345, "k".to_string(), vec![message("b@example.com")]).unwrap();
    let text = r.to_json();
    assert_eq!(
        text,
        r#"{"ServerId":12345,"ApiKey":"k","Messages":[{"To":[{"EmailAddress":"b@example.com"}],"From":{"EmailAddress":"a@example.com"},"Subject":"Hi","TextBody":"Hello"}]}"#
    );
    let v: serde_json::Value = serde_json::from_str(&text).unwrap();
    assert_eq!(v["Messages"][0]["To"][0]["EmailAddress"], "b@example.com");
    assert!(v["Messages"][0].get("HtmlBody").is_none());
    assert_eq!(v["ServerId"], 12345);
}

#[test]
fn server_id_is_written_in_decimal() {
    for (id, text) in [(0u16, "0"), (7, "7"), (10, "10"), (65535, "65535")] {
        let r = Request::new(id, "key \"q\"".to_string(), vec![message("b@example.com")]).unwrap();
        let body = r.to_json();
        assert!(body.starts_with(&format!("{{\"ServerId\":{},\"ApiKey\":\"key \\\"q\\\"\",", text)), "{}", body);
    }
}
