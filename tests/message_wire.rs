use socketlabs::error::ErrorKind;
use socketlabs::message::{Attachment, Email, Message};

fn parse(text: &str) -> serde_json::Value {
    serde_json::from_str(text).expect("wire form is valid JSON")
}

#[test]
fn email_without_name_has_only_the_address() {
    let e = Email::new("a@example.com", None).unwrap();
    assert_eq!(e.to_json(), r#"{"EmailAddress":"a@example.com"}"#);
}

#[test]
fn email_with_name_has_address_and_name() {
    let e = Email::new("a@example.com", Some("Ann")).unwrap();
    assert_eq!(e.to_json(), r#"{"EmailAddress":"a@example.com","FriendlyName":"Ann"}"#);
}

#[test]
fn valid_addresses_are_accepted() {
    for a in [
        "a@example.com",
        "first.last@sub.example.org",
        "x+tag@a-b.co",
        "o'brien@example.ie",
        "user@localhost",
        "{weird}~@x1.y2",
    ] {
        assert!(Email::new(a, None).is_ok(), "{}", a);
    }
}

#[test]
fn invalid_addresses_are_rejected() {
    for a in [
        "",
        "plain",
        "a@",
        "@example.com",
        ".a@example.com",
        "a.@example.com",
        "a..b@example.com",
        "a@b@example.com",
        "a@-example.com",
        "a@example-.com",
        "a@example..com",
        "a@.example.com",
        "a@example.com.",
        "a b@example.com",
        "a@exa_mple.com",
    ] {
        match Email::new(a, None) {
            Ok(_) => panic!("accepted {}", a),
            Err(e) => assert_eq!(*e.kind(), ErrorKind::InvalidAddress(a.to_string())),
        }
    }
}

#[test]
fn names_and_addresses_are_escaped() {
    let e = Email::new("a@example.com", Some("Ann \"A\" \\ B")).unwrap();
    assert_eq!(
        e.to_json(),
        r#"{"EmailAddress":"a@example.com","FriendlyName":"Ann \"A\" \\ B"}"#
    );
}

#[test]
fn message_with_required_fields_only_omits_optional_keys() {
    let mut m = Message::new("a@example.com", None).unwrap();
    m.add_to("b@example.com", None).unwrap();
    m.set_subject("Hi");
    m.set_text("Hello");
    let text = m.to_json();
    assert_eq!(
        text,
        r#"{"To":[{"EmailAddress":"b@example.com"}],"From":{"EmailAddress":"a@example.com"},"Subject":"Hi","TextBody":"Hello"}"#
    );
    assert!(!text.contains("null"));
    let v = parse(&text);
    assert_eq!(v.as_object().unwrap().len(), 4);
}

#[test]
fn new_message_is_blank_but_for_the_sender() {
    let m = Message::new("a@example.com", Some("Ann")).unwrap();
    assert_eq!(
        m.to_json(),
        r#"{"To":[],"From":{"EmailAddress":"a@example.com","FriendlyName":"Ann"},"Subject":"","TextBody":""}"#
    );
}

#[test]
fn message_with_invalid_sender_is_rejected() {
    let e = Message::new("not an address", None).unwrap_err();
    assert_eq!(*e.kind(), ErrorKind::InvalidAddress("not an address".to_string()));
}

#[test]
fn invalid_recipient_leaves_message_unchanged() {
    let mut m = Message::new("a@example.com", None).unwrap();
    let before = m.to_json();
    assert!(m.add_to("bad", None).is_err());
    assert!(m.add_cc("bad", None).is_err());
    assert!(m.add_bcc("bad", None).is_err());
    assert!(m.set_reply_to("bad", None).is_err());
    assert!(m.set_from("bad", None).is_err());
    assert_eq!(m.to_json(), before);
}

#[test]
fn every_optional_part_is_written_when_set() {
    let mut m = Message::new("a@example.com", None).unwrap();
    m.add_to("b@example.com", Some("Bo")).unwrap();
    m.add_to("c@example.com", None).unwrap();
    m.set_from("f@example.com", None).unwrap();
    m.set_subject("S");
    m.set_text("T");
    m.set_html("<p>H</p>");
    m.set_api_template("7");
    m.set_mailing_id("mail-1");
    m.set_message_id("msg-1");
    m.set_charset("utf-8");
    m.add_headers(vec![
        ("X-One".to_string(), "1".to_string()),
        ("X-Two".to_string(), "2".to_string()),
    ]);
    m.add_headers(vec![("X-One".to_string(), "again".to_string())]);
    m.add_cc("cc@example.com", None).unwrap();
    m.add_bcc("bcc@example.com", None).unwrap();
    m.add_bcc("bcc2@example.com", None).unwrap();
    m.set_reply_to("r@example.com", Some("R")).unwrap();
    let mut att = Attachment::new("a.txt", "aGk=", "cid-1", "text/plain");
    att.add_headers(vec![("X-Att".to_string(), "y".to_string())]);
    m.add_attachment(att);
    m.add_attachment(Attachment::new("b.txt", "", "cid-2", "text/plain"));
    m.add_per_message_data("DeliveryAddress", "b@example.com");
    m.add_global_data("Color", "blue");
    let text = m.to_json();
    let v = parse(&text);
    let keys: Vec<&str> = v.as_object().unwrap().keys().map(|k| k.as_str()).collect();
    assert_eq!(keys.len(), 15);
    assert_eq!(v["To"][0]["FriendlyName"], "Bo");
    assert_eq!(v["To"][1]["EmailAddress"], "c@example.com");
    assert_eq!(v["From"]["EmailAddress"], "f@example.com");
    assert_eq!(v["HtmlBody"], "<p>H</p>");
    assert_eq!(v["ApiTemplate"], "7");
    assert_eq!(v["MailingId"], "mail-1");
    assert_eq!(v["MessageId"], "msg-1");
    assert_eq!(v["Charset"], "utf-8");
    assert_eq!(v["CustomHeaders"].as_array().unwrap().len(), 3);
    assert_eq!(v["CustomHeaders"][0]["Name"], "X-One");
    assert_eq!(v["CustomHeaders"][1]["Value"], "2");
    assert_eq!(v["CustomHeaders"][2]["Value"], "again");
    assert_eq!(v["Cc"][0]["EmailAddress"], "cc@example.com");
    assert_eq!(v["Bcc"][1]["EmailAddress"], "bcc2@example.com");
    assert_eq!(v["ReplyTo"]["FriendlyName"], "R");
    assert_eq!(v["Attachments"][0]["ContentId"], "cid-1");
    assert_eq!(v["Attachments"][0]["CustomHeaders"][0]["Name"], "X-Att");
    assert!(v["Attachments"][1].get("CustomHeaders").is_none());
    assert_eq!(v["Attachments"][1]["ContentType"], "text/plain");
    assert_eq!(v["MergeData"]["PerMessage"][0]["Field"], "DeliveryAddress");
    assert_eq!(v["MergeData"]["Global"][0]["Value"], "blue");
    assert!(!text.contains("null"));
    assert!(text.starts_with(r#"{"To":[{"EmailAddress":"b@example.com","FriendlyName":"Bo"},"#));
    assert!(text.ends_with(r#""Global":[{"Field":"Color","Value":"blue"}]}}"#));
}
