use answer_server::json::{field_object, object_text};
use answer_server::payload::{respond, root, Payload, Reply, ANSWER, STATUS_OK};

const EXPECTED_BODY: &str = "{\"data\":42}";

fn answer() -> Reply {
    respond()
}

#[test]
fn root_payload_holds_the_answer() {
    let p = root();
    assert_eq!(p.data, 42);
    assert_eq!(p, Payload { data: ANSWER });
}

#[test]
fn root_reply_is_ok_json_with_exact_body() {
    let reply = answer();
    assert_eq!(reply.status, 200);
    assert_eq!(reply.status, STATUS_OK);
    assert_eq!(reply.content_type, "application/json");
    assert_eq!(reply.body, EXPECTED_BODY);
}

#[test]
fn root_body_parses_to_an_integer_member() {
    let reply = answer();
    let value: serde_json::Value = serde_json::from_str(&reply.body).unwrap();
    let object = value.as_object().unwrap();
    assert_eq!(object.len(), 1);
    let data = object.get("data").unwrap();
    assert!(data.is_i64());
    assert!(!data.is_string());
    assert_eq!(data.as_i64(), Some(42));
}

#[test]
fn repeated_replies_are_identical() {
    let first = answer();
    for _ in 0..100 {
        let next = answer();
        assert_eq!(next, first);
        assert_eq!(next.body.as_bytes(), first.body.as_bytes());
    }
}

#[test]
fn concurrent_replies_all_succeed_and_agree() {
    let runtime = tokio::runtime::Runtime::new().unwrap();
    let bodies: Vec<Reply> = runtime.block_on(async {
        let mut handles = Vec::new();
        for _ in 0..100 {
            handles.push(tokio::spawn(async { respond() }));
        }
        let mut replies = Vec::new();
        for handle in handles {
            replies.push(handle.await.unwrap());
        }
        replies
    });
    assert_eq!(bodies.len(), 100);
    for reply in &bodies {
        assert_eq!(reply.status, 200);
        assert_eq!(reply.body, EXPECTED_BODY);
    }
}

#[test]
fn payload_text_follows_its_data() {
    assert_eq!(Payload { data: 0 }.to_json(), "{\"data\":0}");
    assert_eq!(Payload { data: -7 }.to_json(), "{\"data\":-7}");
    assert_eq!(
        Payload { data: i64::MAX }.to_json(),
        "{\"data\":9223372036854775807}"
    );
    assert_eq!(
        Payload { data: i64::MIN }.to_json(),
        "{\"data\":-9223372036854775808}"
    );
}

#[test]
fn object_text_frames_key_and_value() {
    assert_eq!(object_text("\"k\"", "1"), "{\"k\":1}");
    assert_eq!(object_text("", ""), "{:}");
}

#[test]
fn field_object_quotes_plain_keys() {
    assert_eq!(field_object("n", 10), "{\"n\":10}");
    assert_eq!(field_object("", -1), "{\"\":-1}");
}

#[test]
fn field_object_escapes_keys() {
    assert_eq!(field_object("a\"b", 1), "{\"a\\\"b\":1}");
    assert_eq!(field_object("a\\b", 2), "{\"a\\\\b\":2}");
    assert_eq!(field_object("line\n", 3), "{\"line\\n\":3}");
    assert_eq!(field_object("\u{1}", 4), "{\"\\u0001\":4}");
    assert_eq!(field_object("\u{8}\t\u{c}\r", 5), "{\"\\b\\t\\f\\r\":5}");
    assert_eq!(field_object("\u{1f}\u{7f}/", 6), "{\"\\u001f\u{7f}/\":6}");
}
