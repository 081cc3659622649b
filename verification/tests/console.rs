use containr::console::{frame_terminal_request, terminal_request};

#[test]
fn terminal_request_names_type_then_container() {
    assert_eq!(terminal_request("c2"), "{\"type\":\"terminal\",\"container\":\"c2\"}");
}

#[test]
fn terminal_request_has_no_trailing_newline() {
    let request = terminal_request("c2");
    assert!(request.ends_with('}'));
    assert_eq!(request.len(), 36);
}

#[test]
fn terminal_request_escapes_the_id() {
    assert_eq!(
        terminal_request("a\"b\\c\n"),
        "{\"type\":\"terminal\",\"container\":\"a\\\"b\\\\c\\n\"}"
    );
}

#[test]
fn terminal_request_is_json_with_both_members() {
    let id = "tab\there \u{1} é";
    let parsed: serde_json::Value = serde_json::from_str(&terminal_request(id)).unwrap();
    let object = parsed.as_object().unwrap();
    assert_eq!(object.len(), 2);
    assert_eq!(object.get("type").and_then(|v| v.as_str()), Some("terminal"));
    assert_eq!(object.get("container").and_then(|v| v.as_str()), Some(id));
}

#[test]
fn terminal_request_of_empty_id() {
    assert_eq!(terminal_request(""), "{\"type\":\"terminal\",\"container\":\"\"}");
}

#[test]
fn frame_puts_the_text_in_as_it_is() {
    assert_eq!(frame_terminal_request("\"x\""), "{\"type\":\"terminal\",\"container\":\"x\"}");
    assert_eq!(frame_terminal_request("17"), "{\"type\":\"terminal\",\"container\":17}");
}
