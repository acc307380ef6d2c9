use termpilot::{
    build_prompt, extract_reply, render_reply, reply_or_placeholder, request_body, NO_REPLY_TEXT,
};

#[test]
fn prompt_is_instruction_then_input() {
    assert_eq!(
        build_prompt("ls: cannot access 'x'"),
        "Provide a concise explanation of the following terminal output:\n\nls: cannot access 'x'"
    );
    assert_eq!(
        build_prompt(""),
        "Provide a concise explanation of the following terminal output:\n\n"
    );
}

#[test]
fn request_body_names_model_and_one_user_message() {
    let body = request_body("a \"b\"\nc").unwrap();
    assert_eq!(
        body,
        "{\"messages\":[{\"content\":\"a \\\"b\\\"\\nc\",\"role\":\"user\"}],\"model\":\"gpt-4\"}"
    );
}

#[test]
fn reply_is_taken_from_first_choice() {
    let r = extract_reply("{\"choices\":[{\"message\":{\"content\":\"X\"}}]}").unwrap();
    assert_eq!(r, "X");
}

#[test]
fn reply_ignores_later_choices() {
    let body = "{\"choices\":[{\"message\":{\"content\":\"first\"}},{\"message\":{\"content\":\"second\"}}]}";
    assert_eq!(extract_reply(body).unwrap(), "first");
}

#[test]
fn missing_reply_gives_placeholder() {
    let r = extract_reply("{\"error\":{\"message\":\"bad key\"}}").unwrap();
    assert_eq!(r, NO_REPLY_TEXT);
    let r = extract_reply("{\"choices\":[]}").unwrap();
    assert_eq!(r, NO_REPLY_TEXT);
}

#[test]
fn non_string_reply_gives_placeholder() {
    let r = extract_reply("{\"choices\":[{\"message\":{\"content\":null}}]}").unwrap();
    assert_eq!(r, NO_REPLY_TEXT);
}

#[test]
fn body_that_is_not_json_is_an_error() {
    assert!(extract_reply("<html>bad gateway</html>").is_err());
}

#[test]
fn placeholder_text_is_fixed() {
    assert_eq!(reply_or_placeholder(None), "⚠️ GPT returned no message.");
    assert_eq!(reply_or_placeholder(Some("hi".to_string())), "hi");
}

#[test]
fn rendered_reply_has_heading_and_blank_line() {
    assert_eq!(render_reply("X"), "\n🧠 GPT says:\n\nX\n");
}

#[test]
fn request_body_escapes_control_characters() {
    let body = request_body("\u{1}\t\u{8}\u{c}\r\\/\u{7f}\u{1f}").unwrap();
    assert_eq!(
        body,
        "{\"messages\":[{\"content\":\"\\u0001\\t\\b\\f\\r\\\\/\u{7f}\\u001f\",\"role\":\"user\"}],\"model\":\"gpt-4\"}"
    );
}
