use vstd::prelude::*;
use vstd::string::StringExecFns;

verus! {

/// The chat-completion endpoint that the request is sent to.
pub const API_URL: &'static str = "https://api.openai.com/v1/chat/completions";

/// The instruction put before the captured text.
pub const PROMPT_PREFIX: &'static str = "Provide a concise explanation of the following terminal output:\n\n";

/// The JSON pointer of the reply in the response body.
pub const REPLY_POINTER: &'static str = "/choices/0/message/content";

/// What is shown when the response holds no reply text.
pub const NO_REPLY_TEXT: &'static str = "⚠️ GPT returned no message.";

/// The heading printed above the reply.
pub const REPLY_HEADING: &'static str = "\n🧠 GPT says:\n\n";

#[verifier::external_type_specification]
#[verifier::external_body]
pub struct ExJsonError(serde_json::Error);

/// The lower-case hexadecimal digit for `n`, which is below 16.
pub open spec fn hex_digit(n: u32) -> char {
    "0123456789abcdef"@[n as int]
}

/// How one character is written inside a JSON string: the quote and the
/// backslash behind a backslash, the usual short escapes, any other control
/// character below U+0020 as `\u00XX`, and every other character as it is.
pub open spec fn json_escaped_char(c: char) -> Seq<char> {
    if c == '"' {
        seq!['\\', '"']
    } else if c == '\\' {
        seq!['\\', '\\']
    } else if c == '\u{8}' {
        seq!['\\', 'b']
    } else if c == '\t' {
        seq!['\\', 't']
    } else if c == '\n' {
        seq!['\\', 'n']
    } else if c == '\u{c}' {
        seq!['\\', 'f']
    } else if c == '\r' {
        seq!['\\', 'r']
    } else if (c as u32) < 0x20 {
        seq!['\\', 'u', '0', '0', hex_digit((c as u32) / 16), hex_digit((c as u32) % 16)]
    } else {
        seq![c]
    }
}

/// The characters of `s`, each written as inside a JSON string.
pub open spec fn json_escaped(s: Seq<char>) -> Seq<char>
    decreases s.len(),
{
    if s.len() == 0 {
        Seq::empty()
    } else {
        json_escaped(s.drop_last()) + json_escaped_char(s.last())
    }
}

/// The JSON string literal, quotes and escapes included, that stands for `s`.
pub open spec fn json_string_of(s: Seq<char>) -> Seq<char> {
    seq!['"'] + json_escaped(s) + seq!['"']
}

/// The string found at `pointer` in the JSON document `text`: `None` when the
/// text is not JSON, `Some(None)` when nothing is there or it is no string.
pub uninterp spec fn json_string_at_of(text: Seq<char>, pointer: Seq<char>) -> Option<Option<Seq<char>>>;

/// Relies on `serde_json::to_string` of a `str`: its JSON string literal,
/// escaped as serde_json's compact formatter escapes strings.
#[verifier::external_body]
fn json_string(s: &str) -> (r: Result<String, serde_json::Error>)
    ensures
        r is Ok,
        r matches Ok(t) ==> t@ == json_string_of(s@),
{
    serde_json::to_string(s)
}

/// Relies on `serde_json::from_str` into a `serde_json::Value`, then
/// `Value::pointer` and `Value::as_str`: parses the document and looks up
/// one string in it.
#[verifier::external_body]
fn json_string_at(text: &str, pointer: &str) -> (r: Result<Option<String>, serde_json::Error>)
    ensures
        match r {
            Ok(v) => json_string_at_of(text@, pointer@) == Some(
                match v {
                    Some(s) => Some(s@),
                    None => None,
                },
            ),
            Err(_) => json_string_at_of(text@, pointer@) is None,
        },
{
    let value: serde_json::Value = serde_json::from_str(text)?;
    Ok(value.pointer(pointer).and_then(|v| v.as_str()).map(|s| s.to_string()))
}

/// The text sent to the model: the instruction followed by the input.
pub open spec fn prompt_of(input: Seq<char>) -> Seq<char> {
    PROMPT_PREFIX@ + input
}

/// The request body for a prompt, with the keys in the order in which a
/// JSON object of sorted keys writes them.
pub open spec fn request_body_of(prompt: Seq<char>) -> Seq<char> {
    "{\"messages\":[{\"content\":"@ + json_string_of(prompt) + ",\"role\":\"user\"}],\"model\":\"gpt-4\"}"@
}

/// The reply shown for what was found at the reply's place.
pub open spec fn reply_text_of(content: Option<Seq<char>>) -> Seq<char> {
    match content {
        Some(c) => c,
        None => NO_REPLY_TEXT@,
    }
}

/// The prompt for the captured input.
pub fn build_prompt(input: &str) -> (r: String)
    ensures
        r@ == prompt_of(input@),
{
    let mut prompt = String::from_str(PROMPT_PREFIX);
    prompt.append(input);
    prompt
}

/// The JSON body of the request that asks the model about `prompt`: one
/// user message, and the model's name.
pub fn request_body(prompt: &str) -> (r: Result<String, serde_json::Error>)
    ensures
        r is Ok,
        r matches Ok(b) ==> b@ == request_body_of(prompt@),
{
    let quoted = json_string(prompt)?;
    let mut body = String::from_str("{\"messages\":[{\"content\":");
    body.append(quoted.as_str());
    body.append(",\"role\":\"user\"}],\"model\":\"gpt-4\"}");
    Ok(body)
}

/// The reply for what was found at the reply's place: the text itself, or
/// the fixed notice when there was none.
pub fn reply_or_placeholder(content: Option<String>) -> (r: String)
    ensures
        r@ == reply_text_of(
            match content {
                Some(c) => Some(c@),
                None => None,
            },
        ),
{
    match content {
        Some(c) => c,
        None => String::from_str(NO_REPLY_TEXT),
    }
}

/// Picks the reply out of the response body. A body that is not JSON is an
/// error; one without a string at the reply's place gives the fixed notice.
pub fn extract_reply(body: &str) -> (r: Result<String, serde_json::Error>)
    ensures
        match json_string_at_of(body@, REPLY_POINTER@) {
            None => r is Err,
            Some(c) => r matches Ok(t) && t@ == reply_text_of(c),
        },
{
    let content = json_string_at(body, REPLY_POINTER)?;
    Ok(reply_or_placeholder(content))
}

/// The text printed for a reply: the heading, the reply, and a blank line.
pub fn render_reply(reply: &str) -> (r: String)
    ensures
        r@ == REPLY_HEADING@ + reply@ + "\n"@,
{
    let mut out = String::from_str(REPLY_HEADING);
    out.append(reply);
    out.append("\n");
    out
}

} // verus!
