use vstd::prelude::*;

verus! {

/// The folder, under the user's configuration directory, that holds the
/// credential file.
pub const CONFIG_DIR_NAME: &'static str = "termpilot";

/// The name of the credential file inside that folder.
pub const CONFIG_FILE_NAME: &'static str = "config.toml";

/// The one key of the credential file.
pub const API_KEY_FIELD: &'static str = "openai_api_key";

#[verifier::external_type_specification]
#[verifier::external_body]
pub struct ExTomlDeError(toml::de::Error);

#[verifier::external_type_specification]
#[verifier::external_body]
pub struct ExTomlSerError(toml::ser::Error);

/// The string stored under `name` at the top level of the TOML document
/// `text`: `None` when the text is not a TOML document, `Some(None)` when it
/// is but holds no string under that key.
pub uninterp spec fn toml_string_entry_of(text: Seq<char>, name: Seq<char>) -> Option<Option<Seq<char>>>;

/// The TOML text of a document that holds the single string entry
/// `name = value`.
pub uninterp spec fn toml_entry_text_of(name: Seq<char>, value: Seq<char>) -> Seq<char>;

/// An optional string seen as an optional sequence of characters.
pub open spec fn opt_view(o: Option<String>) -> Option<Seq<char>> {
    match o {
        Some(s) => Some(s@),
        None => None,
    }
}

/// Relies on `toml::from_str` into a `toml::Table`, then `Table::get` and
/// `Value::as_str`: parses the document and looks up one string entry.
#[verifier::external_body]
fn toml_string_entry(text: &str, name: &str) -> (r: Result<Option<String>, toml::de::Error>)
    ensures
        match r {
            Ok(v) => toml_string_entry_of(text@, name@) == Some(opt_view(v)),
            Err(_) => toml_string_entry_of(text@, name@) is None,
        },
{
    let table: toml::Table = toml::from_str(text)?;
    Ok(table.get(name).and_then(|v| v.as_str()).map(|s| s.to_string()))
}

/// Relies on `toml::to_string` of a `toml::Table` that holds one string
/// entry: the TOML text of that document.
#[verifier::external_body]
fn toml_entry_text(name: &str, value: &str) -> (r: Result<String, toml::ser::Error>)
    ensures
        r is Ok,
        r matches Ok(t) ==> t@ == toml_entry_text_of(name@, value@),
{
    let mut table = toml::Table::new();
    table.insert(name.to_string(), toml::Value::String(value.to_string()));
    toml::to_string(&table)
}

/// The characters that `char::is_whitespace` accepts: those with the
/// Unicode `White_Space` property.
pub open spec fn is_white_space(c: char) -> bool {
    ('\u{9}' <= c && c <= '\u{d}') || c == ' ' || c == '\u{85}' || c == '\u{a0}'
        || c == '\u{1680}' || ('\u{2000}' <= c && c <= '\u{200a}') || c == '\u{2028}'
        || c == '\u{2029}' || c == '\u{202f}' || c == '\u{205f}' || c == '\u{3000}'
}

/// `t` is `s` without its leading and trailing white space.
pub open spec fn is_trim_of(s: Seq<char>, t: Seq<char>) -> bool {
    exists|i: int, j: int|
        0 <= i <= j <= s.len() && t == s.subrange(i, j)
            && (forall|k: int| 0 <= k < i ==> is_white_space(#[trigger] s[k]))
            && (forall|k: int| j <= k < s.len() ==> is_white_space(#[trigger] s[k]))
            && (t.len() > 0 ==> !is_white_space(t[0]) && !is_white_space(t.last()))
}

/// Relies on `str::trim`: the input without leading and trailing white
/// space.
#[verifier::external_body]
fn trim_white_space(s: &str) -> (r: String)
    ensures
        is_trim_of(s@, r@),
{
    s.trim().to_string()
}

/// How the credential is obtained on one run.
#[derive(PartialEq, Eq, Structural, Debug, Clone, Copy)]
pub enum CredentialStep {
    /// Read it from the credential file.
    Load,
    /// Ask for it on standard input and write the credential file.
    Prompt,
    /// Delete the credential file, then ask as `Prompt` does.
    ResetThenPrompt,
}

pub open spec fn credential_step_of(force_reset: bool, file_exists: bool) -> CredentialStep {
    if force_reset && file_exists {
        CredentialStep::ResetThenPrompt
    } else if file_exists {
        CredentialStep::Load
    } else {
        CredentialStep::Prompt
    }
}

/// Chooses how the credential is obtained: a reset deletes an existing file
/// before the prompt, an existing file is read, and otherwise the user is
/// asked.
pub fn credential_step(force_reset: bool, file_exists: bool) -> (r: CredentialStep)
    ensures
        r == credential_step_of(force_reset, file_exists),
{
    if force_reset && file_exists {
        CredentialStep::ResetThenPrompt
    } else if file_exists {
        CredentialStep::Load
    } else {
        CredentialStep::Prompt
    }
}

/// Why the credential file's text gave no credential.
pub enum ConfigError {
    /// The text is not a TOML document.
    Syntax(toml::de::Error),
    /// The document holds no string under the key.
    MissingKey,
    /// The string stored under the key is empty.
    EmptyKey,
}

/// The stored credential.
pub struct Config {
    pub openai_api_key: String,
}

impl Config {
    /// Reads the credential from the text of the credential file, which must
    /// hold a non-empty string under the key.
    pub fn from_file_text(text: &str) -> (r: Result<Config, ConfigError>)
        ensures
            match toml_string_entry_of(text@, API_KEY_FIELD@) {
                None => r matches Err(ConfigError::Syntax(_)),
                Some(None) => r matches Err(ConfigError::MissingKey),
                Some(Some(k)) => if k.len() == 0 {
                    r matches Err(ConfigError::EmptyKey)
                } else {
                    r matches Ok(c) && c.openai_api_key@ == k
                },
            },
    {
        match toml_string_entry(text, API_KEY_FIELD) {
            Err(e) => Err(ConfigError::Syntax(e)),
            Ok(None) => Err(ConfigError::MissingKey),
            Ok(Some(k)) => {
                if k.as_str().is_empty() {
                    Err(ConfigError::EmptyKey)
                } else {
                    Ok(Config { openai_api_key: k })
                }
            },
        }
    }

    /// The credential typed in by the user: the line without its
    /// surrounding white space.
    pub fn from_entered_line(line: &str) -> (r: Config)
        ensures
            is_trim_of(line@, r.openai_api_key@),
    {
        Config { openai_api_key: trim_white_space(line) }
    }

    /// The text of the credential file that holds this credential.
    pub fn to_file_text(&self) -> (r: Result<String, toml::ser::Error>)
        ensures
            r is Ok,
            r matches Ok(t) ==> t@ == toml_entry_text_of(API_KEY_FIELD@, self.openai_api_key@),
    {
        toml_entry_text(API_KEY_FIELD, self.openai_api_key.as_str())
    }
}

/// The step chosen for a reset with an existing credential file is the one
/// that deletes it before asking; without a file the step is always to ask;
/// the step that reads the file is chosen only when no reset is asked for.
pub proof fn reset_deletes_before_prompt(force_reset: bool, file_exists: bool)
    ensures
        (force_reset && file_exists) <==> credential_step_of(force_reset, file_exists)
            == CredentialStep::ResetThenPrompt,
        !file_exists ==> credential_step_of(force_reset, file_exists) == CredentialStep::Prompt,
        credential_step_of(force_reset, file_exists) == CredentialStep::Load <==> (file_exists
            && !force_reset),
{
}

} // verus!
