//! A small command-line helper that sends captured terminal output to a
//! chat-completion service and prints the explanation it returns.
//!
//! The library holds the decisions and the text handling: reading the
//! argument list, choosing how the stored credential is obtained, reading
//! and writing the credential file's text, building the request body and
//! picking the reply out of the response body. Everything that touches the
//! file system, standard input or the network is left to the caller.
mod cli;
mod config;
mod explain;

pub use cli::{contains_flag, file_argument, parse_command, Command, HELP_TEXT, VERSION_TEXT};
pub use config::{
    credential_step, Config, ConfigError, CredentialStep, API_KEY_FIELD, CONFIG_DIR_NAME,
    CONFIG_FILE_NAME,
};
pub use explain::{
    build_prompt, extract_reply, render_reply, reply_or_placeholder, request_body, API_URL,
    NO_REPLY_TEXT, PROMPT_PREFIX, REPLY_HEADING, REPLY_POINTER,
};
