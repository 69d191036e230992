//! Secure terminal input for command-line tools: reading a line of secret or
//! plain text from a buffered source, suppressing the terminal's echo for the
//! duration of a secret read, classifying standard streams as interactive or
//! redirected, and normalizing line-ending artifacts across platforms.
//!
//! Everything that computes or decides lives here with a proved contract; a
//! thin platform layer supplies real sources, sinks and terminal-mode words
//! and takes plain values back.

pub mod atty;
pub mod errors;
pub mod hidden;
pub mod line;
pub mod password;
pub mod prompt;
pub mod source;

pub use atty::Stream;
pub use errors::InputError;
pub use line::fix_line_issues;
pub use password::{prompt_and_read_secret_from, read_password_from_bufread, read_password_from_fd};
pub use prompt::{prompt_reply_from_bufread, read_reply_from_bufread};
pub use source::{FailingSource, MemSink, MemSource};
