//! Message-processing core behind a C boundary.
//!
//! The library decides everything that happens between a foreign string
//! handle and the values handed back across the boundary: decoding the
//! handle's bytes, the reply transform, the result envelope, the error
//! catalog and the diagnostics lines. Turning raw pointers into byte slices
//! and owned strings into C buffers is left to the thin boundary layer.

pub mod error;
pub mod bridge;
pub mod reply;
pub mod envelope;
pub mod entry;
pub mod diagnostics;
pub mod laws;

pub use bridge::str_from_handle;
pub use diagnostics::{debug_line, debug_status_line};
pub use entry::{process_message, process_message_safe, process_outcome, reply_or_message, validate_message};
pub use envelope::RustResult;
pub use error::{error_message, ProcessingError};
pub use reply::{compose_reply, generate_reply, text_code_of, MAX_MESSAGE_CHARS};
