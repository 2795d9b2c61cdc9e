//! Pairing helper for a remote debugging service: the muxer control frames,
//! the device-appearance poll policy, the command-line options and the
//! decisions of the pairing flow, each with a verified contract.

pub mod cli;
pub mod flow;
pub mod frame;
pub mod poll;
pub mod response;

pub use cli::{normalize_arg, normalize_args, parse_args, upload_url, CliOptions, DEFAULT_TARGET};
pub use flow::{first_usb_device, next_step, Outcome, Step, WifiFailure};
pub use frame::{register_message, unregister_message, SERVICE_NAME};
pub use poll::{default_policy, list_contains, poll_step, PollAction, PollEvent, RetryPolicy};
pub use response::{interpret_response, verdict_of, UploadVerdict};
