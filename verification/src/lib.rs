//! Verified adaptation core for bindings to the application translocation
//! service of the operating system's security framework.
//!
//! The service is reached through nine native entry points that report
//! through a success flag, nullable references and output slots. This crate
//! holds the rules that turn such a raw reply into an `Option` or a `Result`
//! and that hand each returned native object to exactly one owner. The
//! foreign calls themselves are supplied by the caller as function values, so
//! that every rule here is stated and proved for whatever the service answers.

pub mod handle;
pub mod option;
pub mod reply;
pub mod result;
pub mod bindings;
pub mod guarantees;

pub use bindings::{
    app_launch_checkin, create_generic, create_original_path_for_url,
    create_secure_directory_for_url, delete_secure_directory, is_translocated_url,
    start_listening, start_listening_with_options, url_should_run_translocated,
};
pub use handle::{Dictionary, NativeError, NativeObject, RawRef, Url};
pub use reply::{FlagReply, HandleReply, SlotReply};
