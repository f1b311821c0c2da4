//! The decisions of an Oxen file server and of the command that makes a repository.
//!
//! Each request handler is a function from a state and an event to the next state and an
//! action. The caller carries the action out (it looks something up, writes, commits, streams,
//! answers) and hands what came of it back as the next event. What a handler does on each
//! event is stated by a spec function with the same shape (`put_step` for `put`), and what it
//! does over a whole request by the proof functions whose names begin with `law_`.
//!
//! `E` is the type of the errors that come from outside; the handlers hand them on unchanged.
//!
//! * [`get`], [`put`], [`delete`], [`mv`] and [`import`] serve the file routes;
//!   [`initial_put`] serves an upload to a repository without commits.
//! * [`multipart`] and [`raw_payload`] read what is uploaded, [`staging`] writes it, [`auth`]
//!   finds the user of a request.
//! * [`upload`] and [`revision`] hold the rules that several handlers share.
//! * [`repository`] models what comes of the actions, and holds the laws over several requests.
//! * [`laws`] states what each operation promises over what goes in and what comes out.
//! * [`init`] is the command line's `init`.
//! * [`outside`] holds the calls into other crates.

pub mod auth;
pub mod delete;
pub mod get;
pub mod import;
pub mod init;
pub mod initial_put;
pub mod json;
pub mod laws;
pub mod model;
pub mod multipart;
pub mod mv;
pub mod outside;
pub mod put;
pub mod raw_payload;
pub mod repository;
pub mod revision;
pub mod staging;
pub mod text;
pub mod upload;

pub use init::InitCmd;
pub use model::{FileMoveBody, FileQueryParams, FileUploadBody};
