//! linkshot — the logic of a Lightshot-style screenshot tool.
//!
//! The application grabs the whole screen, lets the user select a region
//! and annotate it, then uploads the result to Imgur or saves it. This
//! library holds what that application decides and computes: which
//! screenshot tool to run and how ([`capture`]), which Client-ID is in effect
//! ([`config`]), the annotation model and the export of pixels
//! ([`editor`]), what Imgur's reply means ([`imgur`]), the editing session's
//! state ([`session`]) and the string helpers they share ([`text`]).

pub mod capture;
pub mod config;
pub mod editor;
pub mod imgur;
pub mod session;
pub mod text;

pub use config::Config;
pub use editor::{Annot, Shape, Tool};
pub use imgur::Uploaded;
