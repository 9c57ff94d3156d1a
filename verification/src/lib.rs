//! Upload ingestion for a small image host, written so that every decision
//! the service takes is a verified function on plain values.
//!
//! The host program performs the I/O (reading the multipart body, creating
//! and writing the file, sending the response) and reports what happened as
//! [`session::Event`]s; a [`session::Session`] answers each event with the
//! next [`session::Action`].
//!
//! - [`media`]: the accepted image formats, and how a declared content type
//!   is classified.
//! - [`naming`]: asset names and reference paths.
//! - [`outcome`]: the results of a request, with their statuses and bodies.
//! - [`session`]: the state machine of one upload.
//! - [`trace`]: runs of a session over many events, and what holds of all
//!   of them.
//! - [`upload`]: what is stored and answered for a whole field.
//! - [`config`]: the settings of the service.

pub mod config;
pub mod media;
pub mod naming;
pub mod outcome;
pub mod session;
pub mod trace;
pub mod upload;
