//! Decision core of a small audio-demo backend.
//!
//! The backend accepts multipart uploads of audio files, keeps one metadata
//! record per stored file, and serves files back by file name or by demo
//! identifier. This crate holds everything the backend decides: how files are
//! named, how an upload is consumed, what is asked of the metadata store and
//! of the upload directory, and what is answered. It performs no I/O itself.
//! A host drives a [`session::Session`]: it carries out each
//! [`protocol::Action`] and reports what happened as a [`protocol::Event`].
//!
//! - [`naming`]: demo identifiers, file names, URLs.
//! - [`track`]: the record of an upload and its public face.
//! - [`protocol`]: actions, events and answers.
//! - [`ingest`], [`retrieval`], [`lifecycle`]: the sessions of an upload, of
//!   the read requests and of a delete; [`session`] holds them together.
//! - [`model`]: the host the sessions are written for, as a mathematical
//!   object; [`laws`] proves what whole requests come to on it,
//!   [`interleaving`] that uploads served side by side do not disturb one
//!   another, and [`faults`] what holds when the host fails.

pub mod faults;
pub mod ingest;
pub mod interleaving;
pub mod laws;
pub mod lifecycle;
pub mod model;
pub mod naming;
pub mod protocol;
pub mod retrieval;
pub mod session;
pub mod track;
