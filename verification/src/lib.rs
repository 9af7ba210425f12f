//! Enrollment of faces from uploaded images.
//!
//! A batch of upload notifications names stored images. For each image the
//! pipeline looks up the image's metadata, has the face in it indexed by a
//! recognition service, and writes a record that links the face to the
//! person that the metadata names. One image's failure never stops the
//! batch.
//!
//! This library holds the decisions of that pipeline and proves what they
//! promise. It makes no remote call itself: a [`batch::BatchRun`] names the
//! next call, the caller makes it and hands back the reply.
//!
//! - [`invocation`] begins an invocation from its settings and payload;
//!   [`config`] and [`decoder`] are its two parts, [`json`] the payload.
//! - [`batch`] takes a batch through its records; [`flow`] holds the steps
//!   of one record, [`enroll`] what each step computes.
//! - [`laws`] states what holds of every run.
//! - [`registry`] shares the handles to the remote services.
//! - [`report`] words what the caller logs; [`errors`] the failures.
//! - [`model`], [`strmap`], [`text`] and [`clock`] are what the rest is
//!   built from.
//! - [`people`] is the list behind the desktop front end.

pub mod batch;
pub mod clock;
pub mod config;
pub mod decoder;
pub mod enroll;
pub mod errors;
pub mod flow;
pub mod invocation;
pub mod json;
pub mod laws;
pub mod model;
pub mod people;
pub mod registry;
pub mod report;
pub mod strmap;
pub mod text;
