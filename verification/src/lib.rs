//! Core logic of a desktop Markdown editor shell.
//!
//! The shell exposes a handful of request/response operations to its
//! front end: greeting, saving and opening a document through a file
//! dialog, checking that a path is a regular file, fetching a metadata
//! snapshot, and creating a directory tree.  Every decision those
//! operations make — which requests are rejected, with which message,
//! and what is handed on to the filesystem — lives here and is
//! verified.  The surrounding process (the dialog itself, the actual
//! filesystem calls, logging) observes the world, hands the plain
//! observations to these functions, and performs the actions they
//! return.

pub mod decimal;
pub mod dialog;
pub mod info;
pub mod messages;
pub mod ops;
