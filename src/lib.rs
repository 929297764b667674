//! The archiver of a contact store: a state machine that decides how an
//! export of every contact to a file starts, advances, is reset and ends;
//! the export file's format; the writer session's bookkeeping; the seed
//! data statement; and the plain values and forms of the contact pages.
pub mod archiver;
pub mod assets;
pub mod contact;
pub mod error;
pub mod export;
pub mod pages;
pub mod paths;
pub mod seed;
pub mod writer;

pub use archiver::{Action, ArchiverState, ArchiverStatus, Command, Event};
pub use error::{Error, SharedError};
