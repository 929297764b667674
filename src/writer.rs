//! The bookkeeping of one writer session: the first write error is kept,
//! later writes are dropped, and finishing reports that error or, where
//! there was none, the outcome of the flush.
use crate::error::Error;
use vstd::prelude::*;

verus! {

/// A request to the writer session.
pub enum WriteCommand {
    /// Append one record's line.
    Write,
    /// Flush and close, and report the session's outcome.
    Finish,
}

/// What the session's worker must do for a command.
pub enum WriteAction {
    /// Write the record's line to the file, then report the result with `record_write`.
    WriteLine,
    /// Drop the record: an earlier write failed.
    Drop,
    /// Flush the file, and report the flush's result to whoever asked to finish.
    Flush,
    /// Report this error to whoever asked to finish; nothing is flushed.
    Fail(Error),
}

/// The state of one writer session.
pub struct WriterSession {
    /// The first write error of the session, if any.
    pub first_error: Option<Error>,
}

impl WriterSession {
    /// A session in which nothing has failed yet.
    pub fn new() -> (r: WriterSession)
        ensures
            r.first_error is None,
    {
        WriterSession { first_error: None }
    }

    /// Whether writes are still carried out.
    pub fn accepts_writes(&self) -> (r: bool)
        ensures
            r == (self.first_error is None),
    {
        self.first_error.is_none()
    }

    /// Decides what to do with `command`. A write is carried out only while
    /// no write has failed; finishing hands out the first error, if any, and
    /// leaves the session clear.
    pub fn handle(&mut self, command: WriteCommand) -> (r: WriteAction)
        ensures
            command is Write && old(self).first_error is None ==> r is WriteLine
                && *final(self) == *old(self),
            command is Write && old(self).first_error is Some ==> r is Drop && *final(self)
                == *old(self),
            command is Finish && old(self).first_error is None ==> r is Flush
                && final(self).first_error is None,
            command is Finish && old(self).first_error is Some ==> r == WriteAction::Fail(
                old(self).first_error->0,
            ) && final(self).first_error is None,
    {
        match command {
            WriteCommand::Write => {
                if self.first_error.is_none() {
                    WriteAction::WriteLine
                } else {
                    WriteAction::Drop
                }
            },
            WriteCommand::Finish => match self.first_error.take() {
                None => WriteAction::Flush,
                Some(e) => WriteAction::Fail(e),
            },
        }
    }

    /// Records the result of a write: the first error wins.
    pub fn record_write(&mut self, result: Result<(), Error>)
        ensures
            old(self).first_error is Some ==> *final(self) == *old(self),
            old(self).first_error is None ==> final(self).first_error == match result {
                Ok(()) => None,
                Err(e) => Some(e),
            },
    {
        if self.first_error.is_none() {
            match result {
                Ok(()) => {},
                Err(e) => {
                    self.first_error = Some(e);
                },
            }
        }
    }
}

} // verus!
