//! The course of one download.
//!
//! The caller does the transfer: it performs one action and reports what
//! came of it as an event, and `Download::step` answers with the next
//! action. A download ends
//! in one of two ways: complete, or aborted with the partly written file
//! removed.

use crate::extractor::AcquisitionError;
use vstd::prelude::*;

verus! {

#[derive(Debug, Clone, Copy, PartialEq, Eq)]
pub enum DownloadPhase {
    /// The request was sent; the response is awaited.
    Requesting,
    /// The destination file is being created.
    Creating,
    /// The next part of the body is awaited.
    Receiving,
    /// A part of the body is being written.
    Writing,
    /// Everything was received and written.
    Done,
    /// The download was given up.
    Failed,
}

#[derive(Debug, Clone, Copy, PartialEq, Eq)]
pub enum DownloadEvent {
    /// The response arrived, with the length it announces, if any.
    Response { length: Option<u64> },
    /// The destination file was created.
    Created,
    /// A part of the body arrived, `len` bytes long.
    Chunk { len: u64 },
    /// The part that arrived was written.
    Written,
    /// The body has ended.
    End,
    /// Sending, receiving or writing failed.
    Failure,
}

#[derive(Debug, Clone, Copy, PartialEq, Eq)]
pub enum DownloadAction {
    /// Create the destination file.
    CreateFile,
    /// Wait for the next part of the body.
    Receive,
    /// Write the part that arrived, and show `position` as the progress.
    WriteChunk { position: u64 },
    /// The download is complete.
    Complete,
    /// Give up with `error`; before that, remove the destination file if
    /// `remove_partial` is set.
    Abort { remove_partial: bool, error: AcquisitionError },
}

/// Where a download stands.
#[derive(Debug, Clone, Copy, PartialEq, Eq)]
pub struct Download {
    pub phase: DownloadPhase,
    /// The announced length.
    pub total: u64,
    /// How much was received, never shown as more than `total`.
    pub received: u64,
}

/// The progress after `len` more bytes: it grows by `len`, up to the
/// announced length.
pub open spec fn advanced(received: u64, len: u64, total: u64) -> u64 {
    if received + len >= total {
        total
    } else {
        (received + len) as u64
    }
}

/// The state after an event, and the action that answers it.
pub open spec fn step_spec(state: Download, event: DownloadEvent) -> (Download, DownloadAction) {
    let failed = Download { phase: DownloadPhase::Failed, ..state };
    match state.phase {
        DownloadPhase::Requesting => match event {
            DownloadEvent::Response { length: Some(total) } => (
                Download { phase: DownloadPhase::Creating, total, received: 0 },
                DownloadAction::CreateFile,
            ),
            DownloadEvent::Response { length: None } => (
                failed,
                DownloadAction::Abort {
                    remove_partial: false,
                    error: AcquisitionError::MissingLength,
                },
            ),
            _ => (
                failed,
                DownloadAction::Abort {
                    remove_partial: false,
                    error: AcquisitionError::TransferFailed,
                },
            ),
        },
        DownloadPhase::Creating => match event {
            DownloadEvent::Created => (
                Download { phase: DownloadPhase::Receiving, ..state },
                DownloadAction::Receive,
            ),
            _ => (
                failed,
                DownloadAction::Abort {
                    remove_partial: true,
                    error: AcquisitionError::TransferFailed,
                },
            ),
        },
        DownloadPhase::Receiving => match event {
            DownloadEvent::Chunk { len } => (
                Download {
                    phase: DownloadPhase::Writing,
                    received: advanced(state.received, len, state.total),
                    ..state
                },
                DownloadAction::WriteChunk {
                    position: advanced(state.received, len, state.total),
                },
            ),
            DownloadEvent::End => (
                Download { phase: DownloadPhase::Done, ..state },
                DownloadAction::Complete,
            ),
            _ => (
                failed,
                DownloadAction::Abort {
                    remove_partial: true,
                    error: AcquisitionError::TransferFailed,
                },
            ),
        },
        DownloadPhase::Writing => match event {
            DownloadEvent::Written => (
                Download { phase: DownloadPhase::Receiving, ..state },
                DownloadAction::Receive,
            ),
            _ => (
                failed,
                DownloadAction::Abort {
                    remove_partial: true,
                    error: AcquisitionError::TransferFailed,
                },
            ),
        },
        DownloadPhase::Done => (state, DownloadAction::Complete),
        DownloadPhase::Failed => (
            state,
            DownloadAction::Abort {
                remove_partial: false,
                error: AcquisitionError::TransferFailed,
            },
        ),
    }
}

impl Download {
    /// The invariant of a download: no more is counted than was announced.
    pub open spec fn wf(&self) -> bool {
        self.received <= self.total
    }

    /// A download whose request was just sent.
    pub fn new() -> (r: Self)
        ensures
            r == (Download { phase: DownloadPhase::Requesting, total: 0, received: 0 }),
            r.wf(),
    {
        Download { phase: DownloadPhase::Requesting, total: 0, received: 0 }
    }

    /// Takes an event and says what to do next.
    pub fn step(&mut self, event: DownloadEvent) -> (action: DownloadAction)
        ensures
            (*final(self), action) == step_spec(*old(self), event),
            old(self).wf() ==> final(self).wf(),
    {
        match self.phase {
            DownloadPhase::Requesting => match event {
                DownloadEvent::Response { length: Some(total) } => {
                    self.phase = DownloadPhase::Creating;
                    self.total = total;
                    self.received = 0;
                    DownloadAction::CreateFile
                },
                DownloadEvent::Response { length: None } => {
                    self.phase = DownloadPhase::Failed;
                    DownloadAction::Abort {
                        remove_partial: false,
                        error: AcquisitionError::MissingLength,
                    }
                },
                _ => {
                    self.phase = DownloadPhase::Failed;
                    DownloadAction::Abort {
                        remove_partial: false,
                        error: AcquisitionError::TransferFailed,
                    }
                },
            },
            DownloadPhase::Creating => match event {
                DownloadEvent::Created => {
                    self.phase = DownloadPhase::Receiving;
                    DownloadAction::Receive
                },
                _ => {
                    self.phase = DownloadPhase::Failed;
                    DownloadAction::Abort {
                        remove_partial: true,
                        error: AcquisitionError::TransferFailed,
                    }
                },
            },
            DownloadPhase::Receiving => match event {
                DownloadEvent::Chunk { len } => {
                    let position: u64 = if len >= self.total - self.received_capped() {
                        self.total
                    } else {
                        self.received + len
                    };
                    self.phase = DownloadPhase::Writing;
                    self.received = position;
                    DownloadAction::WriteChunk { position }
                },
                DownloadEvent::End => {
                    self.phase = DownloadPhase::Done;
                    DownloadAction::Complete
                },
                _ => {
                    self.phase = DownloadPhase::Failed;
                    DownloadAction::Abort {
                        remove_partial: true,
                        error: AcquisitionError::TransferFailed,
                    }
                },
            },
            DownloadPhase::Writing => match event {
                DownloadEvent::Written => {
                    self.phase = DownloadPhase::Receiving;
                    DownloadAction::Receive
                },
                _ => {
                    self.phase = DownloadPhase::Failed;
                    DownloadAction::Abort {
                        remove_partial: true,
                        error: AcquisitionError::TransferFailed,
                    }
                },
            },
            DownloadPhase::Done => DownloadAction::Complete,
            DownloadPhase::Failed => DownloadAction::Abort {
                remove_partial: false,
                error: AcquisitionError::TransferFailed,
            },
        }
    }

    fn received_capped(&self) -> (r: u64)
        ensures
            r == (if self.received <= self.total {
                self.received
            } else {
                self.total
            }),
    {
        if self.received <= self.total {
            self.received
        } else {
            self.total
        }
    }
}

/// A download is all or nothing: once the destination file may exist,
/// every failure is answered by an abort that removes it, and a failure
/// never counts as complete.
pub proof fn lemma_failure_removes_partial_file(state: Download)
    requires
        state.phase == DownloadPhase::Creating || state.phase == DownloadPhase::Receiving
            || state.phase == DownloadPhase::Writing,
    ensures
        step_spec(state, DownloadEvent::Failure).0.phase == DownloadPhase::Failed,
        step_spec(state, DownloadEvent::Failure).1 == (DownloadAction::Abort {
            remove_partial: true,
            error: AcquisitionError::TransferFailed,
        }),
{
}

/// A download is complete only after its body has ended: nothing but the
/// end of the body, met while the next part is awaited, takes a download
/// to `Done`.
pub proof fn lemma_done_only_after_end(state: Download, event: DownloadEvent)
    requires
        state.phase != DownloadPhase::Done,
        step_spec(state, event).0.phase == DownloadPhase::Done,
    ensures
        state.phase == DownloadPhase::Receiving,
        event == DownloadEvent::End,
{
}

} // verus!
