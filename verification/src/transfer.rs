//! The file transfer engine: a file travels as a run of frames, each with a
//! bounded chunk of its bytes, and exactly as many bytes as were announced.

use crate::error::{ProgramRole, QuickTransferError};
use crate::messages::MAX_FILE_FRAGMENT_SIZE;
use vstd::prelude::*;

verus! {

/// What is done with a block of file bytes that has arrived.
#[derive(Copy, Clone, Debug, PartialEq, Eq, Structural)]
pub enum BlockAction {
    /// The block is written to the file.
    Write,
    /// The block is dropped.
    Discard,
}

/// How far the reception of a file has come.
pub struct ReceptionState {
    /// Bytes that are still to arrive.
    pub remaining: nat,
    /// Whether a failed write lets the reception go on.
    pub tolerate_write_failure: bool,
    /// Whether blocks are dropped instead of written.
    pub discarding: bool,
}

/// The reception after a block of `length` bytes has arrived, and what is
/// done with the block. Nothing where the block holds more than was still
/// to arrive.
pub open spec fn block_step(state: ReceptionState, length: nat) -> Option<
    (ReceptionState, BlockAction),
> {
    if length > state.remaining {
        None
    } else {
        Some(
            (
                ReceptionState { remaining: (state.remaining - length) as nat, ..state },
                if state.discarding {
                    BlockAction::Discard
                } else {
                    BlockAction::Write
                },
            ),
        )
    }
}

/// The reception after a write to the file has failed: it goes on and drops
/// what arrives from then on, where that is tolerated, and else ends.
pub open spec fn failure_step(state: ReceptionState) -> Option<ReceptionState> {
    if state.tolerate_write_failure {
        Some(ReceptionState { discarding: true, ..state })
    } else {
        None
    }
}

/// The reception after one block, given whether a write of it succeeded.
pub open spec fn after_block(state: ReceptionState, length: nat, written: bool) -> Option<
    ReceptionState,
> {
    match block_step(state, length) {
        None => None,
        Some((next, BlockAction::Discard)) => Some(next),
        Some((next, BlockAction::Write)) => if written {
            Some(next)
        } else {
            failure_step(next)
        },
    }
}

/// The reception after a run of blocks, each given by its length and by
/// whether a write of it succeeded. Nothing where the reception has ended
/// on the way.
pub open spec fn after_blocks(state: ReceptionState, blocks: Seq<(nat, bool)>) -> Option<
    ReceptionState,
>
    decreases blocks.len(),
{
    if blocks.len() == 0 {
        Some(state)
    } else {
        match after_blocks(state, blocks.drop_last()) {
            None => None,
            Some(before) => after_block(before, blocks.last().0, blocks.last().1),
        }
    }
}

/// The number of bytes in a run of blocks.
pub open spec fn total_length(blocks: Seq<(nat, bool)>) -> nat
    decreases blocks.len(),
{
    if blocks.len() == 0 {
        0
    } else {
        total_length(blocks.drop_last()) + blocks.last().0
    }
}

/// A reception that tolerates failed writes takes in every byte that was
/// announced, whether or not the file could be written: after blocks of no
/// more bytes in all than were still to arrive it has not ended, and what is
/// still to arrive is less by exactly the bytes of the blocks. So it is
/// complete exactly when the announced number of bytes has come in, and the
/// next message starts where the sender put it.
pub proof fn lemma_tolerant_reception_drains(state: ReceptionState, blocks: Seq<(nat, bool)>)
    requires
        state.tolerate_write_failure,
        total_length(blocks) <= state.remaining,
    ensures
        after_blocks(state, blocks) matches Some(end) && end.remaining == state.remaining
            - total_length(blocks) && end.tolerate_write_failure,
    decreases blocks.len(),
{
    if blocks.len() > 0 {
        lemma_tolerant_reception_drains(state, blocks.drop_last());
    }
}

/// The reception of a file of a known size.
#[derive(Clone, Debug, PartialEq, Eq)]
pub struct FileReception {
    remaining: u64,
    tolerate_write_failure: bool,
    discarding: bool,
    role: ProgramRole,
    file_path: String,
}

impl View for FileReception {
    type V = ReceptionState;

    closed spec fn view(&self) -> ReceptionState {
        ReceptionState {
            remaining: self.remaining as nat,
            tolerate_write_failure: self.tolerate_write_failure,
            discarding: self.discarding,
        }
    }
}

impl FileReception {
    /// The role in whose name a block that is too long is reported.
    pub closed spec fn role(&self) -> ProgramRole {
        self.role
    }

    /// The path named when a write fails.
    pub closed spec fn path(&self) -> Seq<char> {
        self.file_path@
    }

    /// The reception of `file_size` bytes into an open file.
    pub fn new(
        file_size: u64,
        file_path: String,
        tolerate_write_failure: bool,
        role: ProgramRole,
    ) -> (out: FileReception)
        ensures
            out@ == (ReceptionState {
                remaining: file_size as nat,
                tolerate_write_failure,
                discarding: false,
            }),
            out.role() == role,
            out.path() == file_path@,
    {
        FileReception { remaining: file_size, tolerate_write_failure, discarding: false, role, file_path }
    }

    /// The reception of `file_size` bytes for which no file could be made:
    /// every block is dropped, so that the stream stays aligned.
    pub fn without_file(file_size: u64, file_path: String, role: ProgramRole) -> (out:
        FileReception)
        ensures
            out@ == (ReceptionState {
                remaining: file_size as nat,
                tolerate_write_failure: true,
                discarding: true,
            }),
            out.role() == role,
            out.path() == file_path@,
    {
        FileReception {
            remaining: file_size,
            tolerate_write_failure: true,
            discarding: true,
            role,
            file_path,
        }
    }

    /// Bytes that are still to arrive.
    pub fn remaining(&self) -> (out: u64)
        ensures
            out == self@.remaining,
    {
        self.remaining
    }

    /// Whether every announced byte has arrived.
    pub fn is_complete(&self) -> (out: bool)
        ensures
            out == (self@.remaining == 0),
    {
        self.remaining == 0
    }

    /// Takes a block of `length` bytes that has arrived, and says what to do
    /// with it. A block of more bytes than were still to arrive is invalid
    /// data, and leaves the reception as it was.
    pub fn block_received(&mut self, length: usize) -> (out: Result<
        BlockAction,
        QuickTransferError,
    >)
        ensures
            final(self).role() == old(self).role(),
            final(self).path() == old(self).path(),
            match block_step(old(self)@, length as nat) {
                Some((next, action)) => final(self)@ == next && out == Ok::<
                    BlockAction,
                    QuickTransferError,
                >(action),
                None => final(self)@ == old(self)@ && out == Err::<
                    BlockAction,
                    QuickTransferError,
                >(QuickTransferError::SentInvalidData(old(self).role())),
            },
    {
        if length as u64 > self.remaining {
            return Err(QuickTransferError::SentInvalidData(self.role));
        }
        self.remaining = self.remaining - length as u64;
        if self.discarding {
            Ok(BlockAction::Discard)
        } else {
            Ok(BlockAction::Write)
        }
    }

    /// Takes note that a block could not be written. Where that is
    /// tolerated, blocks are dropped from now on; else the reception ends
    /// with the failure, and the stream is no longer aligned.
    pub fn write_failed(&mut self) -> (out: Result<(), QuickTransferError>)
        ensures
            final(self).role() == old(self).role(),
            final(self).path() == old(self).path(),
            match failure_step(old(self)@) {
                Some(next) => final(self)@ == next && out is Ok,
                None => final(self)@ == old(self)@ && (out matches Err(
                    QuickTransferError::WritingFile { file_path },
                ) && file_path@ == old(self).path()),
            },
    {
        if self.tolerate_write_failure {
            self.discarding = true;
            Ok(())
        } else {
            Err(QuickTransferError::WritingFile { file_path: self.file_path.clone() })
        }
    }
}

/// What follows a read from the file that is being sent.
#[derive(Copy, Clone, Debug, PartialEq, Eq, Structural)]
pub enum ChunkStep {
    /// The first `length` bytes that were read go out as one frame, and the
    /// socket is flushed after it if this is the last one.
    Send { length: usize, flush: bool },
    /// Every announced byte has been sent.
    Done,
}

/// The bytes still to send after a read, and what follows the read. Nothing
/// where the read failed or the file ended before its announced size.
pub open spec fn chunk_step(remaining: u64, read: Option<usize>) -> Option<(u64, ChunkStep)> {
    if remaining == 0 {
        Some((0, ChunkStep::Done))
    } else {
        match read {
            None => None,
            Some(count) => if count == 0 {
                None
            } else if count as u64 >= remaining {
                Some((0, ChunkStep::Send { length: remaining as usize, flush: true }))
            } else {
                Some(
                    (
                        (remaining - count) as u64,
                        ChunkStep::Send { length: count, flush: false },
                    ),
                )
            },
        }
    }
}

/// The sending of a file of a known size.
#[derive(Clone, Debug, PartialEq, Eq)]
pub struct FileSending {
    remaining: u64,
    file_path: String,
}

impl FileSending {
    /// Bytes that are still to send.
    pub closed spec fn spec_remaining(&self) -> u64 {
        self.remaining
    }

    /// The path named when a read fails.
    pub closed spec fn path(&self) -> Seq<char> {
        self.file_path@
    }

    /// The sending of `file_size` bytes.
    pub fn new(file_size: u64, file_path: String) -> (out: FileSending)
        ensures
            out.remaining() == file_size,
            out.path() == file_path@,
    {
        FileSending { remaining: file_size, file_path }
    }

    /// Bytes that are still to send.
    #[verifier::when_used_as_spec(spec_remaining)]
    pub fn remaining(&self) -> (out: u64)
        ensures
            out == self.remaining(),
    {
        self.remaining
    }

    /// The number of bytes to ask the file for next: a chunk, or nothing
    /// where every announced byte has been sent.
    pub fn next_read(&self) -> (out: usize)
        ensures
            out == if self.remaining() == 0 {
                0
            } else {
                MAX_FILE_FRAGMENT_SIZE
            },
    {
        if self.remaining == 0 {
            0
        } else {
            MAX_FILE_FRAGMENT_SIZE
        }
    }

    /// Takes the end of a read from the file: the number of bytes read, or
    /// nothing where the read failed. Bytes beyond the announced size are
    /// not sent. A failed read, and a file that ends early, end the sending
    /// with a failure that names the file.
    pub fn chunk_read(&mut self, read: Option<usize>) -> (out: Result<
        ChunkStep,
        QuickTransferError,
    >)
        ensures
            final(self).path() == old(self).path(),
            match chunk_step(old(self).remaining(), read) {
                Some((left, step)) => final(self).remaining() == left && out == Ok::<
                    ChunkStep,
                    QuickTransferError,
                >(step),
                None => final(self).remaining() == old(self).remaining() && (out matches Err(
                    QuickTransferError::ReadingFile { file_path },
                ) && file_path@ == old(self).path()),
            },
            out matches Ok(ChunkStep::Send { length, flush }) ==> {
                &&& old(self).remaining() == final(self).remaining() + length
                &&& read matches Some(count) && 0 < length <= count
                &&& flush == (final(self).remaining() == 0)
            },
    {
        if self.remaining == 0 {
            return Ok(ChunkStep::Done);
        }
        let count = match read {
            Some(count) => count,
            None => {
                return Err(QuickTransferError::ReadingFile { file_path: self.file_path.clone() });
            },
        };
        if count == 0 {
            return Err(QuickTransferError::ReadingFile { file_path: self.file_path.clone() });
        }
        if count as u64 >= self.remaining {
            let length = self.remaining as usize;
            self.remaining = 0;
            Ok(ChunkStep::Send { length, flush: true })
        } else {
            self.remaining = self.remaining - count as u64;
            Ok(ChunkStep::Send { length: count, flush: false })
        }
    }
}

} // verus!
