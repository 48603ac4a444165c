//! What the command line asks for, and which transfer answers it.

use vstd::prelude::*;
use crate::address::{block_ofs, frame_ofs};
use crate::errors::PSXError;
use crate::transfer::{
    get_status,
    read_all_frames,
    read_at,
    read_plan,
    status_plan,
    write_at,
    write_plan,
    Transfer,
    TransferView,
};

verus! {

/// The offset that a command reads or writes at.
#[derive(Clone, Copy, Debug, PartialEq, Eq, Structural)]
pub struct ReadWriteOpt {
    /// A frame offset or a block offset, as the command takes it.
    pub offset: u16,
}

/// The commands of the front end.
#[derive(Clone, Copy, Debug, PartialEq, Eq, Structural)]
pub enum Cmd {
    /// Read the entire memory card.
    ReadAll,
    /// Read a specific frame.
    ReadFrame(ReadWriteOpt),
    /// Read a specific block.
    ReadBlock(ReadWriteOpt),
    /// Get the memory card's status.
    Status,
    /// Write a file to the memory card.
    WriteAll,
    /// Write a frame to the memory card.
    WriteFrame(ReadWriteOpt),
    /// Write a block to the memory card.
    WriteBlock(ReadWriteOpt),
}

/// A command and the file that it saves to or writes from.
#[derive(Clone, Debug, PartialEq, Eq)]
pub struct Opt {
    /// The command.
    pub cmd: Cmd,
    /// Path of the file.
    pub file: String,
}

/// How the file of a command is opened.
#[derive(Clone, Copy, Debug, PartialEq, Eq, Structural)]
pub enum FileUse {
    /// Created, to take what is read from the card.
    Create,
    /// Opened, to supply what is written to the card.
    Open,
}

/// Whether a command writes to the card.
pub open spec fn writes_card(cmd: Cmd) -> bool {
    cmd is WriteAll || cmd is WriteFrame || cmd is WriteBlock
}

/// The number of bytes that a command takes from its file before it
/// starts; zero where it takes none.
pub open spec fn input_len_of(cmd: Cmd) -> int {
    match cmd {
        Cmd::WriteFrame(_) => 128,
        Cmd::WriteBlock(_) => 8192,
        _ => 0,
    }
}

/// The transfer that answers a command, given the bytes taken from its
/// file: the offset is checked first, then the length of the data. Writing
/// a whole file has no transfer.
pub open spec fn planned(cmd: Cmd, data: Seq<u8>) -> Result<Option<TransferView>, PSXError> {
    match cmd {
        Cmd::ReadAll => Ok(Some(read_plan(0, 0x400))),
        Cmd::ReadFrame(opt) => if opt.offset > 0x3ff {
            Err(PSXError::FrameOfs)
        } else {
            Ok(Some(read_plan(opt.offset as int, 1)))
        },
        Cmd::ReadBlock(opt) => if opt.offset > 15 {
            Err(PSXError::BlockOfs)
        } else {
            Ok(Some(read_plan(opt.offset * 64, 64)))
        },
        Cmd::Status => Ok(Some(status_plan())),
        Cmd::WriteAll => Ok(None),
        Cmd::WriteFrame(opt) => if opt.offset > 0x3ff {
            Err(PSXError::FrameOfs)
        } else if data.len() != 128 {
            Err(PSXError::WriteLen)
        } else {
            Ok(Some(write_plan(opt.offset as int, 1, data)))
        },
        Cmd::WriteBlock(opt) => if opt.offset > 15 {
            Err(PSXError::BlockOfs)
        } else if data.len() != 8192 {
            Err(PSXError::WriteLen)
        } else {
            Ok(Some(write_plan(opt.offset * 64, 64, data)))
        },
    }
}

impl Cmd {
    /// The number of bytes to take from the file before the command
    /// starts; zero where it takes none.
    pub fn input_len(&self) -> (n: usize)
        ensures
            n == input_len_of(*self),
    {
        match self {
            Cmd::WriteFrame(_) => 128,
            Cmd::WriteBlock(_) => 128 * 64,
            _ => 0,
        }
    }

    /// Starts the transfer that answers the command; `None` for a command
    /// that has none.
    pub fn transfer(&self, data: Vec<u8>) -> (r: Result<Option<Transfer>, PSXError>)
        ensures
            match r {
                Ok(Some(t)) => planned(*self, data@) == Ok::<Option<TransferView>, PSXError>(
                    Some(t@),
                ) && t@.wf(),
                Ok(None) => planned(*self, data@) == Ok::<Option<TransferView>, PSXError>(None),
                Err(e) => planned(*self, data@) == Err::<Option<TransferView>, PSXError>(e),
            },
    {
        match self {
            Cmd::ReadAll => Ok(Some(read_all_frames())),
            Cmd::ReadFrame(opt) => {
                let offset = match frame_ofs(opt.offset) {
                    Ok(offset) => offset,
                    Err(e) => {
                        return Err(e);
                    },
                };
                match read_at(offset, 1) {
                    Ok(t) => Ok(Some(t)),
                    Err(e) => Err(e),
                }
            },
            Cmd::ReadBlock(opt) => {
                let offset = match block_ofs(opt.offset) {
                    Ok(offset) => offset,
                    Err(e) => {
                        return Err(e);
                    },
                };
                match read_at(offset, 64) {
                    Ok(t) => Ok(Some(t)),
                    Err(e) => Err(e),
                }
            },
            Cmd::Status => Ok(Some(get_status())),
            Cmd::WriteAll => Ok(None),
            Cmd::WriteFrame(opt) => {
                let offset = match frame_ofs(opt.offset) {
                    Ok(offset) => offset,
                    Err(e) => {
                        return Err(e);
                    },
                };
                match write_at(offset, 1, data) {
                    Ok(t) => Ok(Some(t)),
                    Err(e) => Err(e),
                }
            },
            Cmd::WriteBlock(opt) => {
                let offset = match block_ofs(opt.offset) {
                    Ok(offset) => offset,
                    Err(e) => {
                        return Err(e);
                    },
                };
                match write_at(offset, 64, data) {
                    Ok(t) => Ok(Some(t)),
                    Err(e) => Err(e),
                }
            },
        }
    }
}

impl Opt {
    /// How the file is opened: created for what is read from the card,
    /// opened for what is written to it.
    pub fn file_use(&self) -> (u: FileUse)
        ensures
            u == (if writes_card(self.cmd) {
                FileUse::Open
            } else {
                FileUse::Create
            }),
    {
        match self.cmd {
            Cmd::WriteAll | Cmd::WriteFrame(_) | Cmd::WriteBlock(_) => FileUse::Open,
            _ => FileUse::Create,
        }
    }
}

/// How a command ended.
#[derive(Debug, PartialEq, Eq)]
pub enum Conclusion {
    /// A write went through: there is nothing to save.
    WriteComplete,
    /// A read went through: these bytes go to the file.
    ReadComplete(Vec<u8>),
    /// The command failed.
    Failed(PSXError),
}

/// Tells how a command ended from what its transfer handed back: no bytes
/// mean that a write went through.
pub fn conclude(out: Result<Vec<u8>, PSXError>) -> (c: Conclusion)
    ensures
        match out {
            Ok(bytes) => if bytes@.len() == 0 {
                c == Conclusion::WriteComplete
            } else {
                c == Conclusion::ReadComplete(bytes)
            },
            Err(e) => c == Conclusion::Failed(e),
        },
{
    match out {
        Ok(bytes) => if bytes.len() == 0 {
            Conclusion::WriteComplete
        } else {
            Conclusion::ReadComplete(bytes)
        },
        Err(e) => Conclusion::Failed(e),
    }
}

/// A block read or a block write covers the 64 frames of its block.
pub proof fn lemma_block_transfer(block: u16, data: Seq<u8>)
    requires
        block <= 15,
        data.len() == 8192,
    ensures
        planned(Cmd::ReadBlock(ReadWriteOpt { offset: block }), data) == Ok::<
            Option<TransferView>,
            PSXError,
        >(Some(read_plan(block * 64, 64))),
        planned(Cmd::WriteBlock(ReadWriteOpt { offset: block }), data) == Ok::<
            Option<TransferView>,
            PSXError,
        >(Some(write_plan(block * 64, 64, data))),
        read_plan(block * 64, 64).wf(),
        write_plan(block * 64, 64, data).wf(),
{
}

} // verus!
