//! The failures that the card protocol can report.

use vstd::prelude::*;

verus! {

/// What can go wrong between the host and the card.
#[derive(Clone, Copy, Debug, PartialEq, Eq, Structural)]
pub enum PSXError {
    /// A read gave no valid frame within its attempts, or one reply was
    /// too short or carried no acknowledge pair.
    Read,
    /// The checksum byte of a reply does not match its frame region.
    Checksum,
    /// The trailer of a reply is not the good marker.
    Status,
    /// A write transaction failed.
    Write,
    /// A write payload is not one frame long, or the data handed to a
    /// ranged write does not fill the frames asked for.
    WriteLen,
    /// Fewer bytes were acknowledged than a write sent.
    WriteShort,
    /// A frame offset lies beyond the last frame of the card.
    FrameOfs,
    /// A block offset lies beyond the last block of the card.
    BlockOfs,
    /// The lines could not be acquired.
    Gpio,
    /// A file could not be read or written.
    Io,
}

/// The text that describes each failure.
pub open spec fn message_text(e: PSXError) -> Seq<char> {
    match e {
        PSXError::Read => "Error reading from MC"@,
        PSXError::Checksum => "Error in checksum"@,
        PSXError::Status => "Error: Bad status"@,
        PSXError::Write => "Error writing to MC"@,
        PSXError::WriteLen => "Error: Invalid data length to write (need 128bytes)"@,
        PSXError::WriteShort => "Error: Short write"@,
        PSXError::FrameOfs => "Error: Frame offset must be between 0 and 1023 (0x3ff)"@,
        PSXError::BlockOfs => "Error: Block offset must be between 0 and 15"@,
        PSXError::Gpio => "Error: GPIO lines unavailable"@,
        PSXError::Io => "Error: File I/O failed"@,
    }
}

impl PSXError {
    /// A line of text for the user.
    pub fn message(&self) -> (s: &'static str)
        ensures
            s@ == message_text(*self),
    {
        match self {
            PSXError::Read => "Error reading from MC",
            PSXError::Checksum => "Error in checksum",
            PSXError::Status => "Error: Bad status",
            PSXError::Write => "Error writing to MC",
            PSXError::WriteLen => "Error: Invalid data length to write (need 128bytes)",
            PSXError::WriteShort => "Error: Short write",
            PSXError::FrameOfs => "Error: Frame offset must be between 0 and 1023 (0x3ff)",
            PSXError::BlockOfs => "Error: Block offset must be between 0 and 15",
            PSXError::Gpio => "Error: GPIO lines unavailable",
            PSXError::Io => "Error: File I/O failed",
        }
    }
}

} // verus!
