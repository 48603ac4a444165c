//! Host side of the memory card protocol of a first-generation console,
//! written without I/O: every function here computes on plain values, and
//! the caller moves the pins.
//!
//! A card is a flat array of 1024 frames of 128 bytes. A `Transfer` is one
//! operation on it (a status request, a read or a write of a range of
//! frames) and says which command buffer goes out next. An `Exchange`
//! clocks one command buffer out and the card's reply in, bit by bit, and
//! says which pin operation comes next.

pub mod address;
pub mod checksum;
pub mod cli;
pub mod command;
pub mod errors;
pub mod response;
pub mod scan;
pub mod transfer;
pub mod transfer_laws;
pub mod wire;
pub mod wire_laws;

pub use address::{block_ofs, frame_ofs};
pub use checksum::calc_checksum;
pub use cli::{Cmd, Opt, ReadWriteOpt};
pub use scan::find_haystack_end;
pub use transfer::{get_status, read_all_frames, read_at, read_frame, write_at, write_frame};
pub use wire::send_receive;
