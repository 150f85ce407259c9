//! An implementation of the EnOcean Serial Protocol 3 (ESP3).

use vstd::prelude::*;

pub mod codes;
pub mod wire;
pub mod event;
pub mod command;
pub mod smart_ack;
pub mod command24;
pub mod packet;
pub mod response;
pub mod serial;
pub mod erp;
pub mod conversation;

verus! {

/// The (constant) length of an ESP3 packet header: the sync byte, the data length (two bytes),
/// the optional data length, the packet type and the CRC8 checksum of the header.
pub const HEADER_LENGTH: usize = 1 + 2 + 1 + 1 + 1;

/// The maximum length of the (non-optional) data in an ESP3 packet.
///
/// The data length field can store values of up to 0xFFFF; to save memory, longer data is not
/// supported.
pub const MAX_DATA_LENGTH: usize = 0x0FFF;

/// The maximum length of the optional data in an ESP3 packet.
pub const MAX_OPTIONAL_LENGTH: usize = 0xFF;

/// The (constant) length of an ESP3 packet footer: the CRC8 checksum of the data and the
/// optional data.
pub const FOOTER_LENGTH: usize = 1;

/// The minimum length of an ESP3 packet: a header and a footer around empty data.
pub const MIN_ESP3_PACKET_LENGTH: usize = HEADER_LENGTH + FOOTER_LENGTH;

/// The maximum length of an ESP3 packet: the header, the data, the optional data and the footer,
/// in this order.
pub const MAX_ESP3_PACKET_LENGTH: usize =
    HEADER_LENGTH + MAX_DATA_LENGTH + MAX_OPTIONAL_LENGTH + FOOTER_LENGTH;

/// The byte used for synchronization.
pub const SYNC_BYTE: u8 = 0x55;

/// The maximum length of the data that follows a one-byte code.
pub const DATA_AFTER_CODE_LENGTH: usize = 4094;

/// The maximum length of the data written by a memory-write command (the data minus the command
/// code, the memory type and the four-byte address).
pub const MEMORY_WRITE_LENGTH: usize = 4089;

/// The maximum length of the message in a remote management command (the data minus the
/// function and manufacturer codes).
pub const REMOTE_MESSAGE_LENGTH: usize = 4091;

/// The maximum number of sub-telegram entries in a radio sub-telegram packet (three bytes each,
/// after nine other optional bytes).
pub const MAX_SUB_TELEGRAM_INFOS: usize = 82;

/// The maximum number of filter entries in a filter list response (five bytes each).
pub const MAX_FILTER_ENTRIES: usize = 818;

/// The maximum number of learned clients in a learned clients response (nine bytes each).
pub const MAX_LEARNED_CLIENTS: usize = 454;

} // verus!

