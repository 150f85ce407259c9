//! ESP3 packets: their contents, how they are framed and how frames are decoded.

use vstd::prelude::*;
use crate::crc8::{crc8_ccitt, spec_crc8_ccitt};
use crate::max_array::MaxArray;
use crate::max_array_ext::{self, MaxArrayPushIntExt};
use crate::esp3::{
    HEADER_LENGTH, FOOTER_LENGTH, MIN_ESP3_PACKET_LENGTH, MAX_DATA_LENGTH, MAX_OPTIONAL_LENGTH,
    MAX_ESP3_PACKET_LENGTH, SYNC_BYTE, DATA_AFTER_CODE_LENGTH, REMOTE_MESSAGE_LENGTH,
    MAX_SUB_TELEGRAM_INFOS, MEMORY_WRITE_LENGTH,
};
use crate::esp3::codes::{SecurityLevel, ReturnCode, OneByteBoolean};
use crate::esp3::event::EventData;
use crate::esp3::command::CommandData;
use crate::esp3::smart_ack::SmartAckData;
use crate::esp3::command24::Command24Data;
use crate::esp3::wire::{self, push_bytes, read_u16_be, read_u32_be};

verus! {

/// Information about a single sub-telegram.
#[derive(Clone, Copy, Debug, PartialEq, Eq, Structural, Hash, PartialOrd, Ord)]
pub struct SubTelegramInfo {
    pub tick: u8,
    pub dbm: u8,
    pub status: u8,
}

/// The bytes of a list of sub-telegram entries: tick, dBm and status of each, in order.
pub open spec fn sub_telegram_info_bytes(infos: Seq<SubTelegramInfo>) -> Seq<u8>
    decreases infos.len(),
{
    if infos.len() == 0 {
        Seq::empty()
    } else {
        let last = infos.last();
        sub_telegram_info_bytes(infos.drop_last()).push(last.tick).push(last.dbm).push(last.status)
    }
}

/// The sub-telegram entries that follow the nine fixed optional bytes of a radio sub-telegram
/// packet: one entry per complete group of three bytes.
pub open spec fn sub_telegram_infos_at(opt: Seq<u8>) -> Seq<SubTelegramInfo> {
    let count: int = if opt.len() >= 9 { (opt.len() - 9) / 3 } else { 0 };
    Seq::new(
        count as nat,
        |k: int| SubTelegramInfo { tick: opt[9 + 3 * k], dbm: opt[10 + 3 * k], status: opt[11 + 3 * k] },
    )
}

/// The contents of an ESP3 data packet.
#[derive(Clone, Debug, PartialEq, Eq, Hash, PartialOrd, Ord)]
pub enum Esp3Packet {
    RadioErp1 {
        radio_telegram: MaxArray<u8, MAX_DATA_LENGTH>,
        opt_sub_telegram_number: Option<u8>,
        opt_destination_id: Option<u32>,
        opt_dbm: Option<u8>,
        opt_security_level: Option<SecurityLevel>,
    },
    Response {
        return_code: ReturnCode,
        response_data: MaxArray<u8, DATA_AFTER_CODE_LENGTH>,
    },
    RadioSubTelegram {
        radio_telegram: MaxArray<u8, MAX_DATA_LENGTH>,
        opt_sub_telegram_number: Option<u8>,
        opt_destination_id: Option<u32>,
        opt_dbm: Option<u8>,
        opt_security_level: Option<SecurityLevel>,
        opt_timestamp: Option<u16>,
        opt_sub_telegram_info: MaxArray<SubTelegramInfo, MAX_SUB_TELEGRAM_INFOS>,
    },
    Event(EventData),
    CommonCommand(CommandData),
    SmartAckCommand(SmartAckData),
    RemoteManCommand {
        function: u16,
        manufacturer: u16,
        message: MaxArray<u8, REMOTE_MESSAGE_LENGTH>,
        opt_destination_id: Option<u32>,
        opt_source_id: Option<u32>,
        opt_dbm: Option<u8>,
        opt_send_with_delay: Option<OneByteBoolean>,
    },
    RadioMessage {
        rorg: u8,
        data: MaxArray<u8, DATA_AFTER_CODE_LENGTH>,
        opt_destination_id: Option<u32>,
        opt_source_id: Option<u32>,
        opt_dbm: Option<u8>,
        opt_security_level: Option<SecurityLevel>,
    },
    RadioErp2 {
        data: MaxArray<u8, MAX_DATA_LENGTH>,
        opt_sub_telegram_number: Option<u8>,
        opt_dbm: Option<u8>,
        opt_security_level: Option<SecurityLevel>,
    },
    CommandAccepted {
        is_blocking: OneByteBoolean,
        estimated_time_ms: u16,
    },
    Radio802Dot15Dot4 {
        raw_data: MaxArray<u8, MAX_DATA_LENGTH>,
        opt_rssi: Option<u8>,
    },
    Command24(Command24Data),
    Unknown {
        packet_type: u8,
        data: MaxArray<u8, MAX_DATA_LENGTH>,
        optional_data: MaxArray<u8, MAX_OPTIONAL_LENGTH>,
    },
}

/// The data length announced in the header of a frame.
pub open spec fn frame_data_length(bytes: Seq<u8>) -> nat {
    (bytes[1] as nat) * 0x100 + (bytes[2] as nat)
}

/// The optional data length announced in the header of a frame.
pub open spec fn frame_optional_length(bytes: Seq<u8>) -> nat {
    bytes[3] as nat
}

/// The data of a frame.
pub open spec fn frame_data(bytes: Seq<u8>) -> Seq<u8> {
    bytes.subrange(HEADER_LENGTH as int, HEADER_LENGTH + frame_data_length(bytes))
}

/// The optional data of a frame.
pub open spec fn frame_optional(bytes: Seq<u8>) -> Seq<u8> {
    bytes.subrange(
        HEADER_LENGTH + frame_data_length(bytes),
        HEADER_LENGTH + frame_data_length(bytes) + frame_optional_length(bytes),
    )
}

/// Whether `bytes` is one well-formed ESP3 frame: it starts with the sync byte, its length is
/// what the header announces, and both checksums match.
pub open spec fn frame_ok(bytes: Seq<u8>) -> bool {
    &&& bytes.len() >= MIN_ESP3_PACKET_LENGTH
    &&& bytes[0] == SYNC_BYTE
    &&& bytes.len() == HEADER_LENGTH + frame_data_length(bytes) + frame_optional_length(bytes)
        + FOOTER_LENGTH
    &&& spec_crc8_ccitt(bytes.subrange(1, 5)) == bytes[5]
    &&& spec_crc8_ccitt(
        bytes.subrange(
            HEADER_LENGTH as int,
            HEADER_LENGTH + frame_data_length(bytes) + frame_optional_length(bytes),
        ),
    ) == bytes[HEADER_LENGTH + frame_data_length(bytes) + frame_optional_length(bytes)]
}

/// The frame that [Esp3Packet::to_packet] writes for a packet of the given type, data and
/// optional data.
///
/// The header holds the sync byte, the data length, the optional data length, the packet type
/// and the checksum of the four bytes after the sync byte. The data and the optional data
/// follow in order, and the final checksum covers the data and the optional data.
pub open spec fn frame_spec(packet_type: u8, data: Seq<u8>, opt: Seq<u8>) -> Seq<u8> {
    let h0 = (Seq::<u8>::empty().push(SYNC_BYTE) + max_array_ext::be_u16_bytes(data.len() as u16))
        .push(opt.len() as u8).push(packet_type);
    let h = h0.push(spec_crc8_ccitt(h0.subrange(1, 5)));
    (h + data + opt).push(spec_crc8_ccitt(data + opt))
}

/// Appends the bytes of the given sub-telegram entries to `buf`.
fn push_sub_telegram_infos(
    buf: &mut MaxArray<u8, MAX_OPTIONAL_LENGTH>,
    infos: &MaxArray<SubTelegramInfo, MAX_SUB_TELEGRAM_INFOS>,
)
    requires
        old(buf)@.len() <= 9,
    ensures
        final(buf)@ == old(buf)@ + sub_telegram_info_bytes(infos@),
{
    proof { use_type_invariant(infos); }
    let slice = infos.as_slice();
    let mut i: usize = 0;
    while i < slice.len()
        invariant
            i <= slice@.len(),
            slice@ == infos@,
            infos@.len() <= MAX_SUB_TELEGRAM_INFOS,
            old(buf)@.len() <= 9,
            buf@ == old(buf)@ + sub_telegram_info_bytes(slice@.subrange(0, i as int)),
            buf@.len() == old(buf)@.len() + 3 * i,
        decreases slice@.len() - i,
    {
        let info = slice[i];
        buf.push(info.tick).unwrap();
        buf.push(info.dbm).unwrap();
        buf.push(info.status).unwrap();
        proof {
            let prefix = slice@.subrange(0, i + 1);
            assert(prefix.drop_last() == slice@.subrange(0, i as int));
            assert(prefix.last() == info);
        }
        i += 1;
    }
    assert(slice@.subrange(0, slice@.len() as int) == slice@);
}

/// Whether an optional security level survives being written as its byte and read back.
pub open spec fn security_round_trips(level: Option<SecurityLevel>) -> bool {
    match level {
        Some(l) => SecurityLevel::from_byte_spec(l.to_byte_spec()) == l,
        None => true,
    }
}

/// The bytes of a list of sub-telegram entries hold three bytes per entry, in order.
proof fn lemma_sub_telegram_info_bytes(infos: Seq<SubTelegramInfo>)
    ensures
        sub_telegram_info_bytes(infos).len() == 3 * infos.len(),
        forall|k: int| 0 <= k < infos.len() ==> {
            let b = sub_telegram_info_bytes(infos);
            &&& #[trigger] infos[k].tick == b[3 * k]
            &&& infos[k].dbm == b[3 * k + 1]
            &&& infos[k].status == b[3 * k + 2]
        },
    decreases infos.len(),
{
    if infos.len() > 0 {
        lemma_sub_telegram_info_bytes(infos.drop_last());
        let prev = sub_telegram_info_bytes(infos.drop_last());
        let b = sub_telegram_info_bytes(infos);
        assert forall|k: int| 0 <= k < infos.len() implies {
            &&& #[trigger] infos[k].tick == b[3 * k]
            &&& infos[k].dbm == b[3 * k + 1]
            &&& infos[k].status == b[3 * k + 2]
        } by {
            if k < infos.len() - 1 {
                assert(infos.drop_last()[k] == infos[k]);
                assert(b[3 * k] == prev[3 * k]);
                assert(b[3 * k + 1] == prev[3 * k + 1]);
                assert(b[3 * k + 2] == prev[3 * k + 2]);
            }
        }
    }
}

/// Reading the sub-telegram entries after nine fixed optional bytes gives back the entries whose
/// bytes follow them.
proof fn lemma_sub_telegram_infos_roundtrip(fixed: Seq<u8>, infos: Seq<SubTelegramInfo>)
    requires
        fixed.len() == 9,
    ensures
        sub_telegram_infos_at(fixed + sub_telegram_info_bytes(infos)) == infos,
{
    lemma_sub_telegram_info_bytes(infos);
    let b = sub_telegram_info_bytes(infos);
    let opt = fixed + b;
    let r = sub_telegram_infos_at(opt);
    assert((opt.len() - 9) / 3 == infos.len()) by (nonlinear_arith)
        requires
            opt.len() == 9 + 3 * infos.len(),
    ;
    assert forall|k: int| 0 <= k < infos.len() implies #[trigger] r[k] == infos[k] by {
        assert(infos[k].tick == b[3 * k]);
        assert(opt[9 + 3 * k] == b[3 * k]);
        assert(opt[10 + 3 * k] == b[3 * k + 1]);
        assert(opt[11 + 3 * k] == b[3 * k + 2]);
    }
    assert(r =~= infos);
}

impl Esp3Packet {
    /// The packet type code of this packet.
    pub open spec fn packet_type_spec(self) -> u8 {
        match self {
            Esp3Packet::RadioErp1 { .. } => 1,
            Esp3Packet::Response { .. } => 2,
            Esp3Packet::RadioSubTelegram { .. } => 3,
            Esp3Packet::Event(_) => 4,
            Esp3Packet::CommonCommand(_) => 5,
            Esp3Packet::SmartAckCommand(_) => 6,
            Esp3Packet::RemoteManCommand { .. } => 7,
            Esp3Packet::RadioMessage { .. } => 9,
            Esp3Packet::RadioErp2 { .. } => 10,
            Esp3Packet::CommandAccepted { .. } => 12,
            Esp3Packet::Radio802Dot15Dot4 { .. } => 16,
            Esp3Packet::Command24(_) => 17,
            Esp3Packet::Unknown { packet_type, .. } => packet_type,
        }
    }

    /// Whether a variant of this type (other than `Unknown`) has the given packet type code.
    pub open spec fn is_known_type(t: u8) -> bool {
        t == 1 || t == 2 || t == 3 || t == 4 || t == 5 || t == 6 || t == 7 || t == 9 || t == 10
            || t == 12 || t == 16 || t == 17
    }

    /// The data bytes of this packet.
    pub open spec fn data_spec(self) -> Seq<u8> {
        match self {
            Esp3Packet::RadioErp1 { radio_telegram, .. } => radio_telegram@,
            Esp3Packet::Response { return_code, response_data } => {
                Seq::<u8>::empty().push(return_code.to_byte_spec()) + response_data@
            },
            Esp3Packet::RadioSubTelegram { radio_telegram, .. } => radio_telegram@,
            Esp3Packet::Event(event_data) => event_data.data_spec(),
            Esp3Packet::CommonCommand(command_data) => command_data.data_spec(),
            Esp3Packet::SmartAckCommand(smart_ack_data) => smart_ack_data.data_spec(),
            Esp3Packet::RemoteManCommand { function, manufacturer, message, .. } => {
                Seq::<u8>::empty() + max_array_ext::be_u16_bytes(function)
                    + max_array_ext::be_u16_bytes(manufacturer) + message@
            },
            Esp3Packet::RadioMessage { rorg, data, .. } => Seq::<u8>::empty().push(rorg) + data@,
            Esp3Packet::RadioErp2 { data, .. } => data@,
            Esp3Packet::CommandAccepted { is_blocking, estimated_time_ms } => {
                Seq::<u8>::empty().push(is_blocking.to_byte_spec())
                    + max_array_ext::be_u16_bytes(estimated_time_ms)
            },
            Esp3Packet::Radio802Dot15Dot4 { raw_data, .. } => raw_data@,
            Esp3Packet::Command24(command_24_data) => command_24_data.data_spec(),
            Esp3Packet::Unknown { data, .. } => data@,
        }
    }

    /// The optional bytes of this packet, or `None` if an optional field is set while an
    /// earlier one is not.
    pub open spec fn optional_spec(self) -> Option<Seq<u8>> {
        match self {
            Esp3Packet::RadioErp1 { opt_sub_telegram_number, opt_destination_id, opt_dbm, opt_security_level, .. } => {
                let s0 = Seq::<u8>::empty();
                let s1 = match opt_sub_telegram_number { Some(x) => s0.push(x), None => s0 };
                let s2 = match opt_destination_id { Some(x) => (s1 + max_array_ext::be_u32_bytes(x)), None => s1 };
                let s3 = match opt_dbm { Some(x) => s2.push(x), None => s2 };
                let s4 = match opt_security_level { Some(x) => s3.push(x.to_byte_spec()), None => s3 };
                if (opt_sub_telegram_number is None && (opt_destination_id is Some || opt_dbm is Some || opt_security_level is Some)) || (opt_destination_id is None && (opt_dbm is Some || opt_security_level is Some)) || (opt_dbm is None && (opt_security_level is Some)) {
                    None
                } else {
                    Some(s4)
                }
            },
            Esp3Packet::RadioSubTelegram { opt_sub_telegram_number, opt_destination_id, opt_dbm, opt_security_level, opt_timestamp, opt_sub_telegram_info, .. } => {
                let s0 = Seq::<u8>::empty();
                let s1 = match opt_sub_telegram_number { Some(x) => s0.push(x), None => s0 };
                let s2 = match opt_destination_id { Some(x) => (s1 + max_array_ext::be_u32_bytes(x)), None => s1 };
                let s3 = match opt_dbm { Some(x) => s2.push(x), None => s2 };
                let s4 = match opt_security_level { Some(x) => s3.push(x.to_byte_spec()), None => s3 };
                let s5 = match opt_timestamp { Some(x) => (s4 + max_array_ext::be_u16_bytes(x)), None => s4 };
                if (opt_sub_telegram_number is None && (opt_destination_id is Some || opt_dbm is Some || opt_security_level is Some || opt_timestamp is Some || opt_sub_telegram_info@.len() > 0)) || (opt_destination_id is None && (opt_dbm is Some || opt_security_level is Some || opt_timestamp is Some || opt_sub_telegram_info@.len() > 0)) || (opt_dbm is None && (opt_security_level is Some || opt_timestamp is Some || opt_sub_telegram_info@.len() > 0)) || (opt_security_level is None && (opt_timestamp is Some || opt_sub_telegram_info@.len() > 0)) || (opt_timestamp is None && (opt_sub_telegram_info@.len() > 0)) {
                    None
                } else {
                    Some(s5 + sub_telegram_info_bytes(opt_sub_telegram_info@))
                }
            },
            Esp3Packet::RemoteManCommand { opt_destination_id, opt_source_id, opt_dbm, opt_send_with_delay, .. } => {
                let s0 = Seq::<u8>::empty();
                let s1 = match opt_destination_id { Some(x) => (s0 + max_array_ext::be_u32_bytes(x)), None => s0 };
                let s2 = match opt_source_id { Some(x) => (s1 + max_array_ext::be_u32_bytes(x)), None => s1 };
                let s3 = match opt_dbm { Some(x) => s2.push(x), None => s2 };
                let s4 = match opt_send_with_delay { Some(x) => s3.push(x.to_byte_spec()), None => s3 };
                if (opt_destination_id is None && (opt_source_id is Some || opt_dbm is Some || opt_send_with_delay is Some)) || (opt_source_id is None && (opt_dbm is Some || opt_send_with_delay is Some)) || (opt_dbm is None && (opt_send_with_delay is Some)) {
                    None
                } else {
                    Some(s4)
                }
            },
            Esp3Packet::RadioMessage { opt_destination_id, opt_source_id, opt_dbm, opt_security_level, .. } => {
                let s0 = Seq::<u8>::empty();
                let s1 = match opt_destination_id { Some(x) => (s0 + max_array_ext::be_u32_bytes(x)), None => s0 };
                let s2 = match opt_source_id { Some(x) => (s1 + max_array_ext::be_u32_bytes(x)), None => s1 };
                let s3 = match opt_dbm { Some(x) => s2.push(x), None => s2 };
                let s4 = match opt_security_level { Some(x) => s3.push(x.to_byte_spec()), None => s3 };
                if (opt_destination_id is None && (opt_source_id is Some || opt_dbm is Some || opt_security_level is Some)) || (opt_source_id is None && (opt_dbm is Some || opt_security_level is Some)) || (opt_dbm is None && (opt_security_level is Some)) {
                    None
                } else {
                    Some(s4)
                }
            },
            Esp3Packet::RadioErp2 { opt_sub_telegram_number, opt_dbm, opt_security_level, .. } => {
                let s0 = Seq::<u8>::empty();
                let s1 = match opt_sub_telegram_number { Some(x) => s0.push(x), None => s0 };
                let s2 = match opt_dbm { Some(x) => s1.push(x), None => s1 };
                let s3 = match opt_security_level { Some(x) => s2.push(x.to_byte_spec()), None => s2 };
                if (opt_sub_telegram_number is None && (opt_dbm is Some || opt_security_level is Some)) || (opt_dbm is None && (opt_security_level is Some)) {
                    None
                } else {
                    Some(s3)
                }
            },
            Esp3Packet::Radio802Dot15Dot4 { opt_rssi, .. } => {
                let s0 = Seq::<u8>::empty();
                let s1 = match opt_rssi { Some(x) => s0.push(x), None => s0 };
                Some(s1)
            },
            Esp3Packet::Event(event_data) => event_data.optional_spec(),
            Esp3Packet::CommonCommand(command_data) => command_data.optional_spec(),
            Esp3Packet::SmartAckCommand(smart_ack_data) => smart_ack_data.optional_spec(),
            Esp3Packet::Command24(command_24_data) => command_24_data.optional_spec(),
            Esp3Packet::Unknown { optional_data, .. } => Some(optional_data@),
            _ => Some(Seq::<u8>::empty()),
        }
    }

    /// Whether the optional part of this packet can be encoded without overflowing the optional
    /// data: an event packet may not carry 255 bytes of unknown optional data, because the event
    /// code is written in front of them.
    pub open spec fn optional_fits(self) -> bool {
        self matches Esp3Packet::Event(EventData::Unknown { optional_data, .. })
            ==> optional_data@.len() < MAX_OPTIONAL_LENGTH
    }

    /// The frame that encodes this packet, or `None` if its optional part cannot be encoded.
    pub open spec fn packet_spec(self) -> Option<Seq<u8>> {
        match self.optional_spec() {
            Some(opt) => Some(frame_spec(self.packet_type_spec(), self.data_spec(), opt)),
            None => None,
        }
    }

    /// Whether a packet of the given type, data and optional data decodes (when the frame is
    /// well-formed).
    pub open spec fn accepts(wire_type: u8, wire_data: Seq<u8>, wire_opt: Seq<u8>) -> bool {
        if wire_type == 2 || wire_type == 9 {
            wire_data.len() >= 1
        } else if wire_type == 4 {
            wire_data.len() >= 1 && EventData::accepts(wire_data[0], (wire_data.len() - 1) as nat)
        } else if wire_type == 5 {
            wire_data.len() >= 1 && CommandData::accepts(wire_data[0], (wire_data.len() - 1) as nat)
        } else if wire_type == 6 {
            wire_data.len() >= 1 && SmartAckData::accepts(wire_data[0], (wire_data.len() - 1) as nat)
        } else if wire_type == 17 {
            wire_data.len() >= 1 && Command24Data::accepts(wire_data[0], (wire_data.len() - 1) as nat)
        } else if wire_type == 7 {
            wire_data.len() >= 4
        } else if wire_type == 12 {
            wire_data.len() == 3
        } else {
            true
        }
    }

    /// Whether decoding a packet of the given type, data and optional data fits the capacities
    /// of the arrays it fills.
    pub open spec fn fits_capacity(wire_type: u8, wire_data: Seq<u8>, wire_opt: Seq<u8>) -> bool {
        &&& wire_opt.len() <= MAX_OPTIONAL_LENGTH
        &&& (wire_type == 4 && wire_data.len() >= 1) ==> EventData::fits_capacity(
            wire_data[0],
            (wire_data.len() - 1) as nat,
            wire_opt.len(),
        )
        &&& (wire_type == 5 && wire_data.len() >= 1) ==> CommandData::fits_capacity(
            wire_data[0],
            (wire_data.len() - 1) as nat,
            wire_opt.len(),
        )
        &&& (wire_type == 6 && wire_data.len() >= 1) ==> SmartAckData::fits_capacity(
            wire_data[0],
            (wire_data.len() - 1) as nat,
            wire_opt.len(),
        )
        &&& (wire_type == 17 && wire_data.len() >= 1) ==> Command24Data::fits_capacity(
            wire_data[0],
            (wire_data.len() - 1) as nat,
            wire_opt.len(),
        )
        &&& !(wire_type == 4 || wire_type == 5 || wire_type == 6 || wire_type == 12
            || wire_type == 17) ==> wire_data.len() <= MAX_DATA_LENGTH
    }

    /// Whether this packet is what a packet of the given type, data and optional data decodes
    /// to.
    pub open spec fn decoded_from(self, wire_type: u8, wire_data: Seq<u8>, wire_opt: Seq<u8>) -> bool {
        match self {
            Esp3Packet::RadioErp1 {
                radio_telegram,
                opt_sub_telegram_number,
                opt_destination_id,
                opt_dbm,
                opt_security_level,
            } => {
                &&& wire_type == 1
                &&& radio_telegram@ == wire_data
                &&& opt_sub_telegram_number == (if wire_opt.len() >= 1 { Some(wire_opt[0]) } else { None })
                &&& opt_destination_id == (if wire_opt.len() >= 5 { Some(wire::be_u32_at(wire_opt, 1)) } else { None })
                &&& opt_dbm == (if wire_opt.len() >= 6 { Some(wire_opt[5]) } else { None })
                &&& opt_security_level == (if wire_opt.len() >= 7 { Some(SecurityLevel::from_byte_spec(wire_opt[6])) } else { None })
            },
            Esp3Packet::Response { return_code, response_data } => {
                &&& wire_type == 2
                &&& wire_data.len() >= 1
                &&& return_code == ReturnCode::from_byte_spec(wire_data[0])
                &&& response_data@ == wire_data.drop_first()
            },
            Esp3Packet::RadioSubTelegram {
                radio_telegram,
                opt_sub_telegram_number,
                opt_destination_id,
                opt_dbm,
                opt_security_level,
                opt_timestamp,
                opt_sub_telegram_info,
            } => {
                &&& wire_type == 3
                &&& radio_telegram@ == wire_data
                &&& opt_sub_telegram_number == (if wire_opt.len() >= 1 { Some(wire_opt[0]) } else { None })
                &&& opt_destination_id == (if wire_opt.len() >= 5 { Some(wire::be_u32_at(wire_opt, 1)) } else { None })
                &&& opt_dbm == (if wire_opt.len() >= 6 { Some(wire_opt[5]) } else { None })
                &&& opt_security_level == (if wire_opt.len() >= 7 { Some(SecurityLevel::from_byte_spec(wire_opt[6])) } else { None })
                &&& opt_timestamp == (if wire_opt.len() >= 9 { Some(wire::be_u16_at(wire_opt, 7)) } else { None })
                &&& opt_sub_telegram_info@ == sub_telegram_infos_at(wire_opt)
            },
            Esp3Packet::Event(event_data) => {
                &&& wire_type == 4
                &&& wire_data.len() >= 1
                &&& event_data.decoded_from(wire_data[0], wire_data.drop_first(), wire_opt)
            },
            Esp3Packet::CommonCommand(command_data) => {
                &&& wire_type == 5
                &&& wire_data.len() >= 1
                &&& command_data.decoded_from(wire_data[0], wire_data.drop_first(), wire_opt)
            },
            Esp3Packet::SmartAckCommand(smart_ack_data) => {
                &&& wire_type == 6
                &&& wire_data.len() >= 1
                &&& smart_ack_data.decoded_from(wire_data[0], wire_data.drop_first(), wire_opt)
            },
            Esp3Packet::RemoteManCommand {
                function,
                manufacturer,
                message,
                opt_destination_id,
                opt_source_id,
                opt_dbm,
                opt_send_with_delay,
            } => {
                &&& wire_type == 7
                &&& wire_data.len() >= 4
                &&& function == wire::be_u16_at(wire_data, 0)
                &&& manufacturer == wire::be_u16_at(wire_data, 2)
                &&& message@ == wire_data.subrange(4, wire_data.len() as int)
                &&& opt_destination_id == (if wire_opt.len() >= 4 { Some(wire::be_u32_at(wire_opt, 0)) } else { None })
                &&& opt_source_id == (if wire_opt.len() >= 8 { Some(wire::be_u32_at(wire_opt, 4)) } else { None })
                &&& opt_dbm == (if wire_opt.len() >= 9 { Some(wire_opt[8]) } else { None })
                &&& opt_send_with_delay == (if wire_opt.len() >= 10 { Some(OneByteBoolean::from_byte_spec(wire_opt[9])) } else { None })
            },
            Esp3Packet::RadioMessage {
                rorg,
                data,
                opt_destination_id,
                opt_source_id,
                opt_dbm,
                opt_security_level,
            } => {
                &&& wire_type == 9
                &&& wire_data.len() >= 1
                &&& rorg == wire_data[0]
                &&& data@ == wire_data.drop_first()
                &&& opt_destination_id == (if wire_opt.len() >= 4 { Some(wire::be_u32_at(wire_opt, 0)) } else { None })
                &&& opt_source_id == (if wire_opt.len() >= 8 { Some(wire::be_u32_at(wire_opt, 4)) } else { None })
                &&& opt_dbm == (if wire_opt.len() >= 9 { Some(wire_opt[8]) } else { None })
                &&& opt_security_level == (if wire_opt.len() >= 10 { Some(SecurityLevel::from_byte_spec(wire_opt[9])) } else { None })
            },
            Esp3Packet::RadioErp2 { data, opt_sub_telegram_number, opt_dbm, opt_security_level } => {
                &&& wire_type == 10
                &&& data@ == wire_data
                &&& opt_sub_telegram_number == (if wire_opt.len() >= 1 { Some(wire_opt[0]) } else { None })
                &&& opt_dbm == (if wire_opt.len() >= 2 { Some(wire_opt[1]) } else { None })
                &&& opt_security_level == (if wire_opt.len() >= 3 { Some(SecurityLevel::from_byte_spec(wire_opt[2])) } else { None })
            },
            Esp3Packet::CommandAccepted { is_blocking, estimated_time_ms } => {
                &&& wire_type == 12
                &&& wire_data.len() == 3
                &&& is_blocking == OneByteBoolean::from_byte_spec(wire_data[0])
                &&& estimated_time_ms == wire::be_u16_at(wire_data, 1)
            },
            Esp3Packet::Radio802Dot15Dot4 { raw_data, opt_rssi } => {
                &&& wire_type == 16
                &&& raw_data@ == wire_data
                &&& opt_rssi == (if wire_opt.len() >= 1 { Some(wire_opt[0]) } else { None })
            },
            Esp3Packet::Command24(command_24_data) => {
                &&& wire_type == 17
                &&& wire_data.len() >= 1
                &&& command_24_data.decoded_from(wire_data[0], wire_data.drop_first(), wire_opt)
            },
            Esp3Packet::Unknown { packet_type, data, optional_data } => {
                &&& packet_type == wire_type
                &&& !Self::is_known_type(wire_type)
                &&& data@ == wire_data
                &&& optional_data@ == wire_opt
            },
        }
    }

    /// The frame that encodes a packet is well-formed (see [frame_ok]): its header carries the
    /// packet type, and between header and footer it holds the data and then the optional data,
    /// in order.
    pub proof fn lemma_frame_layout(self)
        requires
            self.data_spec().len() <= MAX_DATA_LENGTH,
            self.optional_spec() matches Some(o) && o.len() <= MAX_OPTIONAL_LENGTH,
        ensures
            self.packet_spec() matches Some(f) && {
                &&& frame_ok(f)
                &&& f.len() == HEADER_LENGTH + self.data_spec().len()
                    + self.optional_spec().unwrap().len() + FOOTER_LENGTH
                &&& f[4] == self.packet_type_spec()
                &&& frame_data(f) == self.data_spec()
                &&& frame_optional(f) == self.optional_spec().unwrap()
            },
    {
        let d = self.data_spec();
        let o = self.optional_spec().unwrap();
        let len16 = d.len() as u16;
        wire::lemma_u16_roundtrip(len16);
        let lb = max_array_ext::be_u16_bytes(len16);
        let t = self.packet_type_spec();
        let h0 = (Seq::<u8>::empty().push(SYNC_BYTE) + lb).push(o.len() as u8).push(t);
        let h = h0.push(spec_crc8_ccitt(h0.subrange(1, 5)));
        let body = h + d + o;
        let f = frame_spec(t, d, o);
        assert(f == body.push(spec_crc8_ccitt(d + o)));
        assert(h.len() == 6);
        assert(f.len() == HEADER_LENGTH + d.len() + o.len() + FOOTER_LENGTH);
        assert(f[0] == SYNC_BYTE);
        assert(f[1] == lb[0] && f[2] == lb[1]);
        assert(frame_data_length(f) == d.len());
        assert(frame_optional_length(f) == o.len());
        assert(f[4] == t);
        assert(f.subrange(1, 5) =~= h0.subrange(1, 5));
        assert(f[5] == spec_crc8_ccitt(h0.subrange(1, 5)));
        assert(frame_data(f) =~= d);
        assert(frame_optional(f) =~= o);
        assert(f.subrange(HEADER_LENGTH as int, HEADER_LENGTH + d.len() + o.len()) =~= d + o);
        assert(f[HEADER_LENGTH + d.len() + o.len()] == spec_crc8_ccitt(d + o));
    }

    /// Decoding the frame that encodes a packet gives back that packet: the frame is
    /// well-formed, its contents fit the arrays they fill and are accepted, and the packet is
    /// what they decode to.
    pub proof fn lemma_frame_round_trip(self)
        requires
            self.round_trips(),
            self.data_spec().len() <= MAX_DATA_LENGTH,
            self.optional_spec() matches Some(o) && o.len() <= MAX_OPTIONAL_LENGTH,
        ensures
            self.packet_spec() matches Some(f) && {
                &&& frame_ok(f)
                &&& Self::fits_capacity(f[4], frame_data(f), frame_optional(f))
                &&& Self::accepts(f[4], frame_data(f), frame_optional(f))
                &&& self.decoded_from(f[4], frame_data(f), frame_optional(f))
            },
    {
        self.lemma_frame_layout();
        self.lemma_encoded_decodes();
    }

    /// The data of a decoded packet is the data it was decoded from, and its type is the type
    /// it was decoded from (for the contents whose decoding reads every data byte and keeps
    /// every bit of it).
    pub proof fn lemma_decoded_data(self, wire_type: u8, wire_data: Seq<u8>, wire_opt: Seq<u8>)
        requires
            self.decoded_from(wire_type, wire_data, wire_opt),
            self matches Esp3Packet::Event(e) ==> (e is SmartAckConfirmLearn ==> wire_data[1] < 16),
            self matches Esp3Packet::CommonCommand(c) ==> !(c is CoWrSecurity),
            self matches Esp3Packet::SmartAckCommand(c) ==> !(c is SaWrClientLearnRequest),
        ensures
            self.data_spec() == wire_data,
            self.packet_type_spec() == wire_type,
    {
        match self {
            Esp3Packet::Response { .. } => {
                ReturnCode::lemma_byte_roundtrip(wire_data[0]);
                assert(self.data_spec() =~= wire_data);
            },
            Esp3Packet::Event(e) => {
                e.lemma_decoded_encodes(wire_data[0], wire_data.drop_first(), wire_opt);
                assert(self.data_spec() =~= wire_data);
            },
            Esp3Packet::CommonCommand(c) => {
                c.lemma_decoded_encodes(wire_data[0], wire_data.drop_first(), wire_opt);
                assert(self.data_spec() =~= wire_data);
            },
            Esp3Packet::SmartAckCommand(c) => {
                c.lemma_decoded_encodes(wire_data[0], wire_data.drop_first(), wire_opt);
                assert(self.data_spec() =~= wire_data);
            },
            Esp3Packet::Command24(c) => {
                c.lemma_decoded_encodes(wire_data[0], wire_data.drop_first(), wire_opt);
                assert(self.data_spec() =~= wire_data);
            },
            Esp3Packet::RemoteManCommand { .. } => {
                wire::lemma_u16_bytes_of(wire_data.subrange(0, 2));
                wire::lemma_u16_bytes_of(wire_data.subrange(2, 4));
                assert(self.data_spec() =~= wire_data);
            },
            Esp3Packet::RadioMessage { .. } => {
                assert(self.data_spec() =~= wire_data);
            },
            Esp3Packet::CommandAccepted { .. } => {
                OneByteBoolean::lemma_byte_roundtrip(wire_data[0]);
                wire::lemma_u16_bytes_of(wire_data.subrange(1, 3));
                assert(self.data_spec() =~= wire_data);
            },
            _ => {},
        }
    }

    /// Whether encoding this packet and decoding its parts gives back this packet: every field
    /// holds a value that its bytes decode to, and an unknown packet carries a type code that no
    /// other variant has.
    pub open spec fn round_trips(self) -> bool {
        match self {
            Esp3Packet::RadioErp1 { opt_security_level, .. } => security_round_trips(opt_security_level),
            Esp3Packet::Response { return_code, .. } => {
                ReturnCode::from_byte_spec(return_code.to_byte_spec()) == return_code
            },
            Esp3Packet::RadioSubTelegram { opt_security_level, .. } => security_round_trips(opt_security_level),
            Esp3Packet::Event(event_data) => event_data.round_trips(),
            Esp3Packet::CommonCommand(command_data) => command_data.round_trips(),
            Esp3Packet::SmartAckCommand(smart_ack_data) => smart_ack_data.round_trips(),
            Esp3Packet::RemoteManCommand { opt_send_with_delay, .. } => match opt_send_with_delay {
                Some(b) => OneByteBoolean::from_byte_spec(b.to_byte_spec()) == b,
                None => true,
            },
            Esp3Packet::RadioMessage { opt_security_level, .. } => security_round_trips(opt_security_level),
            Esp3Packet::RadioErp2 { opt_security_level, .. } => security_round_trips(opt_security_level),
            Esp3Packet::CommandAccepted { is_blocking, .. } => {
                OneByteBoolean::from_byte_spec(is_blocking.to_byte_spec()) == is_blocking
            },
            Esp3Packet::Radio802Dot15Dot4 { .. } => true,
            Esp3Packet::Command24(command_24_data) => command_24_data.round_trips(),
            Esp3Packet::Unknown { packet_type, .. } => !Self::is_known_type(packet_type),
        }
    }

    /// Decoding the type, data and optional data of an encoded packet gives back that packet:
    /// the parts are accepted, and the packet is what they decode to.
    pub proof fn lemma_encoded_decodes(self)
        requires
            self.round_trips(),
            self.optional_spec() is Some,
        ensures
            Self::accepts(self.packet_type_spec(), self.data_spec(), self.optional_spec().unwrap()),
            self.decoded_from(self.packet_type_spec(), self.data_spec(), self.optional_spec().unwrap()),
    {
        let t = self.packet_type_spec();
        let d = self.data_spec();
        let o = self.optional_spec().unwrap();
        match self {
            Esp3Packet::RadioErp1 { opt_destination_id, .. } => {
                if let Some(x) = opt_destination_id {
                    wire::lemma_u32_roundtrip(x);
                    assert(o.subrange(1, 5) == max_array_ext::be_u32_bytes(x));
                }
            },
            Esp3Packet::Response { response_data, .. } => {
                assert(d.drop_first() =~= response_data@);
            },
            Esp3Packet::RadioSubTelegram { opt_destination_id, opt_timestamp, opt_sub_telegram_info, .. } => {
                if let Some(x) = opt_destination_id {
                    wire::lemma_u32_roundtrip(x);
                    assert(o.subrange(1, 5) == max_array_ext::be_u32_bytes(x));
                }
                if let Some(x) = opt_timestamp {
                    wire::lemma_u16_roundtrip(x);
                    assert(o.subrange(7, 9) == max_array_ext::be_u16_bytes(x));
                    lemma_sub_telegram_infos_roundtrip(o.subrange(0, 9), opt_sub_telegram_info@);
                    assert(o =~= o.subrange(0, 9) + sub_telegram_info_bytes(opt_sub_telegram_info@));
                } else {
                    assert(opt_sub_telegram_info@ =~= Seq::<SubTelegramInfo>::empty());
                    assert(sub_telegram_infos_at(o) =~= Seq::<SubTelegramInfo>::empty());
                }
            },
            Esp3Packet::Event(e) => {
                e.lemma_encoded_decodes();
                assert(d[0] == e.code_spec());
            },
            Esp3Packet::CommonCommand(c) => {
                c.lemma_encoded_decodes();
                assert(d[0] == c.code_spec());
            },
            Esp3Packet::SmartAckCommand(c) => {
                c.lemma_encoded_decodes();
                assert(d[0] == c.code_spec());
            },
            Esp3Packet::Command24(c) => {
                c.lemma_encoded_decodes();
                assert(d[0] == c.code_spec());
            },
            Esp3Packet::RemoteManCommand { function, manufacturer, message, opt_destination_id, opt_source_id, .. } => {
                wire::lemma_u16_roundtrip(function);
                wire::lemma_u16_roundtrip(manufacturer);
                assert(d.subrange(0, 2) == max_array_ext::be_u16_bytes(function));
                assert(d.subrange(2, 4) == max_array_ext::be_u16_bytes(manufacturer));
                assert(d.subrange(4, d.len() as int) =~= message@);
                if let Some(x) = opt_destination_id {
                    wire::lemma_u32_roundtrip(x);
                    assert(o.subrange(0, 4) == max_array_ext::be_u32_bytes(x));
                }
                if let Some(x) = opt_source_id {
                    wire::lemma_u32_roundtrip(x);
                    assert(o.subrange(4, 8) == max_array_ext::be_u32_bytes(x));
                }
            },
            Esp3Packet::RadioMessage { data, opt_destination_id, opt_source_id, .. } => {
                assert(d.drop_first() =~= data@);
                if let Some(x) = opt_destination_id {
                    wire::lemma_u32_roundtrip(x);
                    assert(o.subrange(0, 4) == max_array_ext::be_u32_bytes(x));
                }
                if let Some(x) = opt_source_id {
                    wire::lemma_u32_roundtrip(x);
                    assert(o.subrange(4, 8) == max_array_ext::be_u32_bytes(x));
                }
            },
            Esp3Packet::CommandAccepted { estimated_time_ms, .. } => {
                wire::lemma_u16_roundtrip(estimated_time_ms);
                assert(d.subrange(1, 3) == max_array_ext::be_u16_bytes(estimated_time_ms));
            },
            _ => {},
        }
    }

    /// The packet type code of this packet.
    pub fn packet_type(&self) -> (ret: u8)
        ensures
            ret == self.packet_type_spec(),
    {
        match self {
            Esp3Packet::RadioErp1 { .. } => 1,
            Esp3Packet::Response { .. } => 2,
            Esp3Packet::RadioSubTelegram { .. } => 3,
            Esp3Packet::Event(_) => 4,
            Esp3Packet::CommonCommand(_) => 5,
            Esp3Packet::SmartAckCommand(_) => 6,
            Esp3Packet::RemoteManCommand { .. } => 7,
            Esp3Packet::RadioMessage { .. } => 9,
            Esp3Packet::RadioErp2 { .. } => 10,
            Esp3Packet::CommandAccepted { .. } => 12,
            Esp3Packet::Radio802Dot15Dot4 { .. } => 16,
            Esp3Packet::Command24(_) => 17,
            Esp3Packet::Unknown { packet_type, .. } => *packet_type,
        }
    }

    /// Encodes the frame of this packet: the header, the data, the optional data and the
    /// checksum of the data and the optional data.
    ///
    /// Returns `None` if an optional field is set while an earlier one is not.
    pub fn to_packet(&self) -> (ret: Option<MaxArray<u8, MAX_ESP3_PACKET_LENGTH>>)
        requires
            self.optional_fits(),
        ensures
            match self.packet_spec() {
                Some(frame) => ret matches Some(r) && r@ == frame,
                None => ret is None,
            },
    {
        let packet_data = self.to_packet_data();
        let packet_optional = match self.to_packet_optional() {
            Some(o) => o,
            None => return None,
        };
        let ghost data = packet_data@;
        let ghost opt = packet_optional@;
        let data_len = packet_data.len();
        let opt_len = packet_optional.len();

        let mut buf: MaxArray<u8, MAX_ESP3_PACKET_LENGTH> = MaxArray::new();
        buf.push(SYNC_BYTE).unwrap();
        buf.push_u16_be(data_len as u16).unwrap();
        buf.push(opt_len as u8).unwrap();
        buf.push(self.packet_type()).unwrap();

        let crc_header = crc8_ccitt(&buf.as_slice()[1..5]);
        buf.push(crc_header).unwrap();
        let ghost h = buf@;
        assert(h.len() == 6);

        push_bytes(&mut buf, packet_data.as_slice());
        push_bytes(&mut buf, packet_optional.as_slice());
        assert(buf@ == h + data + opt);

        let end = buf.len();
        let crc_data = crc8_ccitt(&buf.as_slice()[HEADER_LENGTH..end]);
        assert(buf@.subrange(HEADER_LENGTH as int, end as int) =~= data + opt);
        buf.push(crc_data).unwrap();
        Some(buf)
    }

    /// Encodes the data part of this packet.
    pub fn to_packet_data(&self) -> (ret: MaxArray<u8, MAX_DATA_LENGTH>)
        ensures
            ret@ == self.data_spec(),
    {
        match self {
            Esp3Packet::RadioErp1 { radio_telegram, .. } => radio_telegram.clone(),
            Esp3Packet::Response { return_code, response_data } => {
                let mut ret: MaxArray<u8, MAX_DATA_LENGTH> = MaxArray::new();
                ret.push(u8::from(*return_code)).unwrap();
                proof { use_type_invariant(response_data); }
                push_bytes(&mut ret, response_data.as_slice());
                ret
            },
            Esp3Packet::RadioSubTelegram { radio_telegram, .. } => radio_telegram.clone(),
            Esp3Packet::Event(event_data) => event_data.to_packet_data(),
            Esp3Packet::CommonCommand(command_data) => command_data.to_packet_data(),
            Esp3Packet::SmartAckCommand(smart_ack_data) => smart_ack_data.to_packet_data(),
            Esp3Packet::RemoteManCommand { function, manufacturer, message, .. } => {
                let mut ret: MaxArray<u8, MAX_DATA_LENGTH> = MaxArray::new();
                ret.push_u16_be(*function).unwrap();
                ret.push_u16_be(*manufacturer).unwrap();
                proof { use_type_invariant(message); }
                push_bytes(&mut ret, message.as_slice());
                ret
            },
            Esp3Packet::RadioMessage { rorg, data, .. } => {
                let mut ret: MaxArray<u8, MAX_DATA_LENGTH> = MaxArray::new();
                ret.push(*rorg).unwrap();
                proof { use_type_invariant(data); }
                push_bytes(&mut ret, data.as_slice());
                ret
            },
            Esp3Packet::RadioErp2 { data, .. } => data.clone(),
            Esp3Packet::CommandAccepted { is_blocking, estimated_time_ms } => {
                let mut ret: MaxArray<u8, MAX_DATA_LENGTH> = MaxArray::new();
                ret.push(u8::from(*is_blocking)).unwrap();
                ret.push_u16_be(*estimated_time_ms).unwrap();
                ret
            },
            Esp3Packet::Radio802Dot15Dot4 { raw_data, .. } => raw_data.clone(),
            Esp3Packet::Command24(command_24_data) => command_24_data.to_packet_data(),
            Esp3Packet::Unknown { data, .. } => data.clone(),
        }
    }

    /// Encodes the optional part of this packet; `None` if an optional field is set while an
    /// earlier one is not.
    pub fn to_packet_optional(&self) -> (ret: Option<MaxArray<u8, MAX_OPTIONAL_LENGTH>>)
        requires
            self.optional_fits(),
        ensures
            match self.optional_spec() {
                Some(o) => ret matches Some(r) && r@ == o,
                None => ret is None,
            },
    {
        match self {
            Esp3Packet::RadioErp1 { opt_sub_telegram_number, opt_destination_id, opt_dbm, opt_security_level, .. } => {
                let mut ret: MaxArray<u8, MAX_OPTIONAL_LENGTH> = MaxArray::new();
                if let Some(x) = opt_sub_telegram_number {
                    ret.push(*x).unwrap();
                } else if opt_destination_id.is_some() || opt_dbm.is_some() || opt_security_level.is_some() {
                    return None;
                }
                if let Some(x) = opt_destination_id {
                    ret.push_u32_be(*x).unwrap();
                } else if opt_dbm.is_some() || opt_security_level.is_some() {
                    return None;
                }
                if let Some(x) = opt_dbm {
                    ret.push(*x).unwrap();
                } else if opt_security_level.is_some() {
                    return None;
                }
                if let Some(x) = opt_security_level {
                    ret.push(u8::from(*x)).unwrap();
                }
                Some(ret)
            },
            Esp3Packet::RadioSubTelegram { opt_sub_telegram_number, opt_destination_id, opt_dbm, opt_security_level, opt_timestamp, opt_sub_telegram_info, .. } => {
                let mut ret: MaxArray<u8, MAX_OPTIONAL_LENGTH> = MaxArray::new();
                if let Some(x) = opt_sub_telegram_number {
                    ret.push(*x).unwrap();
                } else if opt_destination_id.is_some() || opt_dbm.is_some() || opt_security_level.is_some() || opt_timestamp.is_some() || opt_sub_telegram_info.len() > 0 {
                    return None;
                }
                if let Some(x) = opt_destination_id {
                    ret.push_u32_be(*x).unwrap();
                } else if opt_dbm.is_some() || opt_security_level.is_some() || opt_timestamp.is_some() || opt_sub_telegram_info.len() > 0 {
                    return None;
                }
                if let Some(x) = opt_dbm {
                    ret.push(*x).unwrap();
                } else if opt_security_level.is_some() || opt_timestamp.is_some() || opt_sub_telegram_info.len() > 0 {
                    return None;
                }
                if let Some(x) = opt_security_level {
                    ret.push(u8::from(*x)).unwrap();
                } else if opt_timestamp.is_some() || opt_sub_telegram_info.len() > 0 {
                    return None;
                }
                if let Some(x) = opt_timestamp {
                    ret.push_u16_be(*x).unwrap();
                } else if opt_sub_telegram_info.len() > 0 {
                    return None;
                }
                push_sub_telegram_infos(&mut ret, opt_sub_telegram_info);
                Some(ret)
            },
            Esp3Packet::RemoteManCommand { opt_destination_id, opt_source_id, opt_dbm, opt_send_with_delay, .. } => {
                let mut ret: MaxArray<u8, MAX_OPTIONAL_LENGTH> = MaxArray::new();
                if let Some(x) = opt_destination_id {
                    ret.push_u32_be(*x).unwrap();
                } else if opt_source_id.is_some() || opt_dbm.is_some() || opt_send_with_delay.is_some() {
                    return None;
                }
                if let Some(x) = opt_source_id {
                    ret.push_u32_be(*x).unwrap();
                } else if opt_dbm.is_some() || opt_send_with_delay.is_some() {
                    return None;
                }
                if let Some(x) = opt_dbm {
                    ret.push(*x).unwrap();
                } else if opt_send_with_delay.is_some() {
                    return None;
                }
                if let Some(x) = opt_send_with_delay {
                    ret.push(u8::from(*x)).unwrap();
                }
                Some(ret)
            },
            Esp3Packet::RadioMessage { opt_destination_id, opt_source_id, opt_dbm, opt_security_level, .. } => {
                let mut ret: MaxArray<u8, MAX_OPTIONAL_LENGTH> = MaxArray::new();
                if let Some(x) = opt_destination_id {
                    ret.push_u32_be(*x).unwrap();
                } else if opt_source_id.is_some() || opt_dbm.is_some() || opt_security_level.is_some() {
                    return None;
                }
                if let Some(x) = opt_source_id {
                    ret.push_u32_be(*x).unwrap();
                } else if opt_dbm.is_some() || opt_security_level.is_some() {
                    return None;
                }
                if let Some(x) = opt_dbm {
                    ret.push(*x).unwrap();
                } else if opt_security_level.is_some() {
                    return None;
                }
                if let Some(x) = opt_security_level {
                    ret.push(u8::from(*x)).unwrap();
                }
                Some(ret)
            },
            Esp3Packet::RadioErp2 { opt_sub_telegram_number, opt_dbm, opt_security_level, .. } => {
                let mut ret: MaxArray<u8, MAX_OPTIONAL_LENGTH> = MaxArray::new();
                if let Some(x) = opt_sub_telegram_number {
                    ret.push(*x).unwrap();
                } else if opt_dbm.is_some() || opt_security_level.is_some() {
                    return None;
                }
                if let Some(x) = opt_dbm {
                    ret.push(*x).unwrap();
                } else if opt_security_level.is_some() {
                    return None;
                }
                if let Some(x) = opt_security_level {
                    ret.push(u8::from(*x)).unwrap();
                }
                Some(ret)
            },
            Esp3Packet::Radio802Dot15Dot4 { opt_rssi, .. } => {
                let mut ret: MaxArray<u8, MAX_OPTIONAL_LENGTH> = MaxArray::new();
                if let Some(x) = opt_rssi {
                    ret.push(*x).unwrap();
                }
                Some(ret)
            },
            Esp3Packet::Response { .. } => Some(MaxArray::new()),
            Esp3Packet::Event(event_data) => event_data.to_packet_optional(),
            Esp3Packet::CommonCommand(command_data) => command_data.to_packet_optional(),
            Esp3Packet::SmartAckCommand(smart_ack_data) => smart_ack_data.to_packet_optional(),
            Esp3Packet::CommandAccepted { .. } => Some(MaxArray::new()),
            Esp3Packet::Command24(command_24_data) => command_24_data.to_packet_optional(),
            Esp3Packet::Unknown { optional_data, .. } => Some(optional_data.clone()),
        }
    }

    /// Decodes a packet from its type code, its data and its optional data.
    #[verifier::rlimit(50)]
    pub fn from_parts(packet_type: u8, data_slice: &[u8], optional_slice: &[u8]) -> (ret: Option<Self>)
        requires
            Self::fits_capacity(packet_type, data_slice@, optional_slice@),
        ensures
            ret is Some <==> Self::accepts(packet_type, data_slice@, optional_slice@),
            ret matches Some(p) ==> p.decoded_from(packet_type, data_slice@, optional_slice@),
    {
        match packet_type {
            1u8 => {
                let radio_telegram = MaxArray::from_iter_or_panic(data_slice);
                let opt_sub_telegram_number = if optional_slice.len() >= 1 {
                    Some(optional_slice[0])
                } else {
                    None
                };
                let opt_destination_id = if optional_slice.len() >= 5 {
                    Some(read_u32_be(optional_slice, 1))
                } else {
                    None
                };
                let opt_dbm = if optional_slice.len() >= 6 {
                    Some(optional_slice[5])
                } else {
                    None
                };
                let opt_security_level = if optional_slice.len() >= 7 {
                    Some(SecurityLevel::from(optional_slice[6]))
                } else {
                    None
                };
                Some(Esp3Packet::RadioErp1 {
                    radio_telegram,
                    opt_sub_telegram_number,
                    opt_destination_id,
                    opt_dbm,
                    opt_security_level,
                })
            },
            2u8 => {
                if data_slice.len() < 1 {
                    return None;
                }
                let return_code = ReturnCode::from(data_slice[0]);
                let response_data = MaxArray::from_iter_or_panic(&data_slice[1..data_slice.len()]);
                Some(Esp3Packet::Response { return_code, response_data })
            },
            3u8 => {
                let radio_telegram = MaxArray::from_iter_or_panic(data_slice);
                let opt_sub_telegram_number = if optional_slice.len() >= 1 {
                    Some(optional_slice[0])
                } else {
                    None
                };
                let opt_destination_id = if optional_slice.len() >= 5 {
                    Some(read_u32_be(optional_slice, 1))
                } else {
                    None
                };
                let opt_dbm = if optional_slice.len() >= 6 {
                    Some(optional_slice[5])
                } else {
                    None
                };
                let opt_security_level = if optional_slice.len() >= 7 {
                    Some(SecurityLevel::from(optional_slice[6]))
                } else {
                    None
                };
                let opt_timestamp = if optional_slice.len() >= 9 {
                    Some(read_u16_be(optional_slice, 7))
                } else {
                    None
                };
                let opt_sub_telegram_info = parse_sub_telegram_infos(optional_slice);
                Some(Esp3Packet::RadioSubTelegram {
                    radio_telegram,
                    opt_sub_telegram_number,
                    opt_destination_id,
                    opt_dbm,
                    opt_security_level,
                    opt_timestamp,
                    opt_sub_telegram_info,
                })
            },
            4u8 => {
                if data_slice.len() < 1 {
                    return None;
                }
                let event_code = data_slice[0];
                match EventData::from_data(event_code, &data_slice[1..data_slice.len()], optional_slice) {
                    Some(e) => Some(Esp3Packet::Event(e)),
                    None => None,
                }
            },
            5u8 => {
                if data_slice.len() < 1 {
                    return None;
                }
                let command_code = data_slice[0];
                match CommandData::from_data(command_code, &data_slice[1..data_slice.len()], optional_slice) {
                    Some(c) => Some(Esp3Packet::CommonCommand(c)),
                    None => None,
                }
            },
            6u8 => {
                if data_slice.len() < 1 {
                    return None;
                }
                let command_code = data_slice[0];
                match SmartAckData::from_data(command_code, &data_slice[1..data_slice.len()], optional_slice) {
                    Some(c) => Some(Esp3Packet::SmartAckCommand(c)),
                    None => None,
                }
            },
            7u8 => {
                if data_slice.len() < 4 {
                    return None;
                }
                let function = read_u16_be(data_slice, 0);
                let manufacturer = read_u16_be(data_slice, 2);
                let message = MaxArray::from_iter_or_panic(&data_slice[4..data_slice.len()]);
                let opt_destination_id = if optional_slice.len() >= 4 {
                    Some(read_u32_be(optional_slice, 0))
                } else {
                    None
                };
                let opt_source_id = if optional_slice.len() >= 8 {
                    Some(read_u32_be(optional_slice, 4))
                } else {
                    None
                };
                let opt_dbm = if optional_slice.len() >= 9 {
                    Some(optional_slice[8])
                } else {
                    None
                };
                let opt_send_with_delay = if optional_slice.len() >= 10 {
                    Some(OneByteBoolean::from(optional_slice[9]))
                } else {
                    None
                };
                Some(Esp3Packet::RemoteManCommand {
                    function,
                    manufacturer,
                    message,
                    opt_destination_id,
                    opt_source_id,
                    opt_dbm,
                    opt_send_with_delay,
                })
            },
            9u8 => {
                if data_slice.len() < 1 {
                    return None;
                }
                let rorg = data_slice[0];
                let data = MaxArray::from_iter_or_panic(&data_slice[1..data_slice.len()]);
                let opt_destination_id = if optional_slice.len() >= 4 {
                    Some(read_u32_be(optional_slice, 0))
                } else {
                    None
                };
                let opt_source_id = if optional_slice.len() >= 8 {
                    Some(read_u32_be(optional_slice, 4))
                } else {
                    None
                };
                let opt_dbm = if optional_slice.len() >= 9 {
                    Some(optional_slice[8])
                } else {
                    None
                };
                let opt_security_level = if optional_slice.len() >= 10 {
                    Some(SecurityLevel::from(optional_slice[9]))
                } else {
                    None
                };
                Some(Esp3Packet::RadioMessage {
                    rorg,
                    data,
                    opt_destination_id,
                    opt_source_id,
                    opt_dbm,
                    opt_security_level,
                })
            },
            10u8 => {
                let data = MaxArray::from_iter_or_panic(data_slice);
                let opt_sub_telegram_number = if optional_slice.len() >= 1 {
                    Some(optional_slice[0])
                } else {
                    None
                };
                let opt_dbm = if optional_slice.len() >= 2 {
                    Some(optional_slice[1])
                } else {
                    None
                };
                let opt_security_level = if optional_slice.len() >= 3 {
                    Some(SecurityLevel::from(optional_slice[2]))
                } else {
                    None
                };
                Some(Esp3Packet::RadioErp2 { data, opt_sub_telegram_number, opt_dbm, opt_security_level })
            },
            12u8 => {
                if data_slice.len() != 3 {
                    return None;
                }
                let is_blocking = OneByteBoolean::from(data_slice[0]);
                let estimated_time_ms = read_u16_be(data_slice, 1);
                Some(Esp3Packet::CommandAccepted { is_blocking, estimated_time_ms })
            },
            16u8 => {
                let raw_data = MaxArray::from_iter_or_panic(data_slice);
                let opt_rssi = if optional_slice.len() >= 1 {
                    Some(optional_slice[0])
                } else {
                    None
                };
                Some(Esp3Packet::Radio802Dot15Dot4 { raw_data, opt_rssi })
            },
            17u8 => {
                if data_slice.len() < 1 {
                    return None;
                }
                let command_code = data_slice[0];
                match Command24Data::from_data(command_code, &data_slice[1..data_slice.len()], optional_slice) {
                    Some(c) => Some(Esp3Packet::Command24(c)),
                    None => None,
                }
            },
            _ => {
                let data = MaxArray::from_iter_or_panic(data_slice);
                let optional_data = MaxArray::from_iter_or_panic(optional_slice);
                Some(Esp3Packet::Unknown { packet_type, data, optional_data })
            },
        }
    }

    /// Decodes a packet from a complete ESP3 frame.
    ///
    /// Returns `None` if the frame is not well-formed (see [frame_ok]), if its contents are
    /// longer than the arrays they would fill (such packets are silently discarded), or if its
    /// contents do not decode.
    pub fn from_slice(bytes: &[u8]) -> (ret: Option<Self>)
        ensures
            ret is Some <==> frame_ok(bytes@) && Self::fits_capacity(
                bytes@[4],
                frame_data(bytes@),
                frame_optional(bytes@),
            ) && Self::accepts(bytes@[4], frame_data(bytes@), frame_optional(bytes@)),
            frame_ok(bytes@) && !Self::fits_capacity(
                bytes@[4],
                frame_data(bytes@),
                frame_optional(bytes@),
            ) ==> ret is None,
            ret matches Some(p) ==> p.decoded_from(bytes@[4], frame_data(bytes@), frame_optional(bytes@)),
    {
        if bytes.len() < MIN_ESP3_PACKET_LENGTH {
            return None;
        }
        if bytes[0] != SYNC_BYTE {
            return None;
        }
        let data_length: usize = (bytes[1] as usize) * 0x100 + (bytes[2] as usize);
        let opt_length: usize = bytes[3] as usize;
        let total_length = HEADER_LENGTH + data_length + opt_length + FOOTER_LENGTH;
        if bytes.len() != total_length {
            return None;
        }
        let crc_header = crc8_ccitt(&bytes[1..5]);
        if crc_header != bytes[5] {
            return None;
        }
        let crc_data = crc8_ccitt(&bytes[HEADER_LENGTH..HEADER_LENGTH + data_length + opt_length]);
        if crc_data != bytes[HEADER_LENGTH + data_length + opt_length] {
            return None;
        }
        let data_slice = &bytes[HEADER_LENGTH..HEADER_LENGTH + data_length];
        let optional_slice = &bytes[HEADER_LENGTH + data_length..HEADER_LENGTH + data_length + opt_length];
        let packet_type = bytes[4];
        if !Self::parts_fit_capacity(packet_type, data_slice, optional_slice) {
            return None;
        }
        Self::from_parts(packet_type, data_slice, optional_slice)
    }

    /// Whether decoding a packet of the given type, data and optional data fits the capacities
    /// of the arrays it fills (see [Esp3Packet::from_parts]).
    pub fn parts_fit_capacity(packet_type: u8, data_slice: &[u8], optional_slice: &[u8]) -> (ret: bool)
        ensures
            ret == Self::fits_capacity(packet_type, data_slice@, optional_slice@),
    {
        if optional_slice.len() > MAX_OPTIONAL_LENGTH {
            return false;
        }
        if packet_type == 4 || packet_type == 5 || packet_type == 6 || packet_type == 17 {
            if data_slice.len() == 0 {
                return true;
            }
            let code = data_slice[0];
            let rest = data_slice.len() - 1;
            if !known_inner_code(packet_type, code) && rest > DATA_AFTER_CODE_LENGTH {
                return false;
            }
            if packet_type == 5 && code == 18 && rest > 5 + MEMORY_WRITE_LENGTH {
                return false;
            }
            true
        } else if packet_type == 12 {
            true
        } else {
            data_slice.len() <= MAX_DATA_LENGTH
        }
    }
}

/// Whether a command, event or smart acknowledgement code is one that its contents know, for
/// the packet types whose contents start with such a code.
fn known_inner_code(packet_type: u8, code: u8) -> (ret: bool)
    ensures
        packet_type == 4 ==> ret == EventData::is_known_code(code),
        packet_type == 5 ==> ret == CommandData::is_known_code(code),
        packet_type == 6 ==> ret == SmartAckData::is_known_code(code),
        packet_type == 17 ==> ret == Command24Data::is_known_code(code),
{
    if packet_type == 4 {
        1 <= code && code <= 9
    } else if packet_type == 5 {
        (1 <= code && code <= 37) || code == 39 || (46 <= code && code <= 51) || (54 <= code && code <= 65)
    } else if packet_type == 6 {
        1 <= code && code <= 10
    } else if packet_type == 17 {
        code == 1 || code == 2
    } else {
        false
    }
}

/// Decodes the sub-telegram entries that follow the nine fixed optional bytes of a radio
/// sub-telegram packet.
fn parse_sub_telegram_infos(optional_slice: &[u8]) -> (ret: MaxArray<SubTelegramInfo, MAX_SUB_TELEGRAM_INFOS>)
    requires
        optional_slice@.len() <= MAX_OPTIONAL_LENGTH,
    ensures
        ret@ == sub_telegram_infos_at(optional_slice@),
{
    let mut ret: MaxArray<SubTelegramInfo, MAX_SUB_TELEGRAM_INFOS> = MaxArray::new();
    let mut i: usize = 9;
    let ghost expected = sub_telegram_infos_at(optional_slice@);
    while i + 3 <= optional_slice.len()
        invariant
            optional_slice@.len() <= MAX_OPTIONAL_LENGTH,
            9 <= i,
            (i - 9) % 3 == 0,
            i <= optional_slice@.len() || i == 9,
            ret@.len() == (i - 9) / 3,
            ret@ == expected.subrange(0, ret@.len() as int),
            expected == sub_telegram_infos_at(optional_slice@),
        decreases optional_slice@.len() + 3 - i,
    {
        let tick = optional_slice[i];
        let dbm = optional_slice[i + 1];
        let status = optional_slice[i + 2];
        let k = ret.len();
        assert(expected[k as int] == SubTelegramInfo { tick, dbm, status });
        ret.push(SubTelegramInfo { tick, dbm, status }).unwrap();
        i += 3;
        assert(ret@ == expected.subrange(0, ret@.len() as int));
    }
    assert(ret@ == expected);
    ret
}

} // verus!
