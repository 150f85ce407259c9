//! Smart Acknowledgement commands.

use vstd::prelude::*;
use crate::max_array::MaxArray;
use crate::max_array_ext::{self, MaxArrayPushIntExt};
use crate::esp3::{MAX_DATA_LENGTH, MAX_OPTIONAL_LENGTH, DATA_AFTER_CODE_LENGTH};
use crate::esp3::codes::{OneByteBoolean, ExtendedLearnMode, LearnInOut};
use crate::esp3::wire::{self, push_bytes, read_u16_be, read_u24_be, read_u32_be, read_u32x4_be};

verus! {

/// Data carried by a Smart Acknowledgement command.
#[derive(Clone, Debug, PartialEq, Eq, Hash, PartialOrd, Ord)]
pub enum SmartAckData {
    SaWrLearnMode {
        enable: OneByteBoolean,
        extended: ExtendedLearnMode,
        timeout: u32,
    },
    SaRdLearnMode,
    SaWrLearnConfirm {
        response_time: u16,
        confirm_code: LearnInOut,
        postmaster_candidate_id: u32,
        smart_ack_client_id: u32,
    },
    /// Decoding reads a three-byte EEP; encoding writes it as four bytes.
    SaWrClientLearnRequest {
        manufacturer_id: u16,
        eep: u32,
    },
    SaWrReset {
        client_id: u32,
    },
    SaRdLearnedClients,
    SaWrReclaims {
        reclaim_count: u8,
    },
    SaWrPostmaster {
        mailbox_count: u8,
    },
    SaRdMailboxStatus {
        smart_ack_client_id: u32,
        controller_id: u32,
    },
    SaDelMailbox {
        device_id: u32,
        controller_id: u32,
    },
    /// A code that this library does not know, with its raw data and optional data.
    Unknown {
        code: u8,
        data: MaxArray<u8, DATA_AFTER_CODE_LENGTH>,
        optional_data: MaxArray<u8, MAX_OPTIONAL_LENGTH>,
    },
}

impl SmartAckData {
    /// The code that identifies this command on the wire.
    pub open spec fn code_spec(self) -> u8 {
        match self {
            SmartAckData::SaWrLearnMode { .. } => 1,
            SmartAckData::SaRdLearnMode => 2,
            SmartAckData::SaWrLearnConfirm { .. } => 3,
            SmartAckData::SaWrClientLearnRequest { .. } => 4,
            SmartAckData::SaWrReset { .. } => 5,
            SmartAckData::SaRdLearnedClients => 6,
            SmartAckData::SaWrReclaims { .. } => 7,
            SmartAckData::SaWrPostmaster { .. } => 8,
            SmartAckData::SaRdMailboxStatus { .. } => 9,
            SmartAckData::SaDelMailbox { .. } => 10,
            SmartAckData::Unknown { code, .. } => code,
        }
    }

    /// Whether a variant of this type (other than `Unknown`) has the given code.
    pub open spec fn is_known_code(code: u8) -> bool {
        code == 1 || code == 2 || code == 3 || code == 4 || code == 5 || code == 6 || code == 7 || code == 8 || code == 9 || code == 10
    }

    /// The data bytes that encode this value: the code followed by the fields.
    pub open spec fn data_spec(self) -> Seq<u8> {
        match self {
            SmartAckData::SaWrLearnMode { enable, extended, timeout } => (Seq::<u8>::empty().push(1u8).push(enable.to_byte_spec()).push(extended.to_byte_spec()) + max_array_ext::be_u32_bytes(timeout)),
            SmartAckData::SaRdLearnMode => Seq::<u8>::empty().push(2u8),
            SmartAckData::SaWrLearnConfirm { response_time, confirm_code, postmaster_candidate_id, smart_ack_client_id } => (((Seq::<u8>::empty().push(3u8) + max_array_ext::be_u16_bytes(response_time)).push(confirm_code.to_byte_spec()) + max_array_ext::be_u32_bytes(postmaster_candidate_id)) + max_array_ext::be_u32_bytes(smart_ack_client_id)),
            SmartAckData::SaWrClientLearnRequest { manufacturer_id, eep } => ((Seq::<u8>::empty().push(4u8) + max_array_ext::be_u16_bytes(manufacturer_id)) + max_array_ext::be_u32_bytes(eep)),
            SmartAckData::SaWrReset { client_id } => (Seq::<u8>::empty().push(5u8) + max_array_ext::be_u32_bytes(client_id)),
            SmartAckData::SaRdLearnedClients => Seq::<u8>::empty().push(6u8),
            SmartAckData::SaWrReclaims { reclaim_count } => Seq::<u8>::empty().push(7u8).push(reclaim_count),
            SmartAckData::SaWrPostmaster { mailbox_count } => Seq::<u8>::empty().push(8u8).push(mailbox_count),
            SmartAckData::SaRdMailboxStatus { smart_ack_client_id, controller_id } => ((Seq::<u8>::empty().push(9u8) + max_array_ext::be_u32_bytes(smart_ack_client_id)) + max_array_ext::be_u32_bytes(controller_id)),
            SmartAckData::SaDelMailbox { device_id, controller_id } => ((Seq::<u8>::empty().push(10u8) + max_array_ext::be_u32_bytes(device_id)) + max_array_ext::be_u32_bytes(controller_id)),
            SmartAckData::Unknown { code, data, .. } => Seq::<u8>::empty().push(code) + data@,
        }
    }

    /// The optional bytes that encode this value, or `None` if an optional field is set while
    /// an earlier one is not.
    pub open spec fn optional_spec(self) -> Option<Seq<u8>> {
        match self {
            _ => Some(Seq::<u8>::empty()),
        }
    }

    /// Whether data bytes of the given length decode for the given code.
    pub open spec fn accepts(code: u8, data_len: nat) -> bool {
        if code == 1 {
            data_len == 6
        } else if code == 2 {
            data_len == 0
        } else if code == 3 {
            data_len == 11
        } else if code == 4 {
            data_len == 5
        } else if code == 5 {
            data_len == 4
        } else if code == 6 {
            data_len == 0
        } else if code == 7 {
            data_len == 1
        } else if code == 8 {
            data_len == 1
        } else if code == 9 {
            data_len == 8
        } else if code == 10 {
            data_len == 8
        } else {
            true
        }
    }

    /// Whether decoding fits the capacities of the arrays it fills.
    pub open spec fn fits_capacity(code: u8, data_len: nat, opt_len: nat) -> bool {
        (!Self::is_known_code(code) ==> data_len <= DATA_AFTER_CODE_LENGTH && opt_len <= MAX_OPTIONAL_LENGTH)
    }

    /// Whether this value is what the given code, data bytes and optional bytes decode to.
    pub open spec fn decoded_from(self, wire_code: u8, wire_data: Seq<u8>, wire_opt: Seq<u8>) -> bool {
        match self {
            SmartAckData::SaWrLearnMode { enable, extended, timeout } => {
                &&& wire_code == 1
                &&& wire_data.len() == 6
                &&& enable == OneByteBoolean::from_byte_spec(wire_data[0])
                &&& extended == ExtendedLearnMode::from_byte_spec(wire_data[1])
                &&& timeout == wire::be_u32_at(wire_data, 2)
            },
            SmartAckData::SaRdLearnMode => {
                &&& wire_code == 2
                &&& wire_data.len() == 0
            },
            SmartAckData::SaWrLearnConfirm { response_time, confirm_code, postmaster_candidate_id, smart_ack_client_id } => {
                &&& wire_code == 3
                &&& wire_data.len() == 11
                &&& response_time == wire::be_u16_at(wire_data, 0)
                &&& confirm_code == LearnInOut::from_byte_spec(wire_data[2])
                &&& postmaster_candidate_id == wire::be_u32_at(wire_data, 3)
                &&& smart_ack_client_id == wire::be_u32_at(wire_data, 7)
            },
            SmartAckData::SaWrClientLearnRequest { manufacturer_id, eep } => {
                &&& wire_code == 4
                &&& wire_data.len() == 5
                &&& manufacturer_id == wire::be_u16_at(wire_data, 0)
                &&& eep == wire::be_u24_at(wire_data, 2)
            },
            SmartAckData::SaWrReset { client_id } => {
                &&& wire_code == 5
                &&& wire_data.len() == 4
                &&& client_id == wire::be_u32_at(wire_data, 0)
            },
            SmartAckData::SaRdLearnedClients => {
                &&& wire_code == 6
                &&& wire_data.len() == 0
            },
            SmartAckData::SaWrReclaims { reclaim_count } => {
                &&& wire_code == 7
                &&& wire_data.len() == 1
                &&& reclaim_count == wire_data[0]
            },
            SmartAckData::SaWrPostmaster { mailbox_count } => {
                &&& wire_code == 8
                &&& wire_data.len() == 1
                &&& mailbox_count == wire_data[0]
            },
            SmartAckData::SaRdMailboxStatus { smart_ack_client_id, controller_id } => {
                &&& wire_code == 9
                &&& wire_data.len() == 8
                &&& smart_ack_client_id == wire::be_u32_at(wire_data, 0)
                &&& controller_id == wire::be_u32_at(wire_data, 4)
            },
            SmartAckData::SaDelMailbox { device_id, controller_id } => {
                &&& wire_code == 10
                &&& wire_data.len() == 8
                &&& device_id == wire::be_u32_at(wire_data, 0)
                &&& controller_id == wire::be_u32_at(wire_data, 4)
            },
            SmartAckData::Unknown { code: c, data: d, optional_data: o } => {
                &&& c == wire_code
                &&& !Self::is_known_code(wire_code)
                &&& d@ == wire_data
                &&& o@ == wire_opt
            },
        }
    }

    /// The code that identifies this command.
    pub fn command_type(&self) -> (ret: u8)
        ensures
            ret == self.code_spec(),
    {
        match self {
            SmartAckData::SaWrLearnMode { .. } => 1,
            SmartAckData::SaRdLearnMode => 2,
            SmartAckData::SaWrLearnConfirm { .. } => 3,
            SmartAckData::SaWrClientLearnRequest { .. } => 4,
            SmartAckData::SaWrReset { .. } => 5,
            SmartAckData::SaRdLearnedClients => 6,
            SmartAckData::SaWrReclaims { .. } => 7,
            SmartAckData::SaWrPostmaster { .. } => 8,
            SmartAckData::SaRdMailboxStatus { .. } => 9,
            SmartAckData::SaDelMailbox { .. } => 10,
            SmartAckData::Unknown { code, .. } => *code,
        }
    }

    /// Encodes the data part of this value: the code followed by the fields.
    pub fn to_packet_data(&self) -> (ret: MaxArray<u8, MAX_DATA_LENGTH>)
        ensures
            ret@ == self.data_spec(),
    {
        let mut ret: MaxArray<u8, MAX_DATA_LENGTH> = MaxArray::new();
        let code = self.command_type();
        ret.push(code).unwrap();
        match self {
            SmartAckData::SaWrLearnMode { enable, extended, timeout } => {
                ret.push(u8::from(*enable)).unwrap();
                ret.push(u8::from(*extended)).unwrap();
                ret.push_u32_be(*timeout).unwrap();
            },
            SmartAckData::SaRdLearnMode => {
            },
            SmartAckData::SaWrLearnConfirm { response_time, confirm_code, postmaster_candidate_id, smart_ack_client_id } => {
                ret.push_u16_be(*response_time).unwrap();
                ret.push(u8::from(*confirm_code)).unwrap();
                ret.push_u32_be(*postmaster_candidate_id).unwrap();
                ret.push_u32_be(*smart_ack_client_id).unwrap();
            },
            SmartAckData::SaWrClientLearnRequest { manufacturer_id, eep } => {
                ret.push_u16_be(*manufacturer_id).unwrap();
                ret.push_u32_be(*eep).unwrap();
            },
            SmartAckData::SaWrReset { client_id } => {
                ret.push_u32_be(*client_id).unwrap();
            },
            SmartAckData::SaRdLearnedClients => {
            },
            SmartAckData::SaWrReclaims { reclaim_count } => {
                ret.push(*reclaim_count).unwrap();
            },
            SmartAckData::SaWrPostmaster { mailbox_count } => {
                ret.push(*mailbox_count).unwrap();
            },
            SmartAckData::SaRdMailboxStatus { smart_ack_client_id, controller_id } => {
                ret.push_u32_be(*smart_ack_client_id).unwrap();
                ret.push_u32_be(*controller_id).unwrap();
            },
            SmartAckData::SaDelMailbox { device_id, controller_id } => {
                ret.push_u32_be(*device_id).unwrap();
                ret.push_u32_be(*controller_id).unwrap();
            },
            SmartAckData::Unknown { data, .. } => {
                proof { use_type_invariant(data); }
                push_bytes(&mut ret, data.as_slice());
            },
        }
        ret
    }

    /// Encodes the optional part of this value; `None` if an optional field is set while an
    /// earlier one is not.
    pub fn to_packet_optional(&self) -> (ret: Option<MaxArray<u8, MAX_OPTIONAL_LENGTH>>)
        ensures
            match self.optional_spec() {
                Some(o) => ret matches Some(r) && r@ == o,
                None => ret is None,
            },
    {
        let mut ret: MaxArray<u8, MAX_OPTIONAL_LENGTH> = MaxArray::new();
        match self {
            _ => {},
        }
        Some(ret)
    }

    /// Decodes a value from its code, the data bytes after the code and the optional bytes.
    ///
    /// Returns `None` if the data does not have the length that the code calls for; codes that
    /// this library does not know decode to `Unknown`.
    #[verifier::rlimit(50)]
    pub fn from_data(event_code: u8, data_slice: &[u8], optional_slice: &[u8]) -> (ret: Option<Self>)
        requires
            Self::fits_capacity(event_code, data_slice@.len(), optional_slice@.len()),
        ensures
            ret is Some <==> Self::accepts(event_code, data_slice@.len()),
            ret matches Some(v) ==> v.decoded_from(event_code, data_slice@, optional_slice@),
    {
        match event_code {
            1u8 => {
                if data_slice.len() != 6 {
                    return None;
                }
                let enable = OneByteBoolean::from(data_slice[0]);
                let extended = ExtendedLearnMode::from(data_slice[1]);
                let timeout = read_u32_be(data_slice, 2);
                Some(SmartAckData::SaWrLearnMode { enable, extended, timeout })
            },
            2u8 => {
                if data_slice.len() != 0 {
                    return None;
                }
                Some(SmartAckData::SaRdLearnMode)
            },
            3u8 => {
                if data_slice.len() != 11 {
                    return None;
                }
                let response_time = read_u16_be(data_slice, 0);
                let confirm_code = LearnInOut::from(data_slice[2]);
                let postmaster_candidate_id = read_u32_be(data_slice, 3);
                let smart_ack_client_id = read_u32_be(data_slice, 7);
                Some(SmartAckData::SaWrLearnConfirm { response_time, confirm_code, postmaster_candidate_id, smart_ack_client_id })
            },
            4u8 => {
                if data_slice.len() != 5 {
                    return None;
                }
                let manufacturer_id = read_u16_be(data_slice, 0);
                let eep = read_u24_be(data_slice, 2);
                Some(SmartAckData::SaWrClientLearnRequest { manufacturer_id, eep })
            },
            5u8 => {
                if data_slice.len() != 4 {
                    return None;
                }
                let client_id = read_u32_be(data_slice, 0);
                Some(SmartAckData::SaWrReset { client_id })
            },
            6u8 => {
                if data_slice.len() != 0 {
                    return None;
                }
                Some(SmartAckData::SaRdLearnedClients)
            },
            7u8 => {
                if data_slice.len() != 1 {
                    return None;
                }
                let reclaim_count = data_slice[0];
                Some(SmartAckData::SaWrReclaims { reclaim_count })
            },
            8u8 => {
                if data_slice.len() != 1 {
                    return None;
                }
                let mailbox_count = data_slice[0];
                Some(SmartAckData::SaWrPostmaster { mailbox_count })
            },
            9u8 => {
                if data_slice.len() != 8 {
                    return None;
                }
                let smart_ack_client_id = read_u32_be(data_slice, 0);
                let controller_id = read_u32_be(data_slice, 4);
                Some(SmartAckData::SaRdMailboxStatus { smart_ack_client_id, controller_id })
            },
            10u8 => {
                if data_slice.len() != 8 {
                    return None;
                }
                let device_id = read_u32_be(data_slice, 0);
                let controller_id = read_u32_be(data_slice, 4);
                Some(SmartAckData::SaDelMailbox { device_id, controller_id })
            },
            _ => {
                let data = MaxArray::from_iter_or_panic(data_slice);
                let optional_data = MaxArray::from_iter_or_panic(optional_slice);
                Some(SmartAckData::Unknown { code: event_code, data, optional_data })
            },
        }
    }

    /// Whether encoding this value and decoding the bytes gives back this value: every field
    /// holds a value that its bytes decode to, and the variant is one whose encoding its
    /// decoding reads back.
    pub open spec fn round_trips(self) -> bool {
        match self {
            SmartAckData::SaWrLearnMode { enable, extended, timeout } => OneByteBoolean::from_byte_spec(enable.to_byte_spec()) == enable && ExtendedLearnMode::from_byte_spec(extended.to_byte_spec()) == extended,
            SmartAckData::SaRdLearnMode => true,
            SmartAckData::SaWrLearnConfirm { response_time, confirm_code, postmaster_candidate_id, smart_ack_client_id } => LearnInOut::from_byte_spec(confirm_code.to_byte_spec()) == confirm_code,
            SmartAckData::SaWrClientLearnRequest { .. } => false,
            SmartAckData::SaWrReset { .. } => true,
            SmartAckData::SaRdLearnedClients => true,
            SmartAckData::SaWrReclaims { .. } => true,
            SmartAckData::SaWrPostmaster { .. } => true,
            SmartAckData::SaRdMailboxStatus { .. } => true,
            SmartAckData::SaDelMailbox { .. } => true,
            SmartAckData::Unknown { code, optional_data, .. } => !Self::is_known_code(code) && optional_data@.len() == 0,
        }
    }

    /// Decoding the bytes that encode a value gives back that value.
    pub proof fn lemma_encoded_decodes(self)
        requires
            self.round_trips(),
            self.optional_spec() is Some,
        ensures
            Self::accepts(self.code_spec(), (self.data_spec().len() - 1) as nat),
            self.decoded_from(self.code_spec(), self.data_spec().drop_first(), self.optional_spec().unwrap()),
    {
        let d = self.data_spec().drop_first();
        let o = self.optional_spec().unwrap();
        match self {
            SmartAckData::SaWrLearnMode { enable, extended, timeout } => {
                assert(d.len() == 6);
                assert(d[0] == enable.to_byte_spec());
                assert(d[1] == extended.to_byte_spec());
                assert(d.subrange(2int, 6int) =~= max_array_ext::be_u32_bytes(timeout));
                wire::lemma_u32_roundtrip(timeout);
            },
            SmartAckData::SaRdLearnMode => {
                assert(d.len() == 0);
            },
            SmartAckData::SaWrLearnConfirm { response_time, confirm_code, postmaster_candidate_id, smart_ack_client_id } => {
                assert(d.len() == 11);
                assert(d.subrange(0int, 2int) =~= max_array_ext::be_u16_bytes(response_time));
                wire::lemma_u16_roundtrip(response_time);
                assert(d[2] == confirm_code.to_byte_spec());
                assert(d.subrange(3int, 7int) =~= max_array_ext::be_u32_bytes(postmaster_candidate_id));
                wire::lemma_u32_roundtrip(postmaster_candidate_id);
                assert(d.subrange(7int, 11int) =~= max_array_ext::be_u32_bytes(smart_ack_client_id));
                wire::lemma_u32_roundtrip(smart_ack_client_id);
            },
            SmartAckData::SaWrClientLearnRequest { .. } => {},
            SmartAckData::SaWrReset { client_id } => {
                assert(d.len() == 4);
                assert(d.subrange(0int, 4int) =~= max_array_ext::be_u32_bytes(client_id));
                wire::lemma_u32_roundtrip(client_id);
            },
            SmartAckData::SaRdLearnedClients => {
                assert(d.len() == 0);
            },
            SmartAckData::SaWrReclaims { reclaim_count } => {
                assert(d.len() == 1);
                assert(d[0] == reclaim_count);
            },
            SmartAckData::SaWrPostmaster { mailbox_count } => {
                assert(d.len() == 1);
                assert(d[0] == mailbox_count);
            },
            SmartAckData::SaRdMailboxStatus { smart_ack_client_id, controller_id } => {
                assert(d.len() == 8);
                assert(d.subrange(0int, 4int) =~= max_array_ext::be_u32_bytes(smart_ack_client_id));
                wire::lemma_u32_roundtrip(smart_ack_client_id);
                assert(d.subrange(4int, 8int) =~= max_array_ext::be_u32_bytes(controller_id));
                wire::lemma_u32_roundtrip(controller_id);
            },
            SmartAckData::SaDelMailbox { device_id, controller_id } => {
                assert(d.len() == 8);
                assert(d.subrange(0int, 4int) =~= max_array_ext::be_u32_bytes(device_id));
                wire::lemma_u32_roundtrip(device_id);
                assert(d.subrange(4int, 8int) =~= max_array_ext::be_u32_bytes(controller_id));
                wire::lemma_u32_roundtrip(controller_id);
            },
            SmartAckData::Unknown { data, optional_data, .. } => {
                assert(d =~= data@);
                assert(o =~= optional_data@);
            },
        }
    }

    /// Encoding a decoded value gives back the data bytes it was decoded from (for the
    /// variants whose decoding reads every data byte and keeps every bit of it).
    pub proof fn lemma_decoded_encodes(self, wire_code: u8, wire_data: Seq<u8>, wire_opt: Seq<u8>)
        requires
            self.decoded_from(wire_code, wire_data, wire_opt),
            !(self is SaWrClientLearnRequest),
        ensures
            self.data_spec() == Seq::<u8>::empty().push(wire_code) + wire_data,
    {
        let expected = Seq::<u8>::empty().push(wire_code) + wire_data;
        match self {
            SmartAckData::SaWrLearnMode { enable, extended, timeout } => {
                OneByteBoolean::lemma_byte_roundtrip(wire_data[0]);
                ExtendedLearnMode::lemma_byte_roundtrip(wire_data[1]);
                wire::lemma_u32_bytes_of(wire_data.subrange(2int, 6int));
                assert(self.data_spec() =~= expected);
            },
            SmartAckData::SaRdLearnMode => {
                assert(self.data_spec() =~= expected);
            },
            SmartAckData::SaWrLearnConfirm { response_time, confirm_code, postmaster_candidate_id, smart_ack_client_id } => {
                wire::lemma_u16_bytes_of(wire_data.subrange(0int, 2int));
                LearnInOut::lemma_byte_roundtrip(wire_data[2]);
                wire::lemma_u32_bytes_of(wire_data.subrange(3int, 7int));
                wire::lemma_u32_bytes_of(wire_data.subrange(7int, 11int));
                assert(self.data_spec() =~= expected);
            },
            SmartAckData::SaWrClientLearnRequest { .. } => {},
            SmartAckData::SaWrReset { client_id } => {
                wire::lemma_u32_bytes_of(wire_data.subrange(0int, 4int));
                assert(self.data_spec() =~= expected);
            },
            SmartAckData::SaRdLearnedClients => {
                assert(self.data_spec() =~= expected);
            },
            SmartAckData::SaWrReclaims { reclaim_count } => {
                assert(self.data_spec() =~= expected);
            },
            SmartAckData::SaWrPostmaster { mailbox_count } => {
                assert(self.data_spec() =~= expected);
            },
            SmartAckData::SaRdMailboxStatus { smart_ack_client_id, controller_id } => {
                wire::lemma_u32_bytes_of(wire_data.subrange(0int, 4int));
                wire::lemma_u32_bytes_of(wire_data.subrange(4int, 8int));
                assert(self.data_spec() =~= expected);
            },
            SmartAckData::SaDelMailbox { device_id, controller_id } => {
                wire::lemma_u32_bytes_of(wire_data.subrange(0int, 4int));
                wire::lemma_u32_bytes_of(wire_data.subrange(4int, 8int));
                assert(self.data_spec() =~= expected);
            },
            SmartAckData::Unknown { .. } => {
                assert(self.data_spec() =~= expected);
            },
        }
    }
}

} // verus!
