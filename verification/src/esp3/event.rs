//! Events that the EnOcean controller reports.

use vstd::prelude::*;
use crate::max_array::MaxArray;
use crate::max_array_ext::{self, MaxArrayPushIntExt};
use crate::esp3::{MAX_DATA_LENGTH, MAX_OPTIONAL_LENGTH, DATA_AFTER_CODE_LENGTH};
use crate::esp3::codes::{SmartAckConfirmCode, WakeupCause, SecurityMode, SecureDeviceEventCause, OneByteBoolean, TransmissionFailureReason, PostmasterPriority};
use crate::esp3::wire::{self, push_bytes, read_u16_be, read_u24_be, read_u32_be, read_u32x4_be};

verus! {

/// An EnOcean event that may occur.
#[derive(Clone, Debug, PartialEq, Eq, Hash, PartialOrd, Ord)]
pub enum EventData {
    SmartAckReclaimNotSuccessful,
    SmartAckConfirmLearn {
        postmaster_priority: PostmasterPriority,
        manufacturer_id: u16,
        eep: u32,
        rssi: u8,
        postmaster_candidate_id: u32,
        smart_ack_client_id: u32,
        hop_count: u8,
    },
    SmartAckLearnAck {
        response_time: u16,
        confirm_code: SmartAckConfirmCode,
    },
    CoReady {
        wakeup_cause: WakeupCause,
        opt_security_mode: Option<SecurityMode>,
    },
    CoEventSecureDevices {
        cause: SecureDeviceEventCause,
        device_id: u32,
    },
    CoDutyCycleLimit {
        sending_possible: OneByteBoolean,
    },
    CoTransmitFailed {
        reason: TransmissionFailureReason,
    },
    CoTxDone,
    CoLearnModeDisabled,
    /// A code that this library does not know, with its raw data and optional data.
    Unknown {
        code: u8,
        data: MaxArray<u8, DATA_AFTER_CODE_LENGTH>,
        optional_data: MaxArray<u8, MAX_OPTIONAL_LENGTH>,
    },
}

impl EventData {
    /// The code that identifies this event on the wire.
    pub open spec fn code_spec(self) -> u8 {
        match self {
            EventData::SmartAckReclaimNotSuccessful => 1,
            EventData::SmartAckConfirmLearn { .. } => 2,
            EventData::SmartAckLearnAck { .. } => 3,
            EventData::CoReady { .. } => 4,
            EventData::CoEventSecureDevices { .. } => 5,
            EventData::CoDutyCycleLimit { .. } => 6,
            EventData::CoTransmitFailed { .. } => 7,
            EventData::CoTxDone => 8,
            EventData::CoLearnModeDisabled => 9,
            EventData::Unknown { code, .. } => code,
        }
    }

    /// Whether a variant of this type (other than `Unknown`) has the given code.
    pub open spec fn is_known_code(code: u8) -> bool {
        code == 1 || code == 2 || code == 3 || code == 4 || code == 5 || code == 6 || code == 7 || code == 8 || code == 9
    }

    /// The data bytes that encode this value: the code followed by the fields.
    pub open spec fn data_spec(self) -> Seq<u8> {
        match self {
            EventData::SmartAckReclaimNotSuccessful => Seq::<u8>::empty().push(1u8),
            EventData::SmartAckConfirmLearn { postmaster_priority, manufacturer_id, eep, rssi, postmaster_candidate_id, smart_ack_client_id, hop_count } => ((((Seq::<u8>::empty().push(2u8).push(postmaster_priority.bits_spec()) + max_array_ext::be_u16_bytes(manufacturer_id)) + wire::be_u24_bytes(eep)).push(rssi) + max_array_ext::be_u32_bytes(postmaster_candidate_id)) + max_array_ext::be_u32_bytes(smart_ack_client_id)).push(hop_count),
            EventData::SmartAckLearnAck { response_time, confirm_code } => (Seq::<u8>::empty().push(3u8) + max_array_ext::be_u16_bytes(response_time)).push(confirm_code.to_byte_spec()),
            EventData::CoReady { wakeup_cause, .. } => Seq::<u8>::empty().push(4u8).push(wakeup_cause.to_byte_spec()),
            EventData::CoEventSecureDevices { cause, device_id } => (Seq::<u8>::empty().push(5u8).push(cause.to_byte_spec()) + max_array_ext::be_u32_bytes(device_id)),
            EventData::CoDutyCycleLimit { sending_possible } => Seq::<u8>::empty().push(6u8).push(sending_possible.to_byte_spec()),
            EventData::CoTransmitFailed { reason } => Seq::<u8>::empty().push(7u8).push(reason.to_byte_spec()),
            EventData::CoTxDone => Seq::<u8>::empty().push(8u8),
            EventData::CoLearnModeDisabled => Seq::<u8>::empty().push(9u8),
            EventData::Unknown { code, data, .. } => Seq::<u8>::empty().push(code) + data@,
        }
    }

    /// The optional bytes that encode this value, or `None` if an optional field is set while
    /// an earlier one is not.
    pub open spec fn optional_spec(self) -> Option<Seq<u8>> {
        match self {
            EventData::CoReady { opt_security_mode, .. } => {
                let s0 = Seq::<u8>::empty().push(self.code_spec());
                let s1 = match opt_security_mode { Some(x) => s0.push(x.to_byte_spec()), None => s0 };
                Some(s1)
            },
            EventData::Unknown { optional_data, .. } => Some(Seq::<u8>::empty().push(self.code_spec()) + optional_data@),
            _ => Some(Seq::<u8>::empty().push(self.code_spec())),
        }
    }

    /// Whether data bytes of the given length decode for the given code.
    pub open spec fn accepts(code: u8, data_len: nat) -> bool {
        if code == 1 {
            data_len == 0
        } else if code == 2 {
            data_len == 16
        } else if code == 3 {
            data_len == 3
        } else if code == 4 {
            data_len == 1
        } else if code == 5 {
            data_len == 5
        } else if code == 6 {
            data_len == 1
        } else if code == 7 {
            data_len == 1
        } else if code == 8 {
            data_len == 0
        } else if code == 9 {
            data_len == 0
        } else {
            true
        }
    }

    /// Whether decoding fits the capacities of the arrays it fills.
    pub open spec fn fits_capacity(code: u8, data_len: nat, opt_len: nat) -> bool {
        (!Self::is_known_code(code) ==> data_len <= DATA_AFTER_CODE_LENGTH && opt_len <= MAX_OPTIONAL_LENGTH)
    }

    /// Whether this value is what the given code, data bytes and optional bytes decode to.
    pub open spec fn decoded_from(self, wire_code: u8, wire_data: Seq<u8>, wire_opt: Seq<u8>) -> bool {
        match self {
            EventData::SmartAckReclaimNotSuccessful => {
                &&& wire_code == 1
                &&& wire_data.len() == 0
            },
            EventData::SmartAckConfirmLearn { postmaster_priority, manufacturer_id, eep, rssi, postmaster_candidate_id, smart_ack_client_id, hop_count } => {
                &&& wire_code == 2
                &&& wire_data.len() == 16
                &&& postmaster_priority == PostmasterPriority::truncated(wire_data[0])
                &&& manufacturer_id == wire::be_u16_at(wire_data, 1)
                &&& eep == wire::be_u24_at(wire_data, 3)
                &&& rssi == wire_data[6]
                &&& postmaster_candidate_id == wire::be_u32_at(wire_data, 7)
                &&& smart_ack_client_id == wire::be_u32_at(wire_data, 11)
                &&& hop_count == wire_data[15]
            },
            EventData::SmartAckLearnAck { response_time, confirm_code } => {
                &&& wire_code == 3
                &&& wire_data.len() == 3
                &&& response_time == wire::be_u16_at(wire_data, 0)
                &&& confirm_code == SmartAckConfirmCode::from_byte_spec(wire_data[2])
            },
            EventData::CoReady { wakeup_cause, opt_security_mode } => {
                &&& wire_code == 4
                &&& wire_data.len() == 1
                &&& wakeup_cause == WakeupCause::from_byte_spec(wire_data[0])
                &&& opt_security_mode == (if wire_opt.len() >= 1 { Some(SecurityMode::from_byte_spec(wire_opt[0])) } else { None })
            },
            EventData::CoEventSecureDevices { cause, device_id } => {
                &&& wire_code == 5
                &&& wire_data.len() == 5
                &&& cause == SecureDeviceEventCause::from_byte_spec(wire_data[0])
                &&& device_id == wire::be_u32_at(wire_data, 1)
            },
            EventData::CoDutyCycleLimit { sending_possible } => {
                &&& wire_code == 6
                &&& wire_data.len() == 1
                &&& sending_possible == OneByteBoolean::from_byte_spec(wire_data[0])
            },
            EventData::CoTransmitFailed { reason } => {
                &&& wire_code == 7
                &&& wire_data.len() == 1
                &&& reason == TransmissionFailureReason::from_byte_spec(wire_data[0])
            },
            EventData::CoTxDone => {
                &&& wire_code == 8
                &&& wire_data.len() == 0
            },
            EventData::CoLearnModeDisabled => {
                &&& wire_code == 9
                &&& wire_data.len() == 0
            },
            EventData::Unknown { code: c, data: d, optional_data: o } => {
                &&& c == wire_code
                &&& !Self::is_known_code(wire_code)
                &&& d@ == wire_data
                &&& o@ == wire_opt
            },
        }
    }

    /// The code that identifies this event.
    pub fn event_type(&self) -> (ret: u8)
        ensures
            ret == self.code_spec(),
    {
        match self {
            EventData::SmartAckReclaimNotSuccessful => 1,
            EventData::SmartAckConfirmLearn { .. } => 2,
            EventData::SmartAckLearnAck { .. } => 3,
            EventData::CoReady { .. } => 4,
            EventData::CoEventSecureDevices { .. } => 5,
            EventData::CoDutyCycleLimit { .. } => 6,
            EventData::CoTransmitFailed { .. } => 7,
            EventData::CoTxDone => 8,
            EventData::CoLearnModeDisabled => 9,
            EventData::Unknown { code, .. } => *code,
        }
    }

    /// Whether the controller expects a response to this event.
    pub fn expects_response(&self) -> (ret: bool)
        ensures
            ret == (self is SmartAckReclaimNotSuccessful || self is SmartAckConfirmLearn),
    {
        match self {
            EventData::SmartAckReclaimNotSuccessful => true,
            EventData::SmartAckConfirmLearn { .. } => true,
            _ => false,
        }
    }

    /// Encodes the data part of this value: the code followed by the fields.
    pub fn to_packet_data(&self) -> (ret: MaxArray<u8, MAX_DATA_LENGTH>)
        ensures
            ret@ == self.data_spec(),
    {
        let mut ret: MaxArray<u8, MAX_DATA_LENGTH> = MaxArray::new();
        let code = self.event_type();
        ret.push(code).unwrap();
        match self {
            EventData::SmartAckReclaimNotSuccessful => {
            },
            EventData::SmartAckConfirmLearn { postmaster_priority, manufacturer_id, eep, rssi, postmaster_candidate_id, smart_ack_client_id, hop_count } => {
                ret.push(postmaster_priority.bits()).unwrap();
                ret.push_u16_be(*manufacturer_id).unwrap();
                ret.push((*eep >> 16u32) as u8).unwrap();
                ret.push((*eep >> 8u32) as u8).unwrap();
                ret.push(*eep as u8).unwrap();
                ret.push(*rssi).unwrap();
                ret.push_u32_be(*postmaster_candidate_id).unwrap();
                ret.push_u32_be(*smart_ack_client_id).unwrap();
                ret.push(*hop_count).unwrap();
            },
            EventData::SmartAckLearnAck { response_time, confirm_code } => {
                ret.push_u16_be(*response_time).unwrap();
                ret.push(u8::from(*confirm_code)).unwrap();
            },
            EventData::CoReady { wakeup_cause, .. } => {
                ret.push(u8::from(*wakeup_cause)).unwrap();
            },
            EventData::CoEventSecureDevices { cause, device_id } => {
                ret.push(u8::from(*cause)).unwrap();
                ret.push_u32_be(*device_id).unwrap();
            },
            EventData::CoDutyCycleLimit { sending_possible } => {
                ret.push(u8::from(*sending_possible)).unwrap();
            },
            EventData::CoTransmitFailed { reason } => {
                ret.push(u8::from(*reason)).unwrap();
            },
            EventData::CoTxDone => {
            },
            EventData::CoLearnModeDisabled => {
            },
            EventData::Unknown { data, .. } => {
                proof { use_type_invariant(data); }
                push_bytes(&mut ret, data.as_slice());
            },
        }
        ret
    }

    /// Encodes the optional part of this value; `None` if an optional field is set while an
    /// earlier one is not.
    pub fn to_packet_optional(&self) -> (ret: Option<MaxArray<u8, MAX_OPTIONAL_LENGTH>>)
        requires
            self matches EventData::Unknown { optional_data, .. } ==> optional_data@.len() < MAX_OPTIONAL_LENGTH,
        ensures
            match self.optional_spec() {
                Some(o) => ret matches Some(r) && r@ == o,
                None => ret is None,
            },
    {
        let mut ret: MaxArray<u8, MAX_OPTIONAL_LENGTH> = MaxArray::new();
        let code = self.event_type();
        ret.push(code).unwrap();
        match self {
            EventData::CoReady { opt_security_mode, .. } => {
                if let Some(x) = opt_security_mode {
                    ret.push(u8::from(*x)).unwrap();
                }
            },
            EventData::Unknown { optional_data, .. } => {
                proof { use_type_invariant(optional_data); }
                push_bytes(&mut ret, optional_data.as_slice());
            },
            _ => {},
        }
        Some(ret)
    }

    /// Decodes a value from its code, the data bytes after the code and the optional bytes.
    ///
    /// Returns `None` if the data does not have the length that the code calls for; codes that
    /// this library does not know decode to `Unknown`.
    #[verifier::rlimit(50)]
    pub fn from_data(event_code: u8, data_slice: &[u8], optional_slice: &[u8]) -> (ret: Option<Self>)
        requires
            Self::fits_capacity(event_code, data_slice@.len(), optional_slice@.len()),
        ensures
            ret is Some <==> Self::accepts(event_code, data_slice@.len()),
            ret matches Some(v) ==> v.decoded_from(event_code, data_slice@, optional_slice@),
    {
        match event_code {
            1u8 => {
                if data_slice.len() != 0 {
                    return None;
                }
                Some(EventData::SmartAckReclaimNotSuccessful)
            },
            2u8 => {
                if data_slice.len() != 16 {
                    return None;
                }
                let postmaster_priority = PostmasterPriority::from_bits_truncate(data_slice[0]);
                let manufacturer_id = read_u16_be(data_slice, 1);
                let eep = read_u24_be(data_slice, 3);
                let rssi = data_slice[6];
                let postmaster_candidate_id = read_u32_be(data_slice, 7);
                let smart_ack_client_id = read_u32_be(data_slice, 11);
                let hop_count = data_slice[15];
                Some(EventData::SmartAckConfirmLearn { postmaster_priority, manufacturer_id, eep, rssi, postmaster_candidate_id, smart_ack_client_id, hop_count })
            },
            3u8 => {
                if data_slice.len() != 3 {
                    return None;
                }
                let response_time = read_u16_be(data_slice, 0);
                let confirm_code = SmartAckConfirmCode::from(data_slice[2]);
                Some(EventData::SmartAckLearnAck { response_time, confirm_code })
            },
            4u8 => {
                if data_slice.len() != 1 {
                    return None;
                }
                let wakeup_cause = WakeupCause::from(data_slice[0]);
                let opt_security_mode = if optional_slice.len() >= 1 {
                    Some(SecurityMode::from(optional_slice[0]))
                } else {
                    None
                };
                Some(EventData::CoReady { wakeup_cause, opt_security_mode })
            },
            5u8 => {
                if data_slice.len() != 5 {
                    return None;
                }
                let cause = SecureDeviceEventCause::from(data_slice[0]);
                let device_id = read_u32_be(data_slice, 1);
                Some(EventData::CoEventSecureDevices { cause, device_id })
            },
            6u8 => {
                if data_slice.len() != 1 {
                    return None;
                }
                let sending_possible = OneByteBoolean::from(data_slice[0]);
                Some(EventData::CoDutyCycleLimit { sending_possible })
            },
            7u8 => {
                if data_slice.len() != 1 {
                    return None;
                }
                let reason = TransmissionFailureReason::from(data_slice[0]);
                Some(EventData::CoTransmitFailed { reason })
            },
            8u8 => {
                if data_slice.len() != 0 {
                    return None;
                }
                Some(EventData::CoTxDone)
            },
            9u8 => {
                if data_slice.len() != 0 {
                    return None;
                }
                Some(EventData::CoLearnModeDisabled)
            },
            _ => {
                let data = MaxArray::from_iter_or_panic(data_slice);
                let optional_data = MaxArray::from_iter_or_panic(optional_slice);
                Some(EventData::Unknown { code: event_code, data, optional_data })
            },
        }
    }

    /// Whether encoding this value and decoding the bytes gives back this value: every field
    /// holds a value that its bytes decode to, and the variant is one whose encoding its
    /// decoding reads back.
    pub open spec fn round_trips(self) -> bool {
        match self {
            EventData::SmartAckReclaimNotSuccessful => true,
            EventData::SmartAckConfirmLearn { postmaster_priority, manufacturer_id, eep, rssi, postmaster_candidate_id, smart_ack_client_id, hop_count } => postmaster_priority.bits_spec() < 16 && eep < 0x100_0000,
            EventData::SmartAckLearnAck { response_time, confirm_code } => SmartAckConfirmCode::from_byte_spec(confirm_code.to_byte_spec()) == confirm_code,
            EventData::CoReady { .. } => false,
            EventData::CoEventSecureDevices { cause, device_id } => SecureDeviceEventCause::from_byte_spec(cause.to_byte_spec()) == cause,
            EventData::CoDutyCycleLimit { sending_possible } => OneByteBoolean::from_byte_spec(sending_possible.to_byte_spec()) == sending_possible,
            EventData::CoTransmitFailed { reason } => TransmissionFailureReason::from_byte_spec(reason.to_byte_spec()) == reason,
            EventData::CoTxDone => true,
            EventData::CoLearnModeDisabled => true,
            EventData::Unknown { .. } => false,
        }
    }

    /// Decoding the bytes that encode a value gives back that value.
    pub proof fn lemma_encoded_decodes(self)
        requires
            self.round_trips(),
            self.optional_spec() is Some,
        ensures
            Self::accepts(self.code_spec(), (self.data_spec().len() - 1) as nat),
            self.decoded_from(self.code_spec(), self.data_spec().drop_first(), self.optional_spec().unwrap()),
    {
        let d = self.data_spec().drop_first();
        let o = self.optional_spec().unwrap();
        match self {
            EventData::SmartAckReclaimNotSuccessful => {
                assert(d.len() == 0);
            },
            EventData::SmartAckConfirmLearn { postmaster_priority, manufacturer_id, eep, rssi, postmaster_candidate_id, smart_ack_client_id, hop_count } => {
                assert(d.len() == 16);
                assert(d[0] == postmaster_priority.bits_spec());
                postmaster_priority.lemma_bits_truncated();
                assert(d.subrange(1int, 3int) =~= max_array_ext::be_u16_bytes(manufacturer_id));
                wire::lemma_u16_roundtrip(manufacturer_id);
                assert(d.subrange(3int, 6int) =~= wire::be_u24_bytes(eep));
                wire::lemma_u24_roundtrip(eep);
                assert(d[6] == rssi);
                assert(d.subrange(7int, 11int) =~= max_array_ext::be_u32_bytes(postmaster_candidate_id));
                wire::lemma_u32_roundtrip(postmaster_candidate_id);
                assert(d.subrange(11int, 15int) =~= max_array_ext::be_u32_bytes(smart_ack_client_id));
                wire::lemma_u32_roundtrip(smart_ack_client_id);
                assert(d[15] == hop_count);
            },
            EventData::SmartAckLearnAck { response_time, confirm_code } => {
                assert(d.len() == 3);
                assert(d.subrange(0int, 2int) =~= max_array_ext::be_u16_bytes(response_time));
                wire::lemma_u16_roundtrip(response_time);
                assert(d[2] == confirm_code.to_byte_spec());
            },
            EventData::CoReady { .. } => {},
            EventData::CoEventSecureDevices { cause, device_id } => {
                assert(d.len() == 5);
                assert(d[0] == cause.to_byte_spec());
                assert(d.subrange(1int, 5int) =~= max_array_ext::be_u32_bytes(device_id));
                wire::lemma_u32_roundtrip(device_id);
            },
            EventData::CoDutyCycleLimit { sending_possible } => {
                assert(d.len() == 1);
                assert(d[0] == sending_possible.to_byte_spec());
            },
            EventData::CoTransmitFailed { reason } => {
                assert(d.len() == 1);
                assert(d[0] == reason.to_byte_spec());
            },
            EventData::CoTxDone => {
                assert(d.len() == 0);
            },
            EventData::CoLearnModeDisabled => {
                assert(d.len() == 0);
            },
            EventData::Unknown { .. } => {},
        }
    }

    /// Encoding a decoded value gives back the data bytes it was decoded from (for the
    /// variants whose decoding reads every data byte and keeps every bit of it).
    pub proof fn lemma_decoded_encodes(self, wire_code: u8, wire_data: Seq<u8>, wire_opt: Seq<u8>)
        requires
            self.decoded_from(wire_code, wire_data, wire_opt),
            self is SmartAckConfirmLearn ==> wire_data[0] < 16,
        ensures
            self.data_spec() == Seq::<u8>::empty().push(wire_code) + wire_data,
    {
        let expected = Seq::<u8>::empty().push(wire_code) + wire_data;
        match self {
            EventData::SmartAckReclaimNotSuccessful => {
                assert(self.data_spec() =~= expected);
            },
            EventData::SmartAckConfirmLearn { postmaster_priority, manufacturer_id, eep, rssi, postmaster_candidate_id, smart_ack_client_id, hop_count } => {
                PostmasterPriority::lemma_truncated_bits(wire_data[0]);
                wire::lemma_u16_bytes_of(wire_data.subrange(1int, 3int));
                wire::lemma_u24_bytes_of(wire_data.subrange(3int, 6int));
                wire::lemma_u32_bytes_of(wire_data.subrange(7int, 11int));
                wire::lemma_u32_bytes_of(wire_data.subrange(11int, 15int));
                assert(self.data_spec() =~= expected);
            },
            EventData::SmartAckLearnAck { response_time, confirm_code } => {
                wire::lemma_u16_bytes_of(wire_data.subrange(0int, 2int));
                SmartAckConfirmCode::lemma_byte_roundtrip(wire_data[2]);
                assert(self.data_spec() =~= expected);
            },
            EventData::CoReady { wakeup_cause, .. } => {
                WakeupCause::lemma_byte_roundtrip(wire_data[0]);
                assert(self.data_spec() =~= expected);
            },
            EventData::CoEventSecureDevices { cause, device_id } => {
                SecureDeviceEventCause::lemma_byte_roundtrip(wire_data[0]);
                wire::lemma_u32_bytes_of(wire_data.subrange(1int, 5int));
                assert(self.data_spec() =~= expected);
            },
            EventData::CoDutyCycleLimit { sending_possible } => {
                OneByteBoolean::lemma_byte_roundtrip(wire_data[0]);
                assert(self.data_spec() =~= expected);
            },
            EventData::CoTransmitFailed { reason } => {
                TransmissionFailureReason::lemma_byte_roundtrip(wire_data[0]);
                assert(self.data_spec() =~= expected);
            },
            EventData::CoTxDone => {
                assert(self.data_spec() =~= expected);
            },
            EventData::CoLearnModeDisabled => {
                assert(self.data_spec() =~= expected);
            },
            EventData::Unknown { .. } => {
                assert(self.data_spec() =~= expected);
            },
        }
    }
}

} // verus!
