//! Common commands sent to the EnOcean controller.

use vstd::prelude::*;
use crate::max_array::MaxArray;
use crate::max_array_ext::{self, MaxArrayPushIntExt};
use crate::esp3::{MAX_DATA_LENGTH, MAX_OPTIONAL_LENGTH, DATA_AFTER_CODE_LENGTH, MEMORY_WRITE_LENGTH};
use crate::esp3::codes::{RepeaterEnable, RepeaterLevel, FilterCriterion, FilterAction, OneByteBoolean, FilterOperator, MemoryType, AddressArea, ChannelNumber, DirectionTable, DirectionTableBoth, DirectionTableMaintenance, TransceiverMode, BaudRate, TxOnlyMode};
use crate::esp3::wire::{self, push_bytes, read_u16_be, read_u24_be, read_u32_be, read_u32x4_be};

verus! {

/// An EnOcean common command.
#[derive(Clone, Debug, PartialEq, Eq, Hash, PartialOrd, Ord)]
pub enum CommandData {
    CoWrSleep {
        deep_sleep_period: u32,
    },
    CoWrReset,
    CoRdVersion,
    CoRdSysLog,
    CoWrSysLog,
    CoWrBiSt,
    CoWrIdBase {
        base_id: u32,
    },
    CoRdIdBase,
    CoWrRepeater {
        enable: RepeaterEnable,
        level: RepeaterLevel,
    },
    CoRdRepeater,
    CoWrFilterAdd {
        criterion: FilterCriterion,
        value: u32,
        action: FilterAction,
    },
    CoWrFilterDel {
        criterion: FilterCriterion,
        value: u32,
        action: FilterAction,
    },
    CoWrFilterDelAll,
    CoWrFilterEnable {
        enable: OneByteBoolean,
        operator: FilterOperator,
    },
    CoRdFilter,
    CoWrWaitMaturity {
        wait_for_maturity: OneByteBoolean,
    },
    CoWrSubTelegram {
        enable_subtelegram_info: OneByteBoolean,
    },
    CoWrMem {
        memory_type: MemoryType,
        address: u32,
        data: MaxArray<u8, MEMORY_WRITE_LENGTH>,
    },
    CoRdMem {
        memory_type: MemoryType,
        address: u32,
        length: u16,
    },
    CoRdMemAddress {
        area: AddressArea,
    },
    /// Deprecated in the protocol.
    CoRdSecurity,
    /// Deprecated in the protocol. Decoding expects ten data bytes, of which the last is ignored.
    CoWrSecurity {
        security_level: u8,
        key: u32,
        rolling_code: u32,
    },
    CoWrLearnMode {
        enable: OneByteBoolean,
        timeout: u32,
        opt_channel: Option<ChannelNumber>,
    },
    CoRdLearnMode,
    /// Deprecated in the protocol. The rolling code is three bytes long.
    CoWrSecureDeviceAdd {
        slf: u8,
        device_id: u32,
        private_key: [u32; 4],
        rolling_code: u32,
        opt_direction: Option<DirectionTable>,
        opt_is_ptm_sender: Option<OneByteBoolean>,
        opt_teach_info: Option<u8>,
    },
    CoWrSecureDeviceDel {
        device_id: u32,
        opt_direction: Option<DirectionTableBoth>,
    },
    /// Deprecated in the protocol.
    CoRdSecureDeviceByIndex {
        index: u8,
        opt_direction: Option<DirectionTable>,
    },
    CoWrMode {
        mode: TransceiverMode,
    },
    CoRdNumSecureDevices {
        opt_direction: Option<DirectionTableBoth>,
    },
    CoRdSecureDeviceById {
        device_id: u32,
        opt_direction: Option<DirectionTableMaintenance>,
    },
    CoWrSecureDeviceAddPsk {
        device_id: u32,
        psk: [u32; 4],
    },
    CoWrSecureDeviceSendTeachIn {
        device_id: u32,
        opt_teach_info: Option<u8>,
    },
    CoWrTemporaryRlcWindow {
        enable: OneByteBoolean,
        rlc_window: u32,
    },
    CoRdSecureDevicePsk {
        device_id: u32,
    },
    CoRdDutyCycleLimit,
    CoSetBaudRate {
        baud_rate: BaudRate,
    },
    CoGetFrequencyInfo,
    CoGetStepCode,
    CoWrReManCode {
        code: u32,
    },
    CoWrStartupDelay {
        delay: u8,
    },
    CoWrReManRepeating {
        repeat_re_man_telegrams: OneByteBoolean,
    },
    CoRdReManRepeating,
    CoSetNoiseThreshold {
        rssi_level: u8,
    },
    CoGetNoiseThreshold,
    CoWrRlcSavePeriod {
        save_period: u8,
    },
    CoWrRlcLegacyMode {
        enable: OneByteBoolean,
    },
    CoWrSecureDeviceV2Add {
        slf: u8,
        device_id: u32,
        private_key: [u32; 4],
        rolling_code: u32,
        teach_info: u8,
        opt_direction: Option<DirectionTable>,
    },
    CoRdSecureDeviceV2ByIndex {
        index: u8,
        opt_direction: Option<DirectionTable>,
    },
    CoWrRssiTestMode {
        enable: OneByteBoolean,
        timeout: u16,
    },
    CoRdRssiTestMode,
    CoWrSecureDeviceMaintenanceKey {
        device_id: u32,
        maintenance_key: [u32; 4],
        key_number: u8,
    },
    CoRdSecureDeviceMaintenanceKey {
        index: u8,
    },
    CoWrTransparentMode {
        enable: OneByteBoolean,
    },
    CoRdTransparentMode,
    CoWrTxOnlyMode {
        mode: TxOnlyMode,
    },
    CoRdTxOnlyMode,
    /// A code that this library does not know, with its raw data and optional data.
    Unknown {
        code: u8,
        data: MaxArray<u8, DATA_AFTER_CODE_LENGTH>,
        optional_data: MaxArray<u8, MAX_OPTIONAL_LENGTH>,
    },
}

impl CommandData {
    /// The code that identifies this command on the wire.
    pub open spec fn code_spec(self) -> u8 {
        match self {
            CommandData::CoWrSleep { .. } => 1,
            CommandData::CoWrReset => 2,
            CommandData::CoRdVersion => 3,
            CommandData::CoRdSysLog => 4,
            CommandData::CoWrSysLog => 5,
            CommandData::CoWrBiSt => 6,
            CommandData::CoWrIdBase { .. } => 7,
            CommandData::CoRdIdBase => 8,
            CommandData::CoWrRepeater { .. } => 9,
            CommandData::CoRdRepeater => 10,
            CommandData::CoWrFilterAdd { .. } => 11,
            CommandData::CoWrFilterDel { .. } => 12,
            CommandData::CoWrFilterDelAll => 13,
            CommandData::CoWrFilterEnable { .. } => 14,
            CommandData::CoRdFilter => 15,
            CommandData::CoWrWaitMaturity { .. } => 16,
            CommandData::CoWrSubTelegram { .. } => 17,
            CommandData::CoWrMem { .. } => 18,
            CommandData::CoRdMem { .. } => 19,
            CommandData::CoRdMemAddress { .. } => 20,
            CommandData::CoRdSecurity => 21,
            CommandData::CoWrSecurity { .. } => 22,
            CommandData::CoWrLearnMode { .. } => 23,
            CommandData::CoRdLearnMode => 24,
            CommandData::CoWrSecureDeviceAdd { .. } => 25,
            CommandData::CoWrSecureDeviceDel { .. } => 26,
            CommandData::CoRdSecureDeviceByIndex { .. } => 27,
            CommandData::CoWrMode { .. } => 28,
            CommandData::CoRdNumSecureDevices { .. } => 29,
            CommandData::CoRdSecureDeviceById { .. } => 30,
            CommandData::CoWrSecureDeviceAddPsk { .. } => 31,
            CommandData::CoWrSecureDeviceSendTeachIn { .. } => 32,
            CommandData::CoWrTemporaryRlcWindow { .. } => 33,
            CommandData::CoRdSecureDevicePsk { .. } => 34,
            CommandData::CoRdDutyCycleLimit => 35,
            CommandData::CoSetBaudRate { .. } => 36,
            CommandData::CoGetFrequencyInfo => 37,
            CommandData::CoGetStepCode => 39,
            CommandData::CoWrReManCode { .. } => 46,
            CommandData::CoWrStartupDelay { .. } => 47,
            CommandData::CoWrReManRepeating { .. } => 48,
            CommandData::CoRdReManRepeating => 49,
            CommandData::CoSetNoiseThreshold { .. } => 50,
            CommandData::CoGetNoiseThreshold => 51,
            CommandData::CoWrRlcSavePeriod { .. } => 54,
            CommandData::CoWrRlcLegacyMode { .. } => 55,
            CommandData::CoWrSecureDeviceV2Add { .. } => 56,
            CommandData::CoRdSecureDeviceV2ByIndex { .. } => 57,
            CommandData::CoWrRssiTestMode { .. } => 58,
            CommandData::CoRdRssiTestMode => 59,
            CommandData::CoWrSecureDeviceMaintenanceKey { .. } => 60,
            CommandData::CoRdSecureDeviceMaintenanceKey { .. } => 61,
            CommandData::CoWrTransparentMode { .. } => 62,
            CommandData::CoRdTransparentMode => 63,
            CommandData::CoWrTxOnlyMode { .. } => 64,
            CommandData::CoRdTxOnlyMode => 65,
            CommandData::Unknown { code, .. } => code,
        }
    }

    /// Whether a variant of this type (other than `Unknown`) has the given code.
    pub open spec fn is_known_code(code: u8) -> bool {
        code == 1 || code == 2 || code == 3 || code == 4 || code == 5 || code == 6 || code == 7 || code == 8 || code == 9 || code == 10 || code == 11 || code == 12 || code == 13 || code == 14 || code == 15 || code == 16 || code == 17 || code == 18 || code == 19 || code == 20 || code == 21 || code == 22 || code == 23 || code == 24 || code == 25 || code == 26 || code == 27 || code == 28 || code == 29 || code == 30 || code == 31 || code == 32 || code == 33 || code == 34 || code == 35 || code == 36 || code == 37 || code == 39 || code == 46 || code == 47 || code == 48 || code == 49 || code == 50 || code == 51 || code == 54 || code == 55 || code == 56 || code == 57 || code == 58 || code == 59 || code == 60 || code == 61 || code == 62 || code == 63 || code == 64 || code == 65
    }

    /// The data bytes that encode this value: the code followed by the fields.
    pub open spec fn data_spec(self) -> Seq<u8> {
        match self {
            CommandData::CoWrSleep { deep_sleep_period } => (Seq::<u8>::empty().push(1u8) + max_array_ext::be_u32_bytes(deep_sleep_period)),
            CommandData::CoWrReset => Seq::<u8>::empty().push(2u8),
            CommandData::CoRdVersion => Seq::<u8>::empty().push(3u8),
            CommandData::CoRdSysLog => Seq::<u8>::empty().push(4u8),
            CommandData::CoWrSysLog => Seq::<u8>::empty().push(5u8),
            CommandData::CoWrBiSt => Seq::<u8>::empty().push(6u8),
            CommandData::CoWrIdBase { base_id } => (Seq::<u8>::empty().push(7u8) + max_array_ext::be_u32_bytes(base_id)),
            CommandData::CoRdIdBase => Seq::<u8>::empty().push(8u8),
            CommandData::CoWrRepeater { enable, level } => Seq::<u8>::empty().push(9u8).push(enable.to_byte_spec()).push(level.to_byte_spec()),
            CommandData::CoRdRepeater => Seq::<u8>::empty().push(10u8),
            CommandData::CoWrFilterAdd { criterion, value, action } => (Seq::<u8>::empty().push(11u8).push(criterion.to_byte_spec()) + max_array_ext::be_u32_bytes(value)).push(action.to_byte_spec()),
            CommandData::CoWrFilterDel { criterion, value, action } => (Seq::<u8>::empty().push(12u8).push(criterion.to_byte_spec()) + max_array_ext::be_u32_bytes(value)).push(action.to_byte_spec()),
            CommandData::CoWrFilterDelAll => Seq::<u8>::empty().push(13u8),
            CommandData::CoWrFilterEnable { enable, operator } => Seq::<u8>::empty().push(14u8).push(enable.to_byte_spec()).push(operator.to_byte_spec()),
            CommandData::CoRdFilter => Seq::<u8>::empty().push(15u8),
            CommandData::CoWrWaitMaturity { wait_for_maturity } => Seq::<u8>::empty().push(16u8).push(wait_for_maturity.to_byte_spec()),
            CommandData::CoWrSubTelegram { enable_subtelegram_info } => Seq::<u8>::empty().push(17u8).push(enable_subtelegram_info.to_byte_spec()),
            CommandData::CoWrMem { memory_type, address, data } => ((Seq::<u8>::empty().push(18u8).push(memory_type.to_byte_spec()) + max_array_ext::be_u32_bytes(address)) + data@),
            CommandData::CoRdMem { memory_type, address, length } => ((Seq::<u8>::empty().push(19u8).push(memory_type.to_byte_spec()) + max_array_ext::be_u32_bytes(address)) + max_array_ext::be_u16_bytes(length)),
            CommandData::CoRdMemAddress { area } => Seq::<u8>::empty().push(20u8).push(area.to_byte_spec()),
            CommandData::CoRdSecurity => Seq::<u8>::empty().push(21u8),
            CommandData::CoWrSecurity { security_level, key, rolling_code } => ((Seq::<u8>::empty().push(22u8).push(security_level) + max_array_ext::be_u32_bytes(key)) + max_array_ext::be_u32_bytes(rolling_code)),
            CommandData::CoWrLearnMode { enable, timeout, .. } => (Seq::<u8>::empty().push(23u8).push(enable.to_byte_spec()) + max_array_ext::be_u32_bytes(timeout)),
            CommandData::CoRdLearnMode => Seq::<u8>::empty().push(24u8),
            CommandData::CoWrSecureDeviceAdd { slf, device_id, private_key, rolling_code, .. } => (((Seq::<u8>::empty().push(25u8).push(slf) + max_array_ext::be_u32_bytes(device_id)) + max_array_ext::be_u32_bytes(private_key[0]) + max_array_ext::be_u32_bytes(private_key[1]) + max_array_ext::be_u32_bytes(private_key[2]) + max_array_ext::be_u32_bytes(private_key[3])) + wire::be_u24_bytes(rolling_code)),
            CommandData::CoWrSecureDeviceDel { device_id, .. } => (Seq::<u8>::empty().push(26u8) + max_array_ext::be_u32_bytes(device_id)),
            CommandData::CoRdSecureDeviceByIndex { index, .. } => Seq::<u8>::empty().push(27u8).push(index),
            CommandData::CoWrMode { mode } => Seq::<u8>::empty().push(28u8).push(mode.to_byte_spec()),
            CommandData::CoRdNumSecureDevices { .. } => Seq::<u8>::empty().push(29u8),
            CommandData::CoRdSecureDeviceById { device_id, .. } => (Seq::<u8>::empty().push(30u8) + max_array_ext::be_u32_bytes(device_id)),
            CommandData::CoWrSecureDeviceAddPsk { device_id, psk } => ((Seq::<u8>::empty().push(31u8) + max_array_ext::be_u32_bytes(device_id)) + max_array_ext::be_u32_bytes(psk[0]) + max_array_ext::be_u32_bytes(psk[1]) + max_array_ext::be_u32_bytes(psk[2]) + max_array_ext::be_u32_bytes(psk[3])),
            CommandData::CoWrSecureDeviceSendTeachIn { device_id, .. } => (Seq::<u8>::empty().push(32u8) + max_array_ext::be_u32_bytes(device_id)),
            CommandData::CoWrTemporaryRlcWindow { enable, rlc_window } => (Seq::<u8>::empty().push(33u8).push(enable.to_byte_spec()) + max_array_ext::be_u32_bytes(rlc_window)),
            CommandData::CoRdSecureDevicePsk { device_id } => (Seq::<u8>::empty().push(34u8) + max_array_ext::be_u32_bytes(device_id)),
            CommandData::CoRdDutyCycleLimit => Seq::<u8>::empty().push(35u8),
            CommandData::CoSetBaudRate { baud_rate } => Seq::<u8>::empty().push(36u8).push(baud_rate.to_byte_spec()),
            CommandData::CoGetFrequencyInfo => Seq::<u8>::empty().push(37u8),
            CommandData::CoGetStepCode => Seq::<u8>::empty().push(39u8),
            CommandData::CoWrReManCode { code } => (Seq::<u8>::empty().push(46u8) + max_array_ext::be_u32_bytes(code)),
            CommandData::CoWrStartupDelay { delay } => Seq::<u8>::empty().push(47u8).push(delay),
            CommandData::CoWrReManRepeating { repeat_re_man_telegrams } => Seq::<u8>::empty().push(48u8).push(repeat_re_man_telegrams.to_byte_spec()),
            CommandData::CoRdReManRepeating => Seq::<u8>::empty().push(49u8),
            CommandData::CoSetNoiseThreshold { rssi_level } => Seq::<u8>::empty().push(50u8).push(rssi_level),
            CommandData::CoGetNoiseThreshold => Seq::<u8>::empty().push(51u8),
            CommandData::CoWrRlcSavePeriod { save_period } => Seq::<u8>::empty().push(54u8).push(save_period),
            CommandData::CoWrRlcLegacyMode { enable } => Seq::<u8>::empty().push(55u8).push(enable.to_byte_spec()),
            CommandData::CoWrSecureDeviceV2Add { slf, device_id, private_key, rolling_code, teach_info, .. } => (((Seq::<u8>::empty().push(56u8).push(slf) + max_array_ext::be_u32_bytes(device_id)) + max_array_ext::be_u32_bytes(private_key[0]) + max_array_ext::be_u32_bytes(private_key[1]) + max_array_ext::be_u32_bytes(private_key[2]) + max_array_ext::be_u32_bytes(private_key[3])) + max_array_ext::be_u32_bytes(rolling_code)).push(teach_info),
            CommandData::CoRdSecureDeviceV2ByIndex { index, .. } => Seq::<u8>::empty().push(57u8).push(index),
            CommandData::CoWrRssiTestMode { enable, timeout } => (Seq::<u8>::empty().push(58u8).push(enable.to_byte_spec()) + max_array_ext::be_u16_bytes(timeout)),
            CommandData::CoRdRssiTestMode => Seq::<u8>::empty().push(59u8),
            CommandData::CoWrSecureDeviceMaintenanceKey { device_id, maintenance_key, key_number } => ((Seq::<u8>::empty().push(60u8) + max_array_ext::be_u32_bytes(device_id)) + max_array_ext::be_u32_bytes(maintenance_key[0]) + max_array_ext::be_u32_bytes(maintenance_key[1]) + max_array_ext::be_u32_bytes(maintenance_key[2]) + max_array_ext::be_u32_bytes(maintenance_key[3])).push(key_number),
            CommandData::CoRdSecureDeviceMaintenanceKey { index } => Seq::<u8>::empty().push(61u8).push(index),
            CommandData::CoWrTransparentMode { enable } => Seq::<u8>::empty().push(62u8).push(enable.to_byte_spec()),
            CommandData::CoRdTransparentMode => Seq::<u8>::empty().push(63u8),
            CommandData::CoWrTxOnlyMode { mode } => Seq::<u8>::empty().push(64u8).push(mode.to_byte_spec()),
            CommandData::CoRdTxOnlyMode => Seq::<u8>::empty().push(65u8),
            CommandData::Unknown { code, data, .. } => Seq::<u8>::empty().push(code) + data@,
        }
    }

    /// The optional bytes that encode this value, or `None` if an optional field is set while
    /// an earlier one is not.
    pub open spec fn optional_spec(self) -> Option<Seq<u8>> {
        match self {
            CommandData::CoWrLearnMode { opt_channel, .. } => {
                let s0 = Seq::<u8>::empty();
                let s1 = match opt_channel { Some(x) => s0.push(x.to_byte_spec()), None => s0 };
                Some(s1)
            },
            CommandData::CoWrSecureDeviceAdd { opt_direction, opt_is_ptm_sender, opt_teach_info, .. } => {
                let s0 = Seq::<u8>::empty();
                let s1 = match opt_direction { Some(x) => s0.push(x.to_byte_spec()), None => s0 };
                let s2 = match opt_is_ptm_sender { Some(x) => s1.push(x.to_byte_spec()), None => s1 };
                let s3 = match opt_teach_info { Some(x) => s2.push(x), None => s2 };
                if (opt_direction is None && (opt_is_ptm_sender is Some || opt_teach_info is Some)) || (opt_is_ptm_sender is None && (opt_teach_info is Some)) { None } else { Some(s3) }
            },
            CommandData::CoWrSecureDeviceDel { opt_direction, .. } => {
                let s0 = Seq::<u8>::empty();
                let s1 = match opt_direction { Some(x) => s0.push(x.to_byte_spec()), None => s0 };
                Some(s1)
            },
            CommandData::CoRdSecureDeviceByIndex { opt_direction, .. } => {
                let s0 = Seq::<u8>::empty();
                let s1 = match opt_direction { Some(x) => s0.push(x.to_byte_spec()), None => s0 };
                Some(s1)
            },
            CommandData::CoRdNumSecureDevices { opt_direction, .. } => {
                let s0 = Seq::<u8>::empty();
                let s1 = match opt_direction { Some(x) => s0.push(x.to_byte_spec()), None => s0 };
                Some(s1)
            },
            CommandData::CoRdSecureDeviceById { opt_direction, .. } => {
                let s0 = Seq::<u8>::empty();
                let s1 = match opt_direction { Some(x) => s0.push(x.to_byte_spec()), None => s0 };
                Some(s1)
            },
            CommandData::CoWrSecureDeviceSendTeachIn { opt_teach_info, .. } => {
                let s0 = Seq::<u8>::empty();
                let s1 = match opt_teach_info { Some(x) => s0.push(x), None => s0 };
                Some(s1)
            },
            CommandData::CoWrSecureDeviceV2Add { opt_direction, .. } => {
                let s0 = Seq::<u8>::empty();
                let s1 = match opt_direction { Some(x) => s0.push(x.to_byte_spec()), None => s0 };
                Some(s1)
            },
            CommandData::CoRdSecureDeviceV2ByIndex { opt_direction, .. } => {
                let s0 = Seq::<u8>::empty();
                let s1 = match opt_direction { Some(x) => s0.push(x.to_byte_spec()), None => s0 };
                Some(s1)
            },
            CommandData::Unknown { optional_data, .. } => Some(Seq::<u8>::empty() + optional_data@),
            _ => Some(Seq::<u8>::empty()),
        }
    }

    /// Whether data bytes of the given length decode for the given code.
    pub open spec fn accepts(code: u8, data_len: nat) -> bool {
        if code == 1 {
            data_len == 4
        } else if code == 2 {
            data_len == 0
        } else if code == 3 {
            data_len == 0
        } else if code == 4 {
            data_len == 0
        } else if code == 5 {
            data_len == 0
        } else if code == 6 {
            data_len == 0
        } else if code == 7 {
            data_len == 4
        } else if code == 8 {
            data_len == 0
        } else if code == 9 {
            data_len == 2
        } else if code == 10 {
            data_len == 0
        } else if code == 11 {
            data_len == 6
        } else if code == 12 {
            data_len == 6
        } else if code == 13 {
            data_len == 0
        } else if code == 14 {
            data_len == 2
        } else if code == 15 {
            data_len == 0
        } else if code == 16 {
            data_len == 1
        } else if code == 17 {
            data_len == 1
        } else if code == 18 {
            data_len >= 5
        } else if code == 19 {
            data_len == 7
        } else if code == 20 {
            data_len == 1
        } else if code == 21 {
            data_len == 0
        } else if code == 22 {
            data_len == 10
        } else if code == 23 {
            data_len == 5
        } else if code == 24 {
            data_len == 0
        } else if code == 25 {
            data_len == 24
        } else if code == 26 {
            data_len == 4
        } else if code == 27 {
            data_len == 1
        } else if code == 28 {
            data_len == 1
        } else if code == 29 {
            data_len == 0
        } else if code == 30 {
            data_len == 4
        } else if code == 31 {
            data_len == 20
        } else if code == 32 {
            data_len == 4
        } else if code == 33 {
            data_len == 5
        } else if code == 34 {
            data_len == 4
        } else if code == 35 {
            data_len == 0
        } else if code == 36 {
            data_len == 1
        } else if code == 37 {
            data_len == 0
        } else if code == 39 {
            data_len == 0
        } else if code == 46 {
            data_len == 4
        } else if code == 47 {
            data_len == 1
        } else if code == 48 {
            data_len == 1
        } else if code == 49 {
            data_len == 0
        } else if code == 50 {
            data_len == 1
        } else if code == 51 {
            data_len == 0
        } else if code == 54 {
            data_len == 1
        } else if code == 55 {
            data_len == 1
        } else if code == 56 {
            data_len == 26
        } else if code == 57 {
            data_len == 1
        } else if code == 58 {
            data_len == 3
        } else if code == 59 {
            data_len == 0
        } else if code == 60 {
            data_len == 21
        } else if code == 61 {
            data_len == 1
        } else if code == 62 {
            data_len == 1
        } else if code == 63 {
            data_len == 0
        } else if code == 64 {
            data_len == 1
        } else if code == 65 {
            data_len == 0
        } else {
            true
        }
    }

    /// Whether decoding fits the capacities of the arrays it fills.
    pub open spec fn fits_capacity(code: u8, data_len: nat, opt_len: nat) -> bool {
        (!Self::is_known_code(code) ==> data_len <= DATA_AFTER_CODE_LENGTH && opt_len <= MAX_OPTIONAL_LENGTH)
            && (code == 18 ==> data_len <= 5 + MEMORY_WRITE_LENGTH)
    }

    /// Whether this value is what the given code, data bytes and optional bytes decode to.
    pub open spec fn decoded_from(self, wire_code: u8, wire_data: Seq<u8>, wire_opt: Seq<u8>) -> bool {
        match self {
            CommandData::CoWrSleep { deep_sleep_period } => {
                &&& wire_code == 1
                &&& wire_data.len() == 4
                &&& deep_sleep_period == wire::be_u32_at(wire_data, 0)
            },
            CommandData::CoWrReset => {
                &&& wire_code == 2
                &&& wire_data.len() == 0
            },
            CommandData::CoRdVersion => {
                &&& wire_code == 3
                &&& wire_data.len() == 0
            },
            CommandData::CoRdSysLog => {
                &&& wire_code == 4
                &&& wire_data.len() == 0
            },
            CommandData::CoWrSysLog => {
                &&& wire_code == 5
                &&& wire_data.len() == 0
            },
            CommandData::CoWrBiSt => {
                &&& wire_code == 6
                &&& wire_data.len() == 0
            },
            CommandData::CoWrIdBase { base_id } => {
                &&& wire_code == 7
                &&& wire_data.len() == 4
                &&& base_id == wire::be_u32_at(wire_data, 0)
            },
            CommandData::CoRdIdBase => {
                &&& wire_code == 8
                &&& wire_data.len() == 0
            },
            CommandData::CoWrRepeater { enable, level } => {
                &&& wire_code == 9
                &&& wire_data.len() == 2
                &&& enable == RepeaterEnable::from_byte_spec(wire_data[0])
                &&& level == RepeaterLevel::from_byte_spec(wire_data[1])
            },
            CommandData::CoRdRepeater => {
                &&& wire_code == 10
                &&& wire_data.len() == 0
            },
            CommandData::CoWrFilterAdd { criterion, value, action } => {
                &&& wire_code == 11
                &&& wire_data.len() == 6
                &&& criterion == FilterCriterion::from_byte_spec(wire_data[0])
                &&& value == wire::be_u32_at(wire_data, 1)
                &&& action == FilterAction::from_byte_spec(wire_data[5])
            },
            CommandData::CoWrFilterDel { criterion, value, action } => {
                &&& wire_code == 12
                &&& wire_data.len() == 6
                &&& criterion == FilterCriterion::from_byte_spec(wire_data[0])
                &&& value == wire::be_u32_at(wire_data, 1)
                &&& action == FilterAction::from_byte_spec(wire_data[5])
            },
            CommandData::CoWrFilterDelAll => {
                &&& wire_code == 13
                &&& wire_data.len() == 0
            },
            CommandData::CoWrFilterEnable { enable, operator } => {
                &&& wire_code == 14
                &&& wire_data.len() == 2
                &&& enable == OneByteBoolean::from_byte_spec(wire_data[0])
                &&& operator == FilterOperator::from_byte_spec(wire_data[1])
            },
            CommandData::CoRdFilter => {
                &&& wire_code == 15
                &&& wire_data.len() == 0
            },
            CommandData::CoWrWaitMaturity { wait_for_maturity } => {
                &&& wire_code == 16
                &&& wire_data.len() == 1
                &&& wait_for_maturity == OneByteBoolean::from_byte_spec(wire_data[0])
            },
            CommandData::CoWrSubTelegram { enable_subtelegram_info } => {
                &&& wire_code == 17
                &&& wire_data.len() == 1
                &&& enable_subtelegram_info == OneByteBoolean::from_byte_spec(wire_data[0])
            },
            CommandData::CoWrMem { memory_type, address, data } => {
                &&& wire_code == 18
                &&& wire_data.len() >= 5
                &&& memory_type == MemoryType::from_byte_spec(wire_data[0])
                &&& address == wire::be_u32_at(wire_data, 1)
                &&& data@ == wire_data.subrange(5, wire_data.len() as int)
            },
            CommandData::CoRdMem { memory_type, address, length } => {
                &&& wire_code == 19
                &&& wire_data.len() == 7
                &&& memory_type == MemoryType::from_byte_spec(wire_data[0])
                &&& address == wire::be_u32_at(wire_data, 1)
                &&& length == wire::be_u16_at(wire_data, 5)
            },
            CommandData::CoRdMemAddress { area } => {
                &&& wire_code == 20
                &&& wire_data.len() == 1
                &&& area == AddressArea::from_byte_spec(wire_data[0])
            },
            CommandData::CoRdSecurity => {
                &&& wire_code == 21
                &&& wire_data.len() == 0
            },
            CommandData::CoWrSecurity { security_level, key, rolling_code } => {
                &&& wire_code == 22
                &&& wire_data.len() == 10
                &&& security_level == wire_data[0]
                &&& key == wire::be_u32_at(wire_data, 1)
                &&& rolling_code == wire::be_u32_at(wire_data, 5)
            },
            CommandData::CoWrLearnMode { enable, timeout, opt_channel } => {
                &&& wire_code == 23
                &&& wire_data.len() == 5
                &&& enable == OneByteBoolean::from_byte_spec(wire_data[0])
                &&& timeout == wire::be_u32_at(wire_data, 1)
                &&& opt_channel == (if wire_opt.len() >= 1 { Some(ChannelNumber::from_byte_spec(wire_opt[0])) } else { None })
            },
            CommandData::CoRdLearnMode => {
                &&& wire_code == 24
                &&& wire_data.len() == 0
            },
            CommandData::CoWrSecureDeviceAdd { slf, device_id, private_key, rolling_code, opt_direction, opt_is_ptm_sender, opt_teach_info } => {
                &&& wire_code == 25
                &&& wire_data.len() == 24
                &&& slf == wire_data[0]
                &&& device_id == wire::be_u32_at(wire_data, 1)
                &&& private_key@ == wire::be_u32x4_at(wire_data, 5)
                &&& rolling_code == wire::be_u24_at(wire_data, 21)
                &&& opt_direction == (if wire_opt.len() >= 1 { Some(DirectionTable::from_byte_spec(wire_opt[0])) } else { None })
                &&& opt_is_ptm_sender == (if wire_opt.len() >= 2 { Some(OneByteBoolean::from_byte_spec(wire_opt[1])) } else { None })
                &&& opt_teach_info == (if wire_opt.len() >= 3 { Some(wire_opt[2]) } else { None })
            },
            CommandData::CoWrSecureDeviceDel { device_id, opt_direction } => {
                &&& wire_code == 26
                &&& wire_data.len() == 4
                &&& device_id == wire::be_u32_at(wire_data, 0)
                &&& opt_direction == (if wire_opt.len() >= 1 { Some(DirectionTableBoth::from_byte_spec(wire_opt[0])) } else { None })
            },
            CommandData::CoRdSecureDeviceByIndex { index, opt_direction } => {
                &&& wire_code == 27
                &&& wire_data.len() == 1
                &&& index == wire_data[0]
                &&& opt_direction == (if wire_opt.len() >= 1 { Some(DirectionTable::from_byte_spec(wire_opt[0])) } else { None })
            },
            CommandData::CoWrMode { mode } => {
                &&& wire_code == 28
                &&& wire_data.len() == 1
                &&& mode == TransceiverMode::from_byte_spec(wire_data[0])
            },
            CommandData::CoRdNumSecureDevices { opt_direction } => {
                &&& wire_code == 29
                &&& wire_data.len() == 0
                &&& opt_direction == (if wire_opt.len() >= 1 { Some(DirectionTableBoth::from_byte_spec(wire_opt[0])) } else { None })
            },
            CommandData::CoRdSecureDeviceById { device_id, opt_direction } => {
                &&& wire_code == 30
                &&& wire_data.len() == 4
                &&& device_id == wire::be_u32_at(wire_data, 0)
                &&& opt_direction == (if wire_opt.len() >= 1 { Some(DirectionTableMaintenance::from_byte_spec(wire_opt[0])) } else { None })
            },
            CommandData::CoWrSecureDeviceAddPsk { device_id, psk } => {
                &&& wire_code == 31
                &&& wire_data.len() == 20
                &&& device_id == wire::be_u32_at(wire_data, 0)
                &&& psk@ == wire::be_u32x4_at(wire_data, 4)
            },
            CommandData::CoWrSecureDeviceSendTeachIn { device_id, opt_teach_info } => {
                &&& wire_code == 32
                &&& wire_data.len() == 4
                &&& device_id == wire::be_u32_at(wire_data, 0)
                &&& opt_teach_info == (if wire_opt.len() >= 1 { Some(wire_opt[0]) } else { None })
            },
            CommandData::CoWrTemporaryRlcWindow { enable, rlc_window } => {
                &&& wire_code == 33
                &&& wire_data.len() == 5
                &&& enable == OneByteBoolean::from_byte_spec(wire_data[0])
                &&& rlc_window == wire::be_u32_at(wire_data, 1)
            },
            CommandData::CoRdSecureDevicePsk { device_id } => {
                &&& wire_code == 34
                &&& wire_data.len() == 4
                &&& device_id == wire::be_u32_at(wire_data, 0)
            },
            CommandData::CoRdDutyCycleLimit => {
                &&& wire_code == 35
                &&& wire_data.len() == 0
            },
            CommandData::CoSetBaudRate { baud_rate } => {
                &&& wire_code == 36
                &&& wire_data.len() == 1
                &&& baud_rate == BaudRate::from_byte_spec(wire_data[0])
            },
            CommandData::CoGetFrequencyInfo => {
                &&& wire_code == 37
                &&& wire_data.len() == 0
            },
            CommandData::CoGetStepCode => {
                &&& wire_code == 39
                &&& wire_data.len() == 0
            },
            CommandData::CoWrReManCode { code } => {
                &&& wire_code == 46
                &&& wire_data.len() == 4
                &&& code == wire::be_u32_at(wire_data, 0)
            },
            CommandData::CoWrStartupDelay { delay } => {
                &&& wire_code == 47
                &&& wire_data.len() == 1
                &&& delay == wire_data[0]
            },
            CommandData::CoWrReManRepeating { repeat_re_man_telegrams } => {
                &&& wire_code == 48
                &&& wire_data.len() == 1
                &&& repeat_re_man_telegrams == OneByteBoolean::from_byte_spec(wire_data[0])
            },
            CommandData::CoRdReManRepeating => {
                &&& wire_code == 49
                &&& wire_data.len() == 0
            },
            CommandData::CoSetNoiseThreshold { rssi_level } => {
                &&& wire_code == 50
                &&& wire_data.len() == 1
                &&& rssi_level == wire_data[0]
            },
            CommandData::CoGetNoiseThreshold => {
                &&& wire_code == 51
                &&& wire_data.len() == 0
            },
            CommandData::CoWrRlcSavePeriod { save_period } => {
                &&& wire_code == 54
                &&& wire_data.len() == 1
                &&& save_period == wire_data[0]
            },
            CommandData::CoWrRlcLegacyMode { enable } => {
                &&& wire_code == 55
                &&& wire_data.len() == 1
                &&& enable == OneByteBoolean::from_byte_spec(wire_data[0])
            },
            CommandData::CoWrSecureDeviceV2Add { slf, device_id, private_key, rolling_code, teach_info, opt_direction } => {
                &&& wire_code == 56
                &&& wire_data.len() == 26
                &&& slf == wire_data[0]
                &&& device_id == wire::be_u32_at(wire_data, 1)
                &&& private_key@ == wire::be_u32x4_at(wire_data, 5)
                &&& rolling_code == wire::be_u32_at(wire_data, 21)
                &&& teach_info == wire_data[25]
                &&& opt_direction == (if wire_opt.len() >= 1 { Some(DirectionTable::from_byte_spec(wire_opt[0])) } else { None })
            },
            CommandData::CoRdSecureDeviceV2ByIndex { index, opt_direction } => {
                &&& wire_code == 57
                &&& wire_data.len() == 1
                &&& index == wire_data[0]
                &&& opt_direction == (if wire_opt.len() >= 1 { Some(DirectionTable::from_byte_spec(wire_opt[0])) } else { None })
            },
            CommandData::CoWrRssiTestMode { enable, timeout } => {
                &&& wire_code == 58
                &&& wire_data.len() == 3
                &&& enable == OneByteBoolean::from_byte_spec(wire_data[0])
                &&& timeout == wire::be_u16_at(wire_data, 1)
            },
            CommandData::CoRdRssiTestMode => {
                &&& wire_code == 59
                &&& wire_data.len() == 0
            },
            CommandData::CoWrSecureDeviceMaintenanceKey { device_id, maintenance_key, key_number } => {
                &&& wire_code == 60
                &&& wire_data.len() == 21
                &&& device_id == wire::be_u32_at(wire_data, 0)
                &&& maintenance_key@ == wire::be_u32x4_at(wire_data, 4)
                &&& key_number == wire_data[20]
            },
            CommandData::CoRdSecureDeviceMaintenanceKey { index } => {
                &&& wire_code == 61
                &&& wire_data.len() == 1
                &&& index == wire_data[0]
            },
            CommandData::CoWrTransparentMode { enable } => {
                &&& wire_code == 62
                &&& wire_data.len() == 1
                &&& enable == OneByteBoolean::from_byte_spec(wire_data[0])
            },
            CommandData::CoRdTransparentMode => {
                &&& wire_code == 63
                &&& wire_data.len() == 0
            },
            CommandData::CoWrTxOnlyMode { mode } => {
                &&& wire_code == 64
                &&& wire_data.len() == 1
                &&& mode == TxOnlyMode::from_byte_spec(wire_data[0])
            },
            CommandData::CoRdTxOnlyMode => {
                &&& wire_code == 65
                &&& wire_data.len() == 0
            },
            CommandData::Unknown { code: c, data: d, optional_data: o } => {
                &&& c == wire_code
                &&& !Self::is_known_code(wire_code)
                &&& d@ == wire_data
                &&& o@ == wire_opt
            },
        }
    }

    /// The code that identifies this command.
    pub fn command_type(&self) -> (ret: u8)
        ensures
            ret == self.code_spec(),
    {
        match self {
            CommandData::CoWrSleep { .. } => 1,
            CommandData::CoWrReset => 2,
            CommandData::CoRdVersion => 3,
            CommandData::CoRdSysLog => 4,
            CommandData::CoWrSysLog => 5,
            CommandData::CoWrBiSt => 6,
            CommandData::CoWrIdBase { .. } => 7,
            CommandData::CoRdIdBase => 8,
            CommandData::CoWrRepeater { .. } => 9,
            CommandData::CoRdRepeater => 10,
            CommandData::CoWrFilterAdd { .. } => 11,
            CommandData::CoWrFilterDel { .. } => 12,
            CommandData::CoWrFilterDelAll => 13,
            CommandData::CoWrFilterEnable { .. } => 14,
            CommandData::CoRdFilter => 15,
            CommandData::CoWrWaitMaturity { .. } => 16,
            CommandData::CoWrSubTelegram { .. } => 17,
            CommandData::CoWrMem { .. } => 18,
            CommandData::CoRdMem { .. } => 19,
            CommandData::CoRdMemAddress { .. } => 20,
            CommandData::CoRdSecurity => 21,
            CommandData::CoWrSecurity { .. } => 22,
            CommandData::CoWrLearnMode { .. } => 23,
            CommandData::CoRdLearnMode => 24,
            CommandData::CoWrSecureDeviceAdd { .. } => 25,
            CommandData::CoWrSecureDeviceDel { .. } => 26,
            CommandData::CoRdSecureDeviceByIndex { .. } => 27,
            CommandData::CoWrMode { .. } => 28,
            CommandData::CoRdNumSecureDevices { .. } => 29,
            CommandData::CoRdSecureDeviceById { .. } => 30,
            CommandData::CoWrSecureDeviceAddPsk { .. } => 31,
            CommandData::CoWrSecureDeviceSendTeachIn { .. } => 32,
            CommandData::CoWrTemporaryRlcWindow { .. } => 33,
            CommandData::CoRdSecureDevicePsk { .. } => 34,
            CommandData::CoRdDutyCycleLimit => 35,
            CommandData::CoSetBaudRate { .. } => 36,
            CommandData::CoGetFrequencyInfo => 37,
            CommandData::CoGetStepCode => 39,
            CommandData::CoWrReManCode { .. } => 46,
            CommandData::CoWrStartupDelay { .. } => 47,
            CommandData::CoWrReManRepeating { .. } => 48,
            CommandData::CoRdReManRepeating => 49,
            CommandData::CoSetNoiseThreshold { .. } => 50,
            CommandData::CoGetNoiseThreshold => 51,
            CommandData::CoWrRlcSavePeriod { .. } => 54,
            CommandData::CoWrRlcLegacyMode { .. } => 55,
            CommandData::CoWrSecureDeviceV2Add { .. } => 56,
            CommandData::CoRdSecureDeviceV2ByIndex { .. } => 57,
            CommandData::CoWrRssiTestMode { .. } => 58,
            CommandData::CoRdRssiTestMode => 59,
            CommandData::CoWrSecureDeviceMaintenanceKey { .. } => 60,
            CommandData::CoRdSecureDeviceMaintenanceKey { .. } => 61,
            CommandData::CoWrTransparentMode { .. } => 62,
            CommandData::CoRdTransparentMode => 63,
            CommandData::CoWrTxOnlyMode { .. } => 64,
            CommandData::CoRdTxOnlyMode => 65,
            CommandData::Unknown { code, .. } => *code,
        }
    }

    /// Encodes the data part of this value: the code followed by the fields.
    pub fn to_packet_data(&self) -> (ret: MaxArray<u8, MAX_DATA_LENGTH>)
        ensures
            ret@ == self.data_spec(),
    {
        let mut ret: MaxArray<u8, MAX_DATA_LENGTH> = MaxArray::new();
        let code = self.command_type();
        ret.push(code).unwrap();
        match self {
            CommandData::CoWrSleep { deep_sleep_period } => {
                ret.push_u32_be(*deep_sleep_period).unwrap();
            },
            CommandData::CoWrReset => {
            },
            CommandData::CoRdVersion => {
            },
            CommandData::CoRdSysLog => {
            },
            CommandData::CoWrSysLog => {
            },
            CommandData::CoWrBiSt => {
            },
            CommandData::CoWrIdBase { base_id } => {
                ret.push_u32_be(*base_id).unwrap();
            },
            CommandData::CoRdIdBase => {
            },
            CommandData::CoWrRepeater { enable, level } => {
                ret.push(u8::from(*enable)).unwrap();
                ret.push(u8::from(*level)).unwrap();
            },
            CommandData::CoRdRepeater => {
            },
            CommandData::CoWrFilterAdd { criterion, value, action } => {
                ret.push(u8::from(*criterion)).unwrap();
                ret.push_u32_be(*value).unwrap();
                ret.push(u8::from(*action)).unwrap();
            },
            CommandData::CoWrFilterDel { criterion, value, action } => {
                ret.push(u8::from(*criterion)).unwrap();
                ret.push_u32_be(*value).unwrap();
                ret.push(u8::from(*action)).unwrap();
            },
            CommandData::CoWrFilterDelAll => {
            },
            CommandData::CoWrFilterEnable { enable, operator } => {
                ret.push(u8::from(*enable)).unwrap();
                ret.push(u8::from(*operator)).unwrap();
            },
            CommandData::CoRdFilter => {
            },
            CommandData::CoWrWaitMaturity { wait_for_maturity } => {
                ret.push(u8::from(*wait_for_maturity)).unwrap();
            },
            CommandData::CoWrSubTelegram { enable_subtelegram_info } => {
                ret.push(u8::from(*enable_subtelegram_info)).unwrap();
            },
            CommandData::CoWrMem { memory_type, address, data } => {
                ret.push(u8::from(*memory_type)).unwrap();
                ret.push_u32_be(*address).unwrap();
                proof { use_type_invariant(data); }
                push_bytes(&mut ret, data.as_slice());
            },
            CommandData::CoRdMem { memory_type, address, length } => {
                ret.push(u8::from(*memory_type)).unwrap();
                ret.push_u32_be(*address).unwrap();
                ret.push_u16_be(*length).unwrap();
            },
            CommandData::CoRdMemAddress { area } => {
                ret.push(u8::from(*area)).unwrap();
            },
            CommandData::CoRdSecurity => {
            },
            CommandData::CoWrSecurity { security_level, key, rolling_code } => {
                ret.push(*security_level).unwrap();
                ret.push_u32_be(*key).unwrap();
                ret.push_u32_be(*rolling_code).unwrap();
            },
            CommandData::CoWrLearnMode { enable, timeout, .. } => {
                ret.push(u8::from(*enable)).unwrap();
                ret.push_u32_be(*timeout).unwrap();
            },
            CommandData::CoRdLearnMode => {
            },
            CommandData::CoWrSecureDeviceAdd { slf, device_id, private_key, rolling_code, .. } => {
                ret.push(*slf).unwrap();
                ret.push_u32_be(*device_id).unwrap();
                ret.push_u32_be(private_key[0]).unwrap();
                ret.push_u32_be(private_key[1]).unwrap();
                ret.push_u32_be(private_key[2]).unwrap();
                ret.push_u32_be(private_key[3]).unwrap();
                ret.push((*rolling_code >> 16u32) as u8).unwrap();
                ret.push((*rolling_code >> 8u32) as u8).unwrap();
                ret.push(*rolling_code as u8).unwrap();
            },
            CommandData::CoWrSecureDeviceDel { device_id, .. } => {
                ret.push_u32_be(*device_id).unwrap();
            },
            CommandData::CoRdSecureDeviceByIndex { index, .. } => {
                ret.push(*index).unwrap();
            },
            CommandData::CoWrMode { mode } => {
                ret.push(u8::from(*mode)).unwrap();
            },
            CommandData::CoRdNumSecureDevices { .. } => {
            },
            CommandData::CoRdSecureDeviceById { device_id, .. } => {
                ret.push_u32_be(*device_id).unwrap();
            },
            CommandData::CoWrSecureDeviceAddPsk { device_id, psk } => {
                ret.push_u32_be(*device_id).unwrap();
                ret.push_u32_be(psk[0]).unwrap();
                ret.push_u32_be(psk[1]).unwrap();
                ret.push_u32_be(psk[2]).unwrap();
                ret.push_u32_be(psk[3]).unwrap();
            },
            CommandData::CoWrSecureDeviceSendTeachIn { device_id, .. } => {
                ret.push_u32_be(*device_id).unwrap();
            },
            CommandData::CoWrTemporaryRlcWindow { enable, rlc_window } => {
                ret.push(u8::from(*enable)).unwrap();
                ret.push_u32_be(*rlc_window).unwrap();
            },
            CommandData::CoRdSecureDevicePsk { device_id } => {
                ret.push_u32_be(*device_id).unwrap();
            },
            CommandData::CoRdDutyCycleLimit => {
            },
            CommandData::CoSetBaudRate { baud_rate } => {
                ret.push(u8::from(*baud_rate)).unwrap();
            },
            CommandData::CoGetFrequencyInfo => {
            },
            CommandData::CoGetStepCode => {
            },
            CommandData::CoWrReManCode { code } => {
                ret.push_u32_be(*code).unwrap();
            },
            CommandData::CoWrStartupDelay { delay } => {
                ret.push(*delay).unwrap();
            },
            CommandData::CoWrReManRepeating { repeat_re_man_telegrams } => {
                ret.push(u8::from(*repeat_re_man_telegrams)).unwrap();
            },
            CommandData::CoRdReManRepeating => {
            },
            CommandData::CoSetNoiseThreshold { rssi_level } => {
                ret.push(*rssi_level).unwrap();
            },
            CommandData::CoGetNoiseThreshold => {
            },
            CommandData::CoWrRlcSavePeriod { save_period } => {
                ret.push(*save_period).unwrap();
            },
            CommandData::CoWrRlcLegacyMode { enable } => {
                ret.push(u8::from(*enable)).unwrap();
            },
            CommandData::CoWrSecureDeviceV2Add { slf, device_id, private_key, rolling_code, teach_info, .. } => {
                ret.push(*slf).unwrap();
                ret.push_u32_be(*device_id).unwrap();
                ret.push_u32_be(private_key[0]).unwrap();
                ret.push_u32_be(private_key[1]).unwrap();
                ret.push_u32_be(private_key[2]).unwrap();
                ret.push_u32_be(private_key[3]).unwrap();
                ret.push_u32_be(*rolling_code).unwrap();
                ret.push(*teach_info).unwrap();
            },
            CommandData::CoRdSecureDeviceV2ByIndex { index, .. } => {
                ret.push(*index).unwrap();
            },
            CommandData::CoWrRssiTestMode { enable, timeout } => {
                ret.push(u8::from(*enable)).unwrap();
                ret.push_u16_be(*timeout).unwrap();
            },
            CommandData::CoRdRssiTestMode => {
            },
            CommandData::CoWrSecureDeviceMaintenanceKey { device_id, maintenance_key, key_number } => {
                ret.push_u32_be(*device_id).unwrap();
                ret.push_u32_be(maintenance_key[0]).unwrap();
                ret.push_u32_be(maintenance_key[1]).unwrap();
                ret.push_u32_be(maintenance_key[2]).unwrap();
                ret.push_u32_be(maintenance_key[3]).unwrap();
                ret.push(*key_number).unwrap();
            },
            CommandData::CoRdSecureDeviceMaintenanceKey { index } => {
                ret.push(*index).unwrap();
            },
            CommandData::CoWrTransparentMode { enable } => {
                ret.push(u8::from(*enable)).unwrap();
            },
            CommandData::CoRdTransparentMode => {
            },
            CommandData::CoWrTxOnlyMode { mode } => {
                ret.push(u8::from(*mode)).unwrap();
            },
            CommandData::CoRdTxOnlyMode => {
            },
            CommandData::Unknown { data, .. } => {
                proof { use_type_invariant(data); }
                push_bytes(&mut ret, data.as_slice());
            },
        }
        ret
    }

    /// Encodes the optional part of this value; `None` if an optional field is set while an
    /// earlier one is not.
    pub fn to_packet_optional(&self) -> (ret: Option<MaxArray<u8, MAX_OPTIONAL_LENGTH>>)
        ensures
            match self.optional_spec() {
                Some(o) => ret matches Some(r) && r@ == o,
                None => ret is None,
            },
    {
        let mut ret: MaxArray<u8, MAX_OPTIONAL_LENGTH> = MaxArray::new();
        match self {
            CommandData::CoWrLearnMode { opt_channel, .. } => {
                if let Some(x) = opt_channel {
                    ret.push(u8::from(*x)).unwrap();
                }
            },
            CommandData::CoWrSecureDeviceAdd { opt_direction, opt_is_ptm_sender, opt_teach_info, .. } => {
                if let Some(x) = opt_direction {
                    ret.push(u8::from(*x)).unwrap();
                } else if opt_is_ptm_sender.is_some() || opt_teach_info.is_some() {
                    return None;
                }
                if let Some(x) = opt_is_ptm_sender {
                    ret.push(u8::from(*x)).unwrap();
                } else if opt_teach_info.is_some() {
                    return None;
                }
                if let Some(x) = opt_teach_info {
                    ret.push(*x).unwrap();
                }
            },
            CommandData::CoWrSecureDeviceDel { opt_direction, .. } => {
                if let Some(x) = opt_direction {
                    ret.push(u8::from(*x)).unwrap();
                }
            },
            CommandData::CoRdSecureDeviceByIndex { opt_direction, .. } => {
                if let Some(x) = opt_direction {
                    ret.push(u8::from(*x)).unwrap();
                }
            },
            CommandData::CoRdNumSecureDevices { opt_direction, .. } => {
                if let Some(x) = opt_direction {
                    ret.push(u8::from(*x)).unwrap();
                }
            },
            CommandData::CoRdSecureDeviceById { opt_direction, .. } => {
                if let Some(x) = opt_direction {
                    ret.push(u8::from(*x)).unwrap();
                }
            },
            CommandData::CoWrSecureDeviceSendTeachIn { opt_teach_info, .. } => {
                if let Some(x) = opt_teach_info {
                    ret.push(*x).unwrap();
                }
            },
            CommandData::CoWrSecureDeviceV2Add { opt_direction, .. } => {
                if let Some(x) = opt_direction {
                    ret.push(u8::from(*x)).unwrap();
                }
            },
            CommandData::CoRdSecureDeviceV2ByIndex { opt_direction, .. } => {
                if let Some(x) = opt_direction {
                    ret.push(u8::from(*x)).unwrap();
                }
            },
            CommandData::Unknown { optional_data, .. } => {
                proof { use_type_invariant(optional_data); }
                push_bytes(&mut ret, optional_data.as_slice());
            },
            _ => {},
        }
        Some(ret)
    }

    /// Decodes a value from its code, the data bytes after the code and the optional bytes.
    ///
    /// Returns `None` if the data does not have the length that the code calls for; codes that
    /// this library does not know decode to `Unknown`.
    #[verifier::rlimit(50)]
    pub fn from_data(command_code: u8, data_slice: &[u8], optional_slice: &[u8]) -> (ret: Option<Self>)
        requires
            Self::fits_capacity(command_code, data_slice@.len(), optional_slice@.len()),
        ensures
            ret is Some <==> Self::accepts(command_code, data_slice@.len()),
            ret matches Some(v) ==> v.decoded_from(command_code, data_slice@, optional_slice@),
    {
        match command_code {
            1u8 => {
                if data_slice.len() != 4 {
                    return None;
                }
                let deep_sleep_period = read_u32_be(data_slice, 0);
                Some(CommandData::CoWrSleep { deep_sleep_period })
            },
            2u8 => {
                if data_slice.len() != 0 {
                    return None;
                }
                Some(CommandData::CoWrReset)
            },
            3u8 => {
                if data_slice.len() != 0 {
                    return None;
                }
                Some(CommandData::CoRdVersion)
            },
            4u8 => {
                if data_slice.len() != 0 {
                    return None;
                }
                Some(CommandData::CoRdSysLog)
            },
            5u8 => {
                if data_slice.len() != 0 {
                    return None;
                }
                Some(CommandData::CoWrSysLog)
            },
            6u8 => {
                if data_slice.len() != 0 {
                    return None;
                }
                Some(CommandData::CoWrBiSt)
            },
            7u8 => {
                if data_slice.len() != 4 {
                    return None;
                }
                let base_id = read_u32_be(data_slice, 0);
                Some(CommandData::CoWrIdBase { base_id })
            },
            8u8 => {
                if data_slice.len() != 0 {
                    return None;
                }
                Some(CommandData::CoRdIdBase)
            },
            9u8 => {
                if data_slice.len() != 2 {
                    return None;
                }
                let enable = RepeaterEnable::from(data_slice[0]);
                let level = RepeaterLevel::from(data_slice[1]);
                Some(CommandData::CoWrRepeater { enable, level })
            },
            10u8 => {
                if data_slice.len() != 0 {
                    return None;
                }
                Some(CommandData::CoRdRepeater)
            },
            11u8 => {
                if data_slice.len() != 6 {
                    return None;
                }
                let criterion = FilterCriterion::from(data_slice[0]);
                let value = read_u32_be(data_slice, 1);
                let action = FilterAction::from(data_slice[5]);
                Some(CommandData::CoWrFilterAdd { criterion, value, action })
            },
            12u8 => {
                if data_slice.len() != 6 {
                    return None;
                }
                let criterion = FilterCriterion::from(data_slice[0]);
                let value = read_u32_be(data_slice, 1);
                let action = FilterAction::from(data_slice[5]);
                Some(CommandData::CoWrFilterDel { criterion, value, action })
            },
            13u8 => {
                if data_slice.len() != 0 {
                    return None;
                }
                Some(CommandData::CoWrFilterDelAll)
            },
            14u8 => {
                if data_slice.len() != 2 {
                    return None;
                }
                let enable = OneByteBoolean::from(data_slice[0]);
                let operator = FilterOperator::from(data_slice[1]);
                Some(CommandData::CoWrFilterEnable { enable, operator })
            },
            15u8 => {
                if data_slice.len() != 0 {
                    return None;
                }
                Some(CommandData::CoRdFilter)
            },
            16u8 => {
                if data_slice.len() != 1 {
                    return None;
                }
                let wait_for_maturity = OneByteBoolean::from(data_slice[0]);
                Some(CommandData::CoWrWaitMaturity { wait_for_maturity })
            },
            17u8 => {
                if data_slice.len() != 1 {
                    return None;
                }
                let enable_subtelegram_info = OneByteBoolean::from(data_slice[0]);
                Some(CommandData::CoWrSubTelegram { enable_subtelegram_info })
            },
            18u8 => {
                if data_slice.len() < 5 {
                    return None;
                }
                let memory_type = MemoryType::from(data_slice[0]);
                let address = read_u32_be(data_slice, 1);
                let data = MaxArray::from_iter_or_panic(&data_slice[5..data_slice.len()]);
                Some(CommandData::CoWrMem { memory_type, address, data })
            },
            19u8 => {
                if data_slice.len() != 7 {
                    return None;
                }
                let memory_type = MemoryType::from(data_slice[0]);
                let address = read_u32_be(data_slice, 1);
                let length = read_u16_be(data_slice, 5);
                Some(CommandData::CoRdMem { memory_type, address, length })
            },
            20u8 => {
                if data_slice.len() != 1 {
                    return None;
                }
                let area = AddressArea::from(data_slice[0]);
                Some(CommandData::CoRdMemAddress { area })
            },
            21u8 => {
                if data_slice.len() != 0 {
                    return None;
                }
                Some(CommandData::CoRdSecurity)
            },
            22u8 => {
                if data_slice.len() != 10 {
                    return None;
                }
                let security_level = data_slice[0];
                let key = read_u32_be(data_slice, 1);
                let rolling_code = read_u32_be(data_slice, 5);
                Some(CommandData::CoWrSecurity { security_level, key, rolling_code })
            },
            23u8 => {
                if data_slice.len() != 5 {
                    return None;
                }
                let enable = OneByteBoolean::from(data_slice[0]);
                let timeout = read_u32_be(data_slice, 1);
                let opt_channel = if optional_slice.len() >= 1 {
                    Some(ChannelNumber::from(optional_slice[0]))
                } else {
                    None
                };
                Some(CommandData::CoWrLearnMode { enable, timeout, opt_channel })
            },
            24u8 => {
                if data_slice.len() != 0 {
                    return None;
                }
                Some(CommandData::CoRdLearnMode)
            },
            25u8 => {
                if data_slice.len() != 24 {
                    return None;
                }
                let slf = data_slice[0];
                let device_id = read_u32_be(data_slice, 1);
                let private_key = read_u32x4_be(data_slice, 5);
                let rolling_code = read_u24_be(data_slice, 21);
                let opt_direction = if optional_slice.len() >= 1 {
                    Some(DirectionTable::from(optional_slice[0]))
                } else {
                    None
                };
                let opt_is_ptm_sender = if optional_slice.len() >= 2 {
                    Some(OneByteBoolean::from(optional_slice[1]))
                } else {
                    None
                };
                let opt_teach_info = if optional_slice.len() >= 3 {
                    Some(optional_slice[2])
                } else {
                    None
                };
                Some(CommandData::CoWrSecureDeviceAdd { slf, device_id, private_key, rolling_code, opt_direction, opt_is_ptm_sender, opt_teach_info })
            },
            26u8 => {
                if data_slice.len() != 4 {
                    return None;
                }
                let device_id = read_u32_be(data_slice, 0);
                let opt_direction = if optional_slice.len() >= 1 {
                    Some(DirectionTableBoth::from(optional_slice[0]))
                } else {
                    None
                };
                Some(CommandData::CoWrSecureDeviceDel { device_id, opt_direction })
            },
            27u8 => {
                if data_slice.len() != 1 {
                    return None;
                }
                let index = data_slice[0];
                let opt_direction = if optional_slice.len() >= 1 {
                    Some(DirectionTable::from(optional_slice[0]))
                } else {
                    None
                };
                Some(CommandData::CoRdSecureDeviceByIndex { index, opt_direction })
            },
            28u8 => {
                if data_slice.len() != 1 {
                    return None;
                }
                let mode = TransceiverMode::from(data_slice[0]);
                Some(CommandData::CoWrMode { mode })
            },
            29u8 => {
                if data_slice.len() != 0 {
                    return None;
                }
                let opt_direction = if optional_slice.len() >= 1 {
                    Some(DirectionTableBoth::from(optional_slice[0]))
                } else {
                    None
                };
                Some(CommandData::CoRdNumSecureDevices { opt_direction })
            },
            30u8 => {
                if data_slice.len() != 4 {
                    return None;
                }
                let device_id = read_u32_be(data_slice, 0);
                let opt_direction = if optional_slice.len() >= 1 {
                    Some(DirectionTableMaintenance::from(optional_slice[0]))
                } else {
                    None
                };
                Some(CommandData::CoRdSecureDeviceById { device_id, opt_direction })
            },
            31u8 => {
                if data_slice.len() != 20 {
                    return None;
                }
                let device_id = read_u32_be(data_slice, 0);
                let psk = read_u32x4_be(data_slice, 4);
                Some(CommandData::CoWrSecureDeviceAddPsk { device_id, psk })
            },
            32u8 => {
                if data_slice.len() != 4 {
                    return None;
                }
                let device_id = read_u32_be(data_slice, 0);
                let opt_teach_info = if optional_slice.len() >= 1 {
                    Some(optional_slice[0])
                } else {
                    None
                };
                Some(CommandData::CoWrSecureDeviceSendTeachIn { device_id, opt_teach_info })
            },
            33u8 => {
                if data_slice.len() != 5 {
                    return None;
                }
                let enable = OneByteBoolean::from(data_slice[0]);
                let rlc_window = read_u32_be(data_slice, 1);
                Some(CommandData::CoWrTemporaryRlcWindow { enable, rlc_window })
            },
            34u8 => {
                if data_slice.len() != 4 {
                    return None;
                }
                let device_id = read_u32_be(data_slice, 0);
                Some(CommandData::CoRdSecureDevicePsk { device_id })
            },
            35u8 => {
                if data_slice.len() != 0 {
                    return None;
                }
                Some(CommandData::CoRdDutyCycleLimit)
            },
            36u8 => {
                if data_slice.len() != 1 {
                    return None;
                }
                let baud_rate = BaudRate::from(data_slice[0]);
                Some(CommandData::CoSetBaudRate { baud_rate })
            },
            37u8 => {
                if data_slice.len() != 0 {
                    return None;
                }
                Some(CommandData::CoGetFrequencyInfo)
            },
            39u8 => {
                if data_slice.len() != 0 {
                    return None;
                }
                Some(CommandData::CoGetStepCode)
            },
            46u8 => {
                if data_slice.len() != 4 {
                    return None;
                }
                let code = read_u32_be(data_slice, 0);
                Some(CommandData::CoWrReManCode { code })
            },
            47u8 => {
                if data_slice.len() != 1 {
                    return None;
                }
                let delay = data_slice[0];
                Some(CommandData::CoWrStartupDelay { delay })
            },
            48u8 => {
                if data_slice.len() != 1 {
                    return None;
                }
                let repeat_re_man_telegrams = OneByteBoolean::from(data_slice[0]);
                Some(CommandData::CoWrReManRepeating { repeat_re_man_telegrams })
            },
            49u8 => {
                if data_slice.len() != 0 {
                    return None;
                }
                Some(CommandData::CoRdReManRepeating)
            },
            50u8 => {
                if data_slice.len() != 1 {
                    return None;
                }
                let rssi_level = data_slice[0];
                Some(CommandData::CoSetNoiseThreshold { rssi_level })
            },
            51u8 => {
                if data_slice.len() != 0 {
                    return None;
                }
                Some(CommandData::CoGetNoiseThreshold)
            },
            54u8 => {
                if data_slice.len() != 1 {
                    return None;
                }
                let save_period = data_slice[0];
                Some(CommandData::CoWrRlcSavePeriod { save_period })
            },
            55u8 => {
                if data_slice.len() != 1 {
                    return None;
                }
                let enable = OneByteBoolean::from(data_slice[0]);
                Some(CommandData::CoWrRlcLegacyMode { enable })
            },
            56u8 => {
                if data_slice.len() != 26 {
                    return None;
                }
                let slf = data_slice[0];
                let device_id = read_u32_be(data_slice, 1);
                let private_key = read_u32x4_be(data_slice, 5);
                let rolling_code = read_u32_be(data_slice, 21);
                let teach_info = data_slice[25];
                let opt_direction = if optional_slice.len() >= 1 {
                    Some(DirectionTable::from(optional_slice[0]))
                } else {
                    None
                };
                Some(CommandData::CoWrSecureDeviceV2Add { slf, device_id, private_key, rolling_code, teach_info, opt_direction })
            },
            57u8 => {
                if data_slice.len() != 1 {
                    return None;
                }
                let index = data_slice[0];
                let opt_direction = if optional_slice.len() >= 1 {
                    Some(DirectionTable::from(optional_slice[0]))
                } else {
                    None
                };
                Some(CommandData::CoRdSecureDeviceV2ByIndex { index, opt_direction })
            },
            58u8 => {
                if data_slice.len() != 3 {
                    return None;
                }
                let enable = OneByteBoolean::from(data_slice[0]);
                let timeout = read_u16_be(data_slice, 1);
                Some(CommandData::CoWrRssiTestMode { enable, timeout })
            },
            59u8 => {
                if data_slice.len() != 0 {
                    return None;
                }
                Some(CommandData::CoRdRssiTestMode)
            },
            60u8 => {
                if data_slice.len() != 21 {
                    return None;
                }
                let device_id = read_u32_be(data_slice, 0);
                let maintenance_key = read_u32x4_be(data_slice, 4);
                let key_number = data_slice[20];
                Some(CommandData::CoWrSecureDeviceMaintenanceKey { device_id, maintenance_key, key_number })
            },
            61u8 => {
                if data_slice.len() != 1 {
                    return None;
                }
                let index = data_slice[0];
                Some(CommandData::CoRdSecureDeviceMaintenanceKey { index })
            },
            62u8 => {
                if data_slice.len() != 1 {
                    return None;
                }
                let enable = OneByteBoolean::from(data_slice[0]);
                Some(CommandData::CoWrTransparentMode { enable })
            },
            63u8 => {
                if data_slice.len() != 0 {
                    return None;
                }
                Some(CommandData::CoRdTransparentMode)
            },
            64u8 => {
                if data_slice.len() != 1 {
                    return None;
                }
                let mode = TxOnlyMode::from(data_slice[0]);
                Some(CommandData::CoWrTxOnlyMode { mode })
            },
            65u8 => {
                if data_slice.len() != 0 {
                    return None;
                }
                Some(CommandData::CoRdTxOnlyMode)
            },
            _ => {
                let data = MaxArray::from_iter_or_panic(data_slice);
                let optional_data = MaxArray::from_iter_or_panic(optional_slice);
                Some(CommandData::Unknown { code: command_code, data, optional_data })
            },
        }
    }

    /// Whether encoding this value and decoding the bytes gives back this value: every field
    /// holds a value that its bytes decode to, and the variant is one whose encoding its
    /// decoding reads back.
    pub open spec fn round_trips(self) -> bool {
        match self {
            CommandData::CoWrSleep { .. } => true,
            CommandData::CoWrReset => true,
            CommandData::CoRdVersion => true,
            CommandData::CoRdSysLog => true,
            CommandData::CoWrSysLog => true,
            CommandData::CoWrBiSt => true,
            CommandData::CoWrIdBase { .. } => true,
            CommandData::CoRdIdBase => true,
            CommandData::CoWrRepeater { enable, level } => RepeaterEnable::from_byte_spec(enable.to_byte_spec()) == enable && RepeaterLevel::from_byte_spec(level.to_byte_spec()) == level,
            CommandData::CoRdRepeater => true,
            CommandData::CoWrFilterAdd { criterion, value, action } => FilterCriterion::from_byte_spec(criterion.to_byte_spec()) == criterion && FilterAction::from_byte_spec(action.to_byte_spec()) == action,
            CommandData::CoWrFilterDel { criterion, value, action } => FilterCriterion::from_byte_spec(criterion.to_byte_spec()) == criterion && FilterAction::from_byte_spec(action.to_byte_spec()) == action,
            CommandData::CoWrFilterDelAll => true,
            CommandData::CoWrFilterEnable { enable, operator } => OneByteBoolean::from_byte_spec(enable.to_byte_spec()) == enable && FilterOperator::from_byte_spec(operator.to_byte_spec()) == operator,
            CommandData::CoRdFilter => true,
            CommandData::CoWrWaitMaturity { wait_for_maturity } => OneByteBoolean::from_byte_spec(wait_for_maturity.to_byte_spec()) == wait_for_maturity,
            CommandData::CoWrSubTelegram { enable_subtelegram_info } => OneByteBoolean::from_byte_spec(enable_subtelegram_info.to_byte_spec()) == enable_subtelegram_info,
            CommandData::CoWrMem { memory_type, address, data } => MemoryType::from_byte_spec(memory_type.to_byte_spec()) == memory_type,
            CommandData::CoRdMem { memory_type, address, length } => MemoryType::from_byte_spec(memory_type.to_byte_spec()) == memory_type,
            CommandData::CoRdMemAddress { area } => AddressArea::from_byte_spec(area.to_byte_spec()) == area,
            CommandData::CoRdSecurity => true,
            CommandData::CoWrSecurity { .. } => false,
            CommandData::CoWrLearnMode { enable, timeout, opt_channel } => OneByteBoolean::from_byte_spec(enable.to_byte_spec()) == enable && (opt_channel matches Some(x) ==> ChannelNumber::from_byte_spec(x.to_byte_spec()) == x),
            CommandData::CoRdLearnMode => true,
            CommandData::CoWrSecureDeviceAdd { slf, device_id, private_key, rolling_code, opt_direction, opt_is_ptm_sender, opt_teach_info } => rolling_code < 0x100_0000 && (opt_direction matches Some(x) ==> DirectionTable::from_byte_spec(x.to_byte_spec()) == x) && (opt_is_ptm_sender matches Some(x) ==> OneByteBoolean::from_byte_spec(x.to_byte_spec()) == x),
            CommandData::CoWrSecureDeviceDel { device_id, opt_direction } => (opt_direction matches Some(x) ==> DirectionTableBoth::from_byte_spec(x.to_byte_spec()) == x),
            CommandData::CoRdSecureDeviceByIndex { index, opt_direction } => (opt_direction matches Some(x) ==> DirectionTable::from_byte_spec(x.to_byte_spec()) == x),
            CommandData::CoWrMode { mode } => TransceiverMode::from_byte_spec(mode.to_byte_spec()) == mode,
            CommandData::CoRdNumSecureDevices { opt_direction } => (opt_direction matches Some(x) ==> DirectionTableBoth::from_byte_spec(x.to_byte_spec()) == x),
            CommandData::CoRdSecureDeviceById { device_id, opt_direction } => (opt_direction matches Some(x) ==> DirectionTableMaintenance::from_byte_spec(x.to_byte_spec()) == x),
            CommandData::CoWrSecureDeviceAddPsk { .. } => true,
            CommandData::CoWrSecureDeviceSendTeachIn { .. } => true,
            CommandData::CoWrTemporaryRlcWindow { enable, rlc_window } => OneByteBoolean::from_byte_spec(enable.to_byte_spec()) == enable,
            CommandData::CoRdSecureDevicePsk { .. } => true,
            CommandData::CoRdDutyCycleLimit => true,
            CommandData::CoSetBaudRate { baud_rate } => BaudRate::from_byte_spec(baud_rate.to_byte_spec()) == baud_rate,
            CommandData::CoGetFrequencyInfo => true,
            CommandData::CoGetStepCode => true,
            CommandData::CoWrReManCode { .. } => true,
            CommandData::CoWrStartupDelay { .. } => true,
            CommandData::CoWrReManRepeating { repeat_re_man_telegrams } => OneByteBoolean::from_byte_spec(repeat_re_man_telegrams.to_byte_spec()) == repeat_re_man_telegrams,
            CommandData::CoRdReManRepeating => true,
            CommandData::CoSetNoiseThreshold { .. } => true,
            CommandData::CoGetNoiseThreshold => true,
            CommandData::CoWrRlcSavePeriod { .. } => true,
            CommandData::CoWrRlcLegacyMode { enable } => OneByteBoolean::from_byte_spec(enable.to_byte_spec()) == enable,
            CommandData::CoWrSecureDeviceV2Add { slf, device_id, private_key, rolling_code, teach_info, opt_direction } => (opt_direction matches Some(x) ==> DirectionTable::from_byte_spec(x.to_byte_spec()) == x),
            CommandData::CoRdSecureDeviceV2ByIndex { index, opt_direction } => (opt_direction matches Some(x) ==> DirectionTable::from_byte_spec(x.to_byte_spec()) == x),
            CommandData::CoWrRssiTestMode { enable, timeout } => OneByteBoolean::from_byte_spec(enable.to_byte_spec()) == enable,
            CommandData::CoRdRssiTestMode => true,
            CommandData::CoWrSecureDeviceMaintenanceKey { .. } => true,
            CommandData::CoRdSecureDeviceMaintenanceKey { .. } => true,
            CommandData::CoWrTransparentMode { enable } => OneByteBoolean::from_byte_spec(enable.to_byte_spec()) == enable,
            CommandData::CoRdTransparentMode => true,
            CommandData::CoWrTxOnlyMode { mode } => TxOnlyMode::from_byte_spec(mode.to_byte_spec()) == mode,
            CommandData::CoRdTxOnlyMode => true,
            CommandData::Unknown { code, .. } => !Self::is_known_code(code),
        }
    }

    /// Decoding the bytes that encode a value gives back that value.
    pub proof fn lemma_encoded_decodes(self)
        requires
            self.round_trips(),
            self.optional_spec() is Some,
        ensures
            Self::accepts(self.code_spec(), (self.data_spec().len() - 1) as nat),
            self.decoded_from(self.code_spec(), self.data_spec().drop_first(), self.optional_spec().unwrap()),
    {
        let d = self.data_spec().drop_first();
        let o = self.optional_spec().unwrap();
        match self {
            CommandData::CoWrSleep { deep_sleep_period } => {
                assert(d.len() == 4);
                assert(d.subrange(0int, 4int) =~= max_array_ext::be_u32_bytes(deep_sleep_period));
                wire::lemma_u32_roundtrip(deep_sleep_period);
            },
            CommandData::CoWrReset => {
                assert(d.len() == 0);
            },
            CommandData::CoRdVersion => {
                assert(d.len() == 0);
            },
            CommandData::CoRdSysLog => {
                assert(d.len() == 0);
            },
            CommandData::CoWrSysLog => {
                assert(d.len() == 0);
            },
            CommandData::CoWrBiSt => {
                assert(d.len() == 0);
            },
            CommandData::CoWrIdBase { base_id } => {
                assert(d.len() == 4);
                assert(d.subrange(0int, 4int) =~= max_array_ext::be_u32_bytes(base_id));
                wire::lemma_u32_roundtrip(base_id);
            },
            CommandData::CoRdIdBase => {
                assert(d.len() == 0);
            },
            CommandData::CoWrRepeater { enable, level } => {
                assert(d.len() == 2);
                assert(d[0] == enable.to_byte_spec());
                assert(d[1] == level.to_byte_spec());
            },
            CommandData::CoRdRepeater => {
                assert(d.len() == 0);
            },
            CommandData::CoWrFilterAdd { criterion, value, action } => {
                assert(d.len() == 6);
                assert(d[0] == criterion.to_byte_spec());
                assert(d.subrange(1int, 5int) =~= max_array_ext::be_u32_bytes(value));
                wire::lemma_u32_roundtrip(value);
                assert(d[5] == action.to_byte_spec());
            },
            CommandData::CoWrFilterDel { criterion, value, action } => {
                assert(d.len() == 6);
                assert(d[0] == criterion.to_byte_spec());
                assert(d.subrange(1int, 5int) =~= max_array_ext::be_u32_bytes(value));
                wire::lemma_u32_roundtrip(value);
                assert(d[5] == action.to_byte_spec());
            },
            CommandData::CoWrFilterDelAll => {
                assert(d.len() == 0);
            },
            CommandData::CoWrFilterEnable { enable, operator } => {
                assert(d.len() == 2);
                assert(d[0] == enable.to_byte_spec());
                assert(d[1] == operator.to_byte_spec());
            },
            CommandData::CoRdFilter => {
                assert(d.len() == 0);
            },
            CommandData::CoWrWaitMaturity { wait_for_maturity } => {
                assert(d.len() == 1);
                assert(d[0] == wait_for_maturity.to_byte_spec());
            },
            CommandData::CoWrSubTelegram { enable_subtelegram_info } => {
                assert(d.len() == 1);
                assert(d[0] == enable_subtelegram_info.to_byte_spec());
            },
            CommandData::CoWrMem { memory_type, address, data } => {
                assert(d[0] == memory_type.to_byte_spec());
                assert(d.subrange(1int, 5int) =~= max_array_ext::be_u32_bytes(address));
                wire::lemma_u32_roundtrip(address);
                assert(data@ =~= d.subrange(5int, d.len() as int));
            },
            CommandData::CoRdMem { memory_type, address, length } => {
                assert(d.len() == 7);
                assert(d[0] == memory_type.to_byte_spec());
                assert(d.subrange(1int, 5int) =~= max_array_ext::be_u32_bytes(address));
                wire::lemma_u32_roundtrip(address);
                assert(d.subrange(5int, 7int) =~= max_array_ext::be_u16_bytes(length));
                wire::lemma_u16_roundtrip(length);
            },
            CommandData::CoRdMemAddress { area } => {
                assert(d.len() == 1);
                assert(d[0] == area.to_byte_spec());
            },
            CommandData::CoRdSecurity => {
                assert(d.len() == 0);
            },
            CommandData::CoWrSecurity { .. } => {},
            CommandData::CoWrLearnMode { enable, timeout, opt_channel } => {
                assert(d.len() == 5);
                assert(d[0] == enable.to_byte_spec());
                assert(d.subrange(1int, 5int) =~= max_array_ext::be_u32_bytes(timeout));
                wire::lemma_u32_roundtrip(timeout);
                if let Some(x) = opt_channel {
                    assert(o[0] == x.to_byte_spec());
                }
            },
            CommandData::CoRdLearnMode => {
                assert(d.len() == 0);
            },
            CommandData::CoWrSecureDeviceAdd { slf, device_id, private_key, rolling_code, opt_direction, opt_is_ptm_sender, opt_teach_info } => {
                assert(d.len() == 24);
                assert(d[0] == slf);
                assert(d.subrange(1int, 5int) =~= max_array_ext::be_u32_bytes(device_id));
                wire::lemma_u32_roundtrip(device_id);
                assert(d.subrange(5int, 9int) =~= max_array_ext::be_u32_bytes(private_key[0]));
                wire::lemma_u32_roundtrip(private_key[0]);
                assert(d.subrange(9int, 13int) =~= max_array_ext::be_u32_bytes(private_key[1]));
                wire::lemma_u32_roundtrip(private_key[1]);
                assert(d.subrange(13int, 17int) =~= max_array_ext::be_u32_bytes(private_key[2]));
                wire::lemma_u32_roundtrip(private_key[2]);
                assert(d.subrange(17int, 21int) =~= max_array_ext::be_u32_bytes(private_key[3]));
                wire::lemma_u32_roundtrip(private_key[3]);
                assert(private_key@ =~= wire::be_u32x4_at(d, 5));
                assert(d.subrange(21int, 24int) =~= wire::be_u24_bytes(rolling_code));
                wire::lemma_u24_roundtrip(rolling_code);
                if let Some(x) = opt_direction {
                    assert(o[0] == x.to_byte_spec());
                }
                if let Some(x) = opt_is_ptm_sender {
                    assert(o[1] == x.to_byte_spec());
                }
                if let Some(x) = opt_teach_info {
                    assert(o[2] == x);
                }
            },
            CommandData::CoWrSecureDeviceDel { device_id, opt_direction } => {
                assert(d.len() == 4);
                assert(d.subrange(0int, 4int) =~= max_array_ext::be_u32_bytes(device_id));
                wire::lemma_u32_roundtrip(device_id);
                if let Some(x) = opt_direction {
                    assert(o[0] == x.to_byte_spec());
                }
            },
            CommandData::CoRdSecureDeviceByIndex { index, opt_direction } => {
                assert(d.len() == 1);
                assert(d[0] == index);
                if let Some(x) = opt_direction {
                    assert(o[0] == x.to_byte_spec());
                }
            },
            CommandData::CoWrMode { mode } => {
                assert(d.len() == 1);
                assert(d[0] == mode.to_byte_spec());
            },
            CommandData::CoRdNumSecureDevices { opt_direction } => {
                assert(d.len() == 0);
                if let Some(x) = opt_direction {
                    assert(o[0] == x.to_byte_spec());
                }
            },
            CommandData::CoRdSecureDeviceById { device_id, opt_direction } => {
                assert(d.len() == 4);
                assert(d.subrange(0int, 4int) =~= max_array_ext::be_u32_bytes(device_id));
                wire::lemma_u32_roundtrip(device_id);
                if let Some(x) = opt_direction {
                    assert(o[0] == x.to_byte_spec());
                }
            },
            CommandData::CoWrSecureDeviceAddPsk { device_id, psk } => {
                assert(d.len() == 20);
                assert(d.subrange(0int, 4int) =~= max_array_ext::be_u32_bytes(device_id));
                wire::lemma_u32_roundtrip(device_id);
                assert(d.subrange(4int, 8int) =~= max_array_ext::be_u32_bytes(psk[0]));
                wire::lemma_u32_roundtrip(psk[0]);
                assert(d.subrange(8int, 12int) =~= max_array_ext::be_u32_bytes(psk[1]));
                wire::lemma_u32_roundtrip(psk[1]);
                assert(d.subrange(12int, 16int) =~= max_array_ext::be_u32_bytes(psk[2]));
                wire::lemma_u32_roundtrip(psk[2]);
                assert(d.subrange(16int, 20int) =~= max_array_ext::be_u32_bytes(psk[3]));
                wire::lemma_u32_roundtrip(psk[3]);
                assert(psk@ =~= wire::be_u32x4_at(d, 4));
            },
            CommandData::CoWrSecureDeviceSendTeachIn { device_id, opt_teach_info } => {
                assert(d.len() == 4);
                assert(d.subrange(0int, 4int) =~= max_array_ext::be_u32_bytes(device_id));
                wire::lemma_u32_roundtrip(device_id);
                if let Some(x) = opt_teach_info {
                    assert(o[0] == x);
                }
            },
            CommandData::CoWrTemporaryRlcWindow { enable, rlc_window } => {
                assert(d.len() == 5);
                assert(d[0] == enable.to_byte_spec());
                assert(d.subrange(1int, 5int) =~= max_array_ext::be_u32_bytes(rlc_window));
                wire::lemma_u32_roundtrip(rlc_window);
            },
            CommandData::CoRdSecureDevicePsk { device_id } => {
                assert(d.len() == 4);
                assert(d.subrange(0int, 4int) =~= max_array_ext::be_u32_bytes(device_id));
                wire::lemma_u32_roundtrip(device_id);
            },
            CommandData::CoRdDutyCycleLimit => {
                assert(d.len() == 0);
            },
            CommandData::CoSetBaudRate { baud_rate } => {
                assert(d.len() == 1);
                assert(d[0] == baud_rate.to_byte_spec());
            },
            CommandData::CoGetFrequencyInfo => {
                assert(d.len() == 0);
            },
            CommandData::CoGetStepCode => {
                assert(d.len() == 0);
            },
            CommandData::CoWrReManCode { code } => {
                assert(d.len() == 4);
                assert(d.subrange(0int, 4int) =~= max_array_ext::be_u32_bytes(code));
                wire::lemma_u32_roundtrip(code);
            },
            CommandData::CoWrStartupDelay { delay } => {
                assert(d.len() == 1);
                assert(d[0] == delay);
            },
            CommandData::CoWrReManRepeating { repeat_re_man_telegrams } => {
                assert(d.len() == 1);
                assert(d[0] == repeat_re_man_telegrams.to_byte_spec());
            },
            CommandData::CoRdReManRepeating => {
                assert(d.len() == 0);
            },
            CommandData::CoSetNoiseThreshold { rssi_level } => {
                assert(d.len() == 1);
                assert(d[0] == rssi_level);
            },
            CommandData::CoGetNoiseThreshold => {
                assert(d.len() == 0);
            },
            CommandData::CoWrRlcSavePeriod { save_period } => {
                assert(d.len() == 1);
                assert(d[0] == save_period);
            },
            CommandData::CoWrRlcLegacyMode { enable } => {
                assert(d.len() == 1);
                assert(d[0] == enable.to_byte_spec());
            },
            CommandData::CoWrSecureDeviceV2Add { slf, device_id, private_key, rolling_code, teach_info, opt_direction } => {
                assert(d.len() == 26);
                assert(d[0] == slf);
                assert(d.subrange(1int, 5int) =~= max_array_ext::be_u32_bytes(device_id));
                wire::lemma_u32_roundtrip(device_id);
                assert(d.subrange(5int, 9int) =~= max_array_ext::be_u32_bytes(private_key[0]));
                wire::lemma_u32_roundtrip(private_key[0]);
                assert(d.subrange(9int, 13int) =~= max_array_ext::be_u32_bytes(private_key[1]));
                wire::lemma_u32_roundtrip(private_key[1]);
                assert(d.subrange(13int, 17int) =~= max_array_ext::be_u32_bytes(private_key[2]));
                wire::lemma_u32_roundtrip(private_key[2]);
                assert(d.subrange(17int, 21int) =~= max_array_ext::be_u32_bytes(private_key[3]));
                wire::lemma_u32_roundtrip(private_key[3]);
                assert(private_key@ =~= wire::be_u32x4_at(d, 5));
                assert(d.subrange(21int, 25int) =~= max_array_ext::be_u32_bytes(rolling_code));
                wire::lemma_u32_roundtrip(rolling_code);
                assert(d[25] == teach_info);
                if let Some(x) = opt_direction {
                    assert(o[0] == x.to_byte_spec());
                }
            },
            CommandData::CoRdSecureDeviceV2ByIndex { index, opt_direction } => {
                assert(d.len() == 1);
                assert(d[0] == index);
                if let Some(x) = opt_direction {
                    assert(o[0] == x.to_byte_spec());
                }
            },
            CommandData::CoWrRssiTestMode { enable, timeout } => {
                assert(d.len() == 3);
                assert(d[0] == enable.to_byte_spec());
                assert(d.subrange(1int, 3int) =~= max_array_ext::be_u16_bytes(timeout));
                wire::lemma_u16_roundtrip(timeout);
            },
            CommandData::CoRdRssiTestMode => {
                assert(d.len() == 0);
            },
            CommandData::CoWrSecureDeviceMaintenanceKey { device_id, maintenance_key, key_number } => {
                assert(d.len() == 21);
                assert(d.subrange(0int, 4int) =~= max_array_ext::be_u32_bytes(device_id));
                wire::lemma_u32_roundtrip(device_id);
                assert(d.subrange(4int, 8int) =~= max_array_ext::be_u32_bytes(maintenance_key[0]));
                wire::lemma_u32_roundtrip(maintenance_key[0]);
                assert(d.subrange(8int, 12int) =~= max_array_ext::be_u32_bytes(maintenance_key[1]));
                wire::lemma_u32_roundtrip(maintenance_key[1]);
                assert(d.subrange(12int, 16int) =~= max_array_ext::be_u32_bytes(maintenance_key[2]));
                wire::lemma_u32_roundtrip(maintenance_key[2]);
                assert(d.subrange(16int, 20int) =~= max_array_ext::be_u32_bytes(maintenance_key[3]));
                wire::lemma_u32_roundtrip(maintenance_key[3]);
                assert(maintenance_key@ =~= wire::be_u32x4_at(d, 4));
                assert(d[20] == key_number);
            },
            CommandData::CoRdSecureDeviceMaintenanceKey { index } => {
                assert(d.len() == 1);
                assert(d[0] == index);
            },
            CommandData::CoWrTransparentMode { enable } => {
                assert(d.len() == 1);
                assert(d[0] == enable.to_byte_spec());
            },
            CommandData::CoRdTransparentMode => {
                assert(d.len() == 0);
            },
            CommandData::CoWrTxOnlyMode { mode } => {
                assert(d.len() == 1);
                assert(d[0] == mode.to_byte_spec());
            },
            CommandData::CoRdTxOnlyMode => {
                assert(d.len() == 0);
            },
            CommandData::Unknown { data, optional_data, .. } => {
                assert(d =~= data@);
                assert(o =~= optional_data@);
            },
        }
    }

    /// Encoding a decoded value gives back the data bytes it was decoded from (for the
    /// variants whose decoding reads every data byte and keeps every bit of it).
    pub proof fn lemma_decoded_encodes(self, wire_code: u8, wire_data: Seq<u8>, wire_opt: Seq<u8>)
        requires
            self.decoded_from(wire_code, wire_data, wire_opt),
            !(self is CoWrSecurity),
        ensures
            self.data_spec() == Seq::<u8>::empty().push(wire_code) + wire_data,
    {
        let expected = Seq::<u8>::empty().push(wire_code) + wire_data;
        match self {
            CommandData::CoWrSleep { deep_sleep_period } => {
                wire::lemma_u32_bytes_of(wire_data.subrange(0int, 4int));
                assert(self.data_spec() =~= expected);
            },
            CommandData::CoWrReset => {
                assert(self.data_spec() =~= expected);
            },
            CommandData::CoRdVersion => {
                assert(self.data_spec() =~= expected);
            },
            CommandData::CoRdSysLog => {
                assert(self.data_spec() =~= expected);
            },
            CommandData::CoWrSysLog => {
                assert(self.data_spec() =~= expected);
            },
            CommandData::CoWrBiSt => {
                assert(self.data_spec() =~= expected);
            },
            CommandData::CoWrIdBase { base_id } => {
                wire::lemma_u32_bytes_of(wire_data.subrange(0int, 4int));
                assert(self.data_spec() =~= expected);
            },
            CommandData::CoRdIdBase => {
                assert(self.data_spec() =~= expected);
            },
            CommandData::CoWrRepeater { enable, level } => {
                RepeaterEnable::lemma_byte_roundtrip(wire_data[0]);
                RepeaterLevel::lemma_byte_roundtrip(wire_data[1]);
                assert(self.data_spec() =~= expected);
            },
            CommandData::CoRdRepeater => {
                assert(self.data_spec() =~= expected);
            },
            CommandData::CoWrFilterAdd { criterion, value, action } => {
                FilterCriterion::lemma_byte_roundtrip(wire_data[0]);
                wire::lemma_u32_bytes_of(wire_data.subrange(1int, 5int));
                FilterAction::lemma_byte_roundtrip(wire_data[5]);
                assert(self.data_spec() =~= expected);
            },
            CommandData::CoWrFilterDel { criterion, value, action } => {
                FilterCriterion::lemma_byte_roundtrip(wire_data[0]);
                wire::lemma_u32_bytes_of(wire_data.subrange(1int, 5int));
                FilterAction::lemma_byte_roundtrip(wire_data[5]);
                assert(self.data_spec() =~= expected);
            },
            CommandData::CoWrFilterDelAll => {
                assert(self.data_spec() =~= expected);
            },
            CommandData::CoWrFilterEnable { enable, operator } => {
                OneByteBoolean::lemma_byte_roundtrip(wire_data[0]);
                FilterOperator::lemma_byte_roundtrip(wire_data[1]);
                assert(self.data_spec() =~= expected);
            },
            CommandData::CoRdFilter => {
                assert(self.data_spec() =~= expected);
            },
            CommandData::CoWrWaitMaturity { wait_for_maturity } => {
                OneByteBoolean::lemma_byte_roundtrip(wire_data[0]);
                assert(self.data_spec() =~= expected);
            },
            CommandData::CoWrSubTelegram { enable_subtelegram_info } => {
                OneByteBoolean::lemma_byte_roundtrip(wire_data[0]);
                assert(self.data_spec() =~= expected);
            },
            CommandData::CoWrMem { memory_type, address, data } => {
                MemoryType::lemma_byte_roundtrip(wire_data[0]);
                wire::lemma_u32_bytes_of(wire_data.subrange(1int, 5int));
                assert(self.data_spec() =~= expected);
            },
            CommandData::CoRdMem { memory_type, address, length } => {
                MemoryType::lemma_byte_roundtrip(wire_data[0]);
                wire::lemma_u32_bytes_of(wire_data.subrange(1int, 5int));
                wire::lemma_u16_bytes_of(wire_data.subrange(5int, 7int));
                assert(self.data_spec() =~= expected);
            },
            CommandData::CoRdMemAddress { area } => {
                AddressArea::lemma_byte_roundtrip(wire_data[0]);
                assert(self.data_spec() =~= expected);
            },
            CommandData::CoRdSecurity => {
                assert(self.data_spec() =~= expected);
            },
            CommandData::CoWrSecurity { .. } => {},
            CommandData::CoWrLearnMode { enable, timeout, .. } => {
                OneByteBoolean::lemma_byte_roundtrip(wire_data[0]);
                wire::lemma_u32_bytes_of(wire_data.subrange(1int, 5int));
                assert(self.data_spec() =~= expected);
            },
            CommandData::CoRdLearnMode => {
                assert(self.data_spec() =~= expected);
            },
            CommandData::CoWrSecureDeviceAdd { slf, device_id, private_key, rolling_code, .. } => {
                wire::lemma_u32_bytes_of(wire_data.subrange(1int, 5int));
                wire::lemma_u32_bytes_of(wire_data.subrange(5int, 9int));
                wire::lemma_u32_bytes_of(wire_data.subrange(9int, 13int));
                wire::lemma_u32_bytes_of(wire_data.subrange(13int, 17int));
                wire::lemma_u32_bytes_of(wire_data.subrange(17int, 21int));
                wire::lemma_u24_bytes_of(wire_data.subrange(21int, 24int));
                assert(self.data_spec() =~= expected);
            },
            CommandData::CoWrSecureDeviceDel { device_id, .. } => {
                wire::lemma_u32_bytes_of(wire_data.subrange(0int, 4int));
                assert(self.data_spec() =~= expected);
            },
            CommandData::CoRdSecureDeviceByIndex { index, .. } => {
                assert(self.data_spec() =~= expected);
            },
            CommandData::CoWrMode { mode } => {
                TransceiverMode::lemma_byte_roundtrip(wire_data[0]);
                assert(self.data_spec() =~= expected);
            },
            CommandData::CoRdNumSecureDevices { .. } => {
                assert(self.data_spec() =~= expected);
            },
            CommandData::CoRdSecureDeviceById { device_id, .. } => {
                wire::lemma_u32_bytes_of(wire_data.subrange(0int, 4int));
                assert(self.data_spec() =~= expected);
            },
            CommandData::CoWrSecureDeviceAddPsk { device_id, psk } => {
                wire::lemma_u32_bytes_of(wire_data.subrange(0int, 4int));
                wire::lemma_u32_bytes_of(wire_data.subrange(4int, 8int));
                wire::lemma_u32_bytes_of(wire_data.subrange(8int, 12int));
                wire::lemma_u32_bytes_of(wire_data.subrange(12int, 16int));
                wire::lemma_u32_bytes_of(wire_data.subrange(16int, 20int));
                assert(self.data_spec() =~= expected);
            },
            CommandData::CoWrSecureDeviceSendTeachIn { device_id, .. } => {
                wire::lemma_u32_bytes_of(wire_data.subrange(0int, 4int));
                assert(self.data_spec() =~= expected);
            },
            CommandData::CoWrTemporaryRlcWindow { enable, rlc_window } => {
                OneByteBoolean::lemma_byte_roundtrip(wire_data[0]);
                wire::lemma_u32_bytes_of(wire_data.subrange(1int, 5int));
                assert(self.data_spec() =~= expected);
            },
            CommandData::CoRdSecureDevicePsk { device_id } => {
                wire::lemma_u32_bytes_of(wire_data.subrange(0int, 4int));
                assert(self.data_spec() =~= expected);
            },
            CommandData::CoRdDutyCycleLimit => {
                assert(self.data_spec() =~= expected);
            },
            CommandData::CoSetBaudRate { baud_rate } => {
                BaudRate::lemma_byte_roundtrip(wire_data[0]);
                assert(self.data_spec() =~= expected);
            },
            CommandData::CoGetFrequencyInfo => {
                assert(self.data_spec() =~= expected);
            },
            CommandData::CoGetStepCode => {
                assert(self.data_spec() =~= expected);
            },
            CommandData::CoWrReManCode { code } => {
                wire::lemma_u32_bytes_of(wire_data.subrange(0int, 4int));
                assert(self.data_spec() =~= expected);
            },
            CommandData::CoWrStartupDelay { delay } => {
                assert(self.data_spec() =~= expected);
            },
            CommandData::CoWrReManRepeating { repeat_re_man_telegrams } => {
                OneByteBoolean::lemma_byte_roundtrip(wire_data[0]);
                assert(self.data_spec() =~= expected);
            },
            CommandData::CoRdReManRepeating => {
                assert(self.data_spec() =~= expected);
            },
            CommandData::CoSetNoiseThreshold { rssi_level } => {
                assert(self.data_spec() =~= expected);
            },
            CommandData::CoGetNoiseThreshold => {
                assert(self.data_spec() =~= expected);
            },
            CommandData::CoWrRlcSavePeriod { save_period } => {
                assert(self.data_spec() =~= expected);
            },
            CommandData::CoWrRlcLegacyMode { enable } => {
                OneByteBoolean::lemma_byte_roundtrip(wire_data[0]);
                assert(self.data_spec() =~= expected);
            },
            CommandData::CoWrSecureDeviceV2Add { slf, device_id, private_key, rolling_code, teach_info, .. } => {
                wire::lemma_u32_bytes_of(wire_data.subrange(1int, 5int));
                wire::lemma_u32_bytes_of(wire_data.subrange(5int, 9int));
                wire::lemma_u32_bytes_of(wire_data.subrange(9int, 13int));
                wire::lemma_u32_bytes_of(wire_data.subrange(13int, 17int));
                wire::lemma_u32_bytes_of(wire_data.subrange(17int, 21int));
                wire::lemma_u32_bytes_of(wire_data.subrange(21int, 25int));
                assert(self.data_spec() =~= expected);
            },
            CommandData::CoRdSecureDeviceV2ByIndex { index, .. } => {
                assert(self.data_spec() =~= expected);
            },
            CommandData::CoWrRssiTestMode { enable, timeout } => {
                OneByteBoolean::lemma_byte_roundtrip(wire_data[0]);
                wire::lemma_u16_bytes_of(wire_data.subrange(1int, 3int));
                assert(self.data_spec() =~= expected);
            },
            CommandData::CoRdRssiTestMode => {
                assert(self.data_spec() =~= expected);
            },
            CommandData::CoWrSecureDeviceMaintenanceKey { device_id, maintenance_key, key_number } => {
                wire::lemma_u32_bytes_of(wire_data.subrange(0int, 4int));
                wire::lemma_u32_bytes_of(wire_data.subrange(4int, 8int));
                wire::lemma_u32_bytes_of(wire_data.subrange(8int, 12int));
                wire::lemma_u32_bytes_of(wire_data.subrange(12int, 16int));
                wire::lemma_u32_bytes_of(wire_data.subrange(16int, 20int));
                assert(self.data_spec() =~= expected);
            },
            CommandData::CoRdSecureDeviceMaintenanceKey { index } => {
                assert(self.data_spec() =~= expected);
            },
            CommandData::CoWrTransparentMode { enable } => {
                OneByteBoolean::lemma_byte_roundtrip(wire_data[0]);
                assert(self.data_spec() =~= expected);
            },
            CommandData::CoRdTransparentMode => {
                assert(self.data_spec() =~= expected);
            },
            CommandData::CoWrTxOnlyMode { mode } => {
                TxOnlyMode::lemma_byte_roundtrip(wire_data[0]);
                assert(self.data_spec() =~= expected);
            },
            CommandData::CoRdTxOnlyMode => {
                assert(self.data_spec() =~= expected);
            },
            CommandData::Unknown { .. } => {
                assert(self.data_spec() =~= expected);
            },
        }
    }
}

} // verus!
