//! EnOcean Radio Protocol data as it appears in an ESP3 packet.
//!
//! The structure of the contained data is not regulated in the EnOcean specification but is managed
//! by the EnOcean Alliance, a group of vendors with a common goal of increasing interoperability.
//! The most helpful document describing the common packet types is _EnOcean Equipment Profiles_.

use vstd::prelude::*;
use crate::max_array::MaxArray;
use crate::esp3::DATA_AFTER_CODE_LENGTH;
use crate::esp3::codes::OneByteBoolean;
use crate::esp3::wire::{self, read_u16_be, read_u32_be};
use crate::max_array_ext::be_u32_bytes;

verus! {

/// The maximum length of variable data in a VLD ESP3 packet.
///
/// Specified in _EnOcean Equipment Profiles_ (section 3.1.3).
pub const MAXIMUM_VLD_DATA_LENGTH: usize = 14;

/// The maximum length of variable data in an MSC ESP3 packet.
///
/// Technically 12.5 bytes (100 bits), but we round this up for at-rest use cases.
///
/// Specified in _EnOcean Equipment Profiles_ (section 3.1.3).
pub const MAXIMUM_MSC_DATA_LENGTH: usize = 13;

/// The maximum length of variable data in a SIG ESP3 packet.
///
/// Specified in _Signal Telegram_ (section 2).
pub const MAXIMUM_SIG_DATA_LENGTH: usize = 13;

/// The repeater count values in the status byte. These are specified in EnOcean's ERP1 documentation (section 5.2.3).
#[derive(Clone, Copy, Debug, PartialEq, Eq, Structural, Hash, PartialOrd, Ord)]
pub enum RepeaterCount {
    OriginalSender,
    RepeatedOnce,
    RepeatedTwice,
    DoNotRepeat,
    Other(u8),
}

impl RepeaterCount {
    /// The value decoded from a byte: the variant with that value, or `Other`.
    pub open spec fn from_byte_spec(value: u8) -> Self {
        if value == 0x0 {
            RepeaterCount::OriginalSender
        } else if value == 0x1 {
            RepeaterCount::RepeatedOnce
        } else if value == 0x2 {
            RepeaterCount::RepeatedTwice
        } else if value == 0xf {
            RepeaterCount::DoNotRepeat
        } else {
            RepeaterCount::Other(value)
        }
    }

    /// The byte that encodes this value.
    pub open spec fn to_byte_spec(self) -> u8 {
        match self {
            RepeaterCount::OriginalSender => 0x0,
            RepeaterCount::RepeatedOnce => 0x1,
            RepeaterCount::RepeatedTwice => 0x2,
            RepeaterCount::DoNotRepeat => 0xf,
            RepeaterCount::Other(value) => value,
        }
    }

    /// Decoding a byte and encoding the result gives back the byte.
    pub proof fn lemma_byte_roundtrip(value: u8)
        ensures
            Self::from_byte_spec(value).to_byte_spec() == value,
    {
    }
}

impl From<u8> for RepeaterCount {
    fn from(value: u8) -> (ret: Self)
        ensures
            ret == RepeaterCount::from_byte_spec(value),
    {
        match value {
            0x0 => RepeaterCount::OriginalSender,
            0x1 => RepeaterCount::RepeatedOnce,
            0x2 => RepeaterCount::RepeatedTwice,
            0xf => RepeaterCount::DoNotRepeat,
            other => RepeaterCount::Other(other),
        }
    }
}

impl vstd::std_specs::convert::FromSpecImpl<u8> for RepeaterCount {
    open spec fn obeys_from_spec() -> bool {
        true
    }

    open spec fn from_spec(v: u8) -> RepeaterCount {
        RepeaterCount::from_byte_spec(v)
    }
}

impl From<RepeaterCount> for u8 {
    fn from(value: RepeaterCount) -> (ret: u8)
        ensures
            ret == value.to_byte_spec(),
    {
        match value {
            RepeaterCount::OriginalSender => 0x0,
            RepeaterCount::RepeatedOnce => 0x1,
            RepeaterCount::RepeatedTwice => 0x2,
            RepeaterCount::DoNotRepeat => 0xf,
            RepeaterCount::Other(other) => other,
        }
    }
}

impl vstd::std_specs::convert::FromSpecImpl<RepeaterCount> for u8 {
    open spec fn obeys_from_spec() -> bool {
        true
    }

    open spec fn from_spec(v: RepeaterCount) -> u8 {
        v.to_byte_spec()
    }
}

/// A status message that may be requested.
#[derive(Clone, Copy, Debug, PartialEq, Eq, Structural, Hash, PartialOrd, Ord)]
pub enum StatusType {
    EepStatus,
    EnergyPercentage,
    DeviceRevision,
    RxLevelOfThisRequest,
    CurrentHarvestedEnergy,
    Other(u8),
}

impl StatusType {
    /// The value decoded from a byte: the variant with that value, or `Other`.
    pub open spec fn from_byte_spec(value: u8) -> Self {
        if value == 0x0 {
            StatusType::EepStatus
        } else if value == 0x1 {
            StatusType::EnergyPercentage
        } else if value == 0x2 {
            StatusType::DeviceRevision
        } else if value == 0x3 {
            StatusType::RxLevelOfThisRequest
        } else if value == 0x4 {
            StatusType::CurrentHarvestedEnergy
        } else {
            StatusType::Other(value)
        }
    }

    /// The byte that encodes this value.
    pub open spec fn to_byte_spec(self) -> u8 {
        match self {
            StatusType::EepStatus => 0x0,
            StatusType::EnergyPercentage => 0x1,
            StatusType::DeviceRevision => 0x2,
            StatusType::RxLevelOfThisRequest => 0x3,
            StatusType::CurrentHarvestedEnergy => 0x4,
            StatusType::Other(value) => value,
        }
    }

    /// Decoding a byte and encoding the result gives back the byte.
    pub proof fn lemma_byte_roundtrip(value: u8)
        ensures
            Self::from_byte_spec(value).to_byte_spec() == value,
    {
    }
}

impl From<u8> for StatusType {
    fn from(value: u8) -> (ret: Self)
        ensures
            ret == StatusType::from_byte_spec(value),
    {
        match value {
            0x0 => StatusType::EepStatus,
            0x1 => StatusType::EnergyPercentage,
            0x2 => StatusType::DeviceRevision,
            0x3 => StatusType::RxLevelOfThisRequest,
            0x4 => StatusType::CurrentHarvestedEnergy,
            other => StatusType::Other(other),
        }
    }
}

impl vstd::std_specs::convert::FromSpecImpl<u8> for StatusType {
    open spec fn obeys_from_spec() -> bool {
        true
    }

    open spec fn from_spec(v: u8) -> StatusType {
        StatusType::from_byte_spec(v)
    }
}

impl From<StatusType> for u8 {
    fn from(value: StatusType) -> (ret: u8)
        ensures
            ret == value.to_byte_spec(),
    {
        match value {
            StatusType::EepStatus => 0x0,
            StatusType::EnergyPercentage => 0x1,
            StatusType::DeviceRevision => 0x2,
            StatusType::RxLevelOfThisRequest => 0x3,
            StatusType::CurrentHarvestedEnergy => 0x4,
            StatusType::Other(other) => other,
        }
    }
}

impl vstd::std_specs::convert::FromSpecImpl<StatusType> for u8 {
    open spec fn obeys_from_spec() -> bool {
        true
    }

    open spec fn from_spec(v: StatusType) -> u8 {
        v.to_byte_spec()
    }
}

/// The quality of the energy provided by the energy harvester.
#[derive(Clone, Copy, Debug, PartialEq, Eq, Structural, Hash, PartialOrd, Ord)]
pub enum HarvesterEnergyQuality {
    VeryGood,
    Good,
    Average,
    Bad,
    VeryBad,
    Other(u8),
}

impl HarvesterEnergyQuality {
    /// The value decoded from a byte: the variant with that value, or `Other`.
    pub open spec fn from_byte_spec(value: u8) -> Self {
        if value == 0x0 {
            HarvesterEnergyQuality::VeryGood
        } else if value == 0x1 {
            HarvesterEnergyQuality::Good
        } else if value == 0x2 {
            HarvesterEnergyQuality::Average
        } else if value == 0x3 {
            HarvesterEnergyQuality::Bad
        } else if value == 0x4 {
            HarvesterEnergyQuality::VeryBad
        } else {
            HarvesterEnergyQuality::Other(value)
        }
    }

    /// The byte that encodes this value.
    pub open spec fn to_byte_spec(self) -> u8 {
        match self {
            HarvesterEnergyQuality::VeryGood => 0x0,
            HarvesterEnergyQuality::Good => 0x1,
            HarvesterEnergyQuality::Average => 0x2,
            HarvesterEnergyQuality::Bad => 0x3,
            HarvesterEnergyQuality::VeryBad => 0x4,
            HarvesterEnergyQuality::Other(value) => value,
        }
    }

    /// Decoding a byte and encoding the result gives back the byte.
    pub proof fn lemma_byte_roundtrip(value: u8)
        ensures
            Self::from_byte_spec(value).to_byte_spec() == value,
    {
    }
}

impl From<u8> for HarvesterEnergyQuality {
    fn from(value: u8) -> (ret: Self)
        ensures
            ret == HarvesterEnergyQuality::from_byte_spec(value),
    {
        match value {
            0x0 => HarvesterEnergyQuality::VeryGood,
            0x1 => HarvesterEnergyQuality::Good,
            0x2 => HarvesterEnergyQuality::Average,
            0x3 => HarvesterEnergyQuality::Bad,
            0x4 => HarvesterEnergyQuality::VeryBad,
            other => HarvesterEnergyQuality::Other(other),
        }
    }
}

impl vstd::std_specs::convert::FromSpecImpl<u8> for HarvesterEnergyQuality {
    open spec fn obeys_from_spec() -> bool {
        true
    }

    open spec fn from_spec(v: u8) -> HarvesterEnergyQuality {
        HarvesterEnergyQuality::from_byte_spec(v)
    }
}

impl From<HarvesterEnergyQuality> for u8 {
    fn from(value: HarvesterEnergyQuality) -> (ret: u8)
        ensures
            ret == value.to_byte_spec(),
    {
        match value {
            HarvesterEnergyQuality::VeryGood => 0x0,
            HarvesterEnergyQuality::Good => 0x1,
            HarvesterEnergyQuality::Average => 0x2,
            HarvesterEnergyQuality::Bad => 0x3,
            HarvesterEnergyQuality::VeryBad => 0x4,
            HarvesterEnergyQuality::Other(other) => other,
        }
    }
}

impl vstd::std_specs::convert::FromSpecImpl<HarvesterEnergyQuality> for u8 {
    open spec fn obeys_from_spec() -> bool {
        true
    }

    open spec fn from_spec(v: HarvesterEnergyQuality) -> u8 {
        v.to_byte_spec()
    }
}

/// The type of learn mode used by the device.
#[derive(Clone, Copy, Debug, PartialEq, Eq, Structural, Hash, PartialOrd, Ord)]
pub enum LearnModeType {
    Standard,
    Extended1,
    Extended2,
    NotApplicable,
    Other(u8),
}

impl LearnModeType {
    /// The value decoded from a byte: the variant with that value, or `Other`.
    pub open spec fn from_byte_spec(value: u8) -> Self {
        if value == 0x0 {
            LearnModeType::Standard
        } else if value == 0x1 {
            LearnModeType::Extended1
        } else if value == 0x2 {
            LearnModeType::Extended2
        } else if value == 0x3 {
            LearnModeType::NotApplicable
        } else {
            LearnModeType::Other(value)
        }
    }

    /// The byte that encodes this value.
    pub open spec fn to_byte_spec(self) -> u8 {
        match self {
            LearnModeType::Standard => 0x0,
            LearnModeType::Extended1 => 0x1,
            LearnModeType::Extended2 => 0x2,
            LearnModeType::NotApplicable => 0x3,
            LearnModeType::Other(value) => value,
        }
    }

    /// Decoding a byte and encoding the result gives back the byte.
    pub proof fn lemma_byte_roundtrip(value: u8)
        ensures
            Self::from_byte_spec(value).to_byte_spec() == value,
    {
    }
}

impl From<u8> for LearnModeType {
    fn from(value: u8) -> (ret: Self)
        ensures
            ret == LearnModeType::from_byte_spec(value),
    {
        match value {
            0x0 => LearnModeType::Standard,
            0x1 => LearnModeType::Extended1,
            0x2 => LearnModeType::Extended2,
            0x3 => LearnModeType::NotApplicable,
            other => LearnModeType::Other(other),
        }
    }
}

impl vstd::std_specs::convert::FromSpecImpl<u8> for LearnModeType {
    open spec fn obeys_from_spec() -> bool {
        true
    }

    open spec fn from_spec(v: u8) -> LearnModeType {
        LearnModeType::from_byte_spec(v)
    }
}

impl From<LearnModeType> for u8 {
    fn from(value: LearnModeType) -> (ret: u8)
        ensures
            ret == value.to_byte_spec(),
    {
        match value {
            LearnModeType::Standard => 0x0,
            LearnModeType::Extended1 => 0x1,
            LearnModeType::Extended2 => 0x2,
            LearnModeType::NotApplicable => 0x3,
            LearnModeType::Other(other) => other,
        }
    }
}

impl vstd::std_specs::convert::FromSpecImpl<LearnModeType> for u8 {
    open spec fn obeys_from_spec() -> bool {
        true
    }

    open spec fn from_spec(v: LearnModeType) -> u8 {
        v.to_byte_spec()
    }
}

/// The result of the teach-in process.
#[derive(Clone, Copy, Debug, PartialEq, Eq, Structural, Hash, PartialOrd, Ord)]
pub enum TeachResult {
    TeachInSuccess,
    TeachInFailedUnsupportedEep,
    TeachInFailedTooManyDevicesOfEep,
    TeachInFailedTooManyDevices,
    TeachOutSuccess,
    TeachOutFailedUnknownDeviceId,
    NotApplicable,
    Other(u8),
}

impl TeachResult {
    /// The value decoded from a byte: the variant with that value, or `Other`.
    pub open spec fn from_byte_spec(value: u8) -> Self {
        if value == 0x0 {
            TeachResult::TeachInSuccess
        } else if value == 0x1 {
            TeachResult::TeachInFailedUnsupportedEep
        } else if value == 0x2 {
            TeachResult::TeachInFailedTooManyDevicesOfEep
        } else if value == 0x3 {
            TeachResult::TeachInFailedTooManyDevices
        } else if value == 0x4 {
            TeachResult::TeachOutSuccess
        } else if value == 0x5 {
            TeachResult::TeachOutFailedUnknownDeviceId
        } else if value == 0xf {
            TeachResult::NotApplicable
        } else {
            TeachResult::Other(value)
        }
    }

    /// The byte that encodes this value.
    pub open spec fn to_byte_spec(self) -> u8 {
        match self {
            TeachResult::TeachInSuccess => 0x0,
            TeachResult::TeachInFailedUnsupportedEep => 0x1,
            TeachResult::TeachInFailedTooManyDevicesOfEep => 0x2,
            TeachResult::TeachInFailedTooManyDevices => 0x3,
            TeachResult::TeachOutSuccess => 0x4,
            TeachResult::TeachOutFailedUnknownDeviceId => 0x5,
            TeachResult::NotApplicable => 0xf,
            TeachResult::Other(value) => value,
        }
    }

    /// Decoding a byte and encoding the result gives back the byte.
    pub proof fn lemma_byte_roundtrip(value: u8)
        ensures
            Self::from_byte_spec(value).to_byte_spec() == value,
    {
    }
}

impl From<u8> for TeachResult {
    fn from(value: u8) -> (ret: Self)
        ensures
            ret == TeachResult::from_byte_spec(value),
    {
        match value {
            0x0 => TeachResult::TeachInSuccess,
            0x1 => TeachResult::TeachInFailedUnsupportedEep,
            0x2 => TeachResult::TeachInFailedTooManyDevicesOfEep,
            0x3 => TeachResult::TeachInFailedTooManyDevices,
            0x4 => TeachResult::TeachOutSuccess,
            0x5 => TeachResult::TeachOutFailedUnknownDeviceId,
            0xf => TeachResult::NotApplicable,
            other => TeachResult::Other(other),
        }
    }
}

impl vstd::std_specs::convert::FromSpecImpl<u8> for TeachResult {
    open spec fn obeys_from_spec() -> bool {
        true
    }

    open spec fn from_spec(v: u8) -> TeachResult {
        TeachResult::from_byte_spec(v)
    }
}

impl From<TeachResult> for u8 {
    fn from(value: TeachResult) -> (ret: u8)
        ensures
            ret == value.to_byte_spec(),
    {
        match value {
            TeachResult::TeachInSuccess => 0x0,
            TeachResult::TeachInFailedUnsupportedEep => 0x1,
            TeachResult::TeachInFailedTooManyDevicesOfEep => 0x2,
            TeachResult::TeachInFailedTooManyDevices => 0x3,
            TeachResult::TeachOutSuccess => 0x4,
            TeachResult::TeachOutFailedUnknownDeviceId => 0x5,
            TeachResult::NotApplicable => 0xf,
            TeachResult::Other(other) => other,
        }
    }
}

impl vstd::std_specs::convert::FromSpecImpl<TeachResult> for u8 {
    open spec fn obeys_from_spec() -> bool {
        true
    }

    open spec fn from_spec(v: TeachResult) -> u8 {
        v.to_byte_spec()
    }
}

/// The type of Universal Teach-In (UTE) request.
#[derive(Clone, Copy, Debug, PartialEq, Eq, Structural, Hash, PartialOrd, Ord)]
pub enum UteRequestType {
    TeachIn,
    TeachInDeletion,
    TeachInOrDeletion,
    Other(u8),
}

impl UteRequestType {
    /// The value decoded from a byte: the variant with that value, or `Other`.
    pub open spec fn from_byte_spec(value: u8) -> Self {
        if value == 0x0 {
            UteRequestType::TeachIn
        } else if value == 0x1 {
            UteRequestType::TeachInDeletion
        } else if value == 0x2 {
            UteRequestType::TeachInOrDeletion
        } else {
            UteRequestType::Other(value)
        }
    }

    /// The byte that encodes this value.
    pub open spec fn to_byte_spec(self) -> u8 {
        match self {
            UteRequestType::TeachIn => 0x0,
            UteRequestType::TeachInDeletion => 0x1,
            UteRequestType::TeachInOrDeletion => 0x2,
            UteRequestType::Other(value) => value,
        }
    }

    /// Decoding a byte and encoding the result gives back the byte.
    pub proof fn lemma_byte_roundtrip(value: u8)
        ensures
            Self::from_byte_spec(value).to_byte_spec() == value,
    {
    }
}

impl From<u8> for UteRequestType {
    fn from(value: u8) -> (ret: Self)
        ensures
            ret == UteRequestType::from_byte_spec(value),
    {
        match value {
            0x0 => UteRequestType::TeachIn,
            0x1 => UteRequestType::TeachInDeletion,
            0x2 => UteRequestType::TeachInOrDeletion,
            other => UteRequestType::Other(other),
        }
    }
}

impl vstd::std_specs::convert::FromSpecImpl<u8> for UteRequestType {
    open spec fn obeys_from_spec() -> bool {
        true
    }

    open spec fn from_spec(v: u8) -> UteRequestType {
        UteRequestType::from_byte_spec(v)
    }
}

impl From<UteRequestType> for u8 {
    fn from(value: UteRequestType) -> (ret: u8)
        ensures
            ret == value.to_byte_spec(),
    {
        match value {
            UteRequestType::TeachIn => 0x0,
            UteRequestType::TeachInDeletion => 0x1,
            UteRequestType::TeachInOrDeletion => 0x2,
            UteRequestType::Other(other) => other,
        }
    }
}

impl vstd::std_specs::convert::FromSpecImpl<UteRequestType> for u8 {
    open spec fn obeys_from_spec() -> bool {
        true
    }

    open spec fn from_spec(v: UteRequestType) -> u8 {
        v.to_byte_spec()
    }
}

/// The type of Universal Teach-In (UTE) response.
#[derive(Clone, Copy, Debug, PartialEq, Eq, Structural, Hash, PartialOrd, Ord)]
pub enum UteResponseType {
    NotAccepted,
    TeachInSuccess,
    DeletionSuccess,
    UnsupportedEep,
    Other(u8),
}

impl UteResponseType {
    /// The value decoded from a byte: the variant with that value, or `Other`.
    pub open spec fn from_byte_spec(value: u8) -> Self {
        if value == 0x0 {
            UteResponseType::NotAccepted
        } else if value == 0x1 {
            UteResponseType::TeachInSuccess
        } else if value == 0x2 {
            UteResponseType::DeletionSuccess
        } else if value == 0x3 {
            UteResponseType::UnsupportedEep
        } else {
            UteResponseType::Other(value)
        }
    }

    /// The byte that encodes this value.
    pub open spec fn to_byte_spec(self) -> u8 {
        match self {
            UteResponseType::NotAccepted => 0x0,
            UteResponseType::TeachInSuccess => 0x1,
            UteResponseType::DeletionSuccess => 0x2,
            UteResponseType::UnsupportedEep => 0x3,
            UteResponseType::Other(value) => value,
        }
    }

    /// Decoding a byte and encoding the result gives back the byte.
    pub proof fn lemma_byte_roundtrip(value: u8)
        ensures
            Self::from_byte_spec(value).to_byte_spec() == value,
    {
    }
}

impl From<u8> for UteResponseType {
    fn from(value: u8) -> (ret: Self)
        ensures
            ret == UteResponseType::from_byte_spec(value),
    {
        match value {
            0x0 => UteResponseType::NotAccepted,
            0x1 => UteResponseType::TeachInSuccess,
            0x2 => UteResponseType::DeletionSuccess,
            0x3 => UteResponseType::UnsupportedEep,
            other => UteResponseType::Other(other),
        }
    }
}

impl vstd::std_specs::convert::FromSpecImpl<u8> for UteResponseType {
    open spec fn obeys_from_spec() -> bool {
        true
    }

    open spec fn from_spec(v: u8) -> UteResponseType {
        UteResponseType::from_byte_spec(v)
    }
}

impl From<UteResponseType> for u8 {
    fn from(value: UteResponseType) -> (ret: u8)
        ensures
            ret == value.to_byte_spec(),
    {
        match value {
            UteResponseType::NotAccepted => 0x0,
            UteResponseType::TeachInSuccess => 0x1,
            UteResponseType::DeletionSuccess => 0x2,
            UteResponseType::UnsupportedEep => 0x3,
            UteResponseType::Other(other) => other,
        }
    }
}

impl vstd::std_specs::convert::FromSpecImpl<UteResponseType> for u8 {
    open spec fn obeys_from_spec() -> bool {
        true
    }

    open spec fn from_spec(v: UteResponseType) -> u8 {
        v.to_byte_spec()
    }
}

/// The status of a backup battery.
#[derive(Clone, Copy, Debug, PartialEq, Eq, Structural, Hash, PartialOrd, Ord)]
pub enum BackupBatteryStatus {
    Percentage(u8),
    Reserved(u8),
    NoBattery,
}

impl BackupBatteryStatus {
    /// The status that a byte encodes.
    pub open spec fn from_byte_spec(val: u8) -> Self {
        if val <= 100 {
            BackupBatteryStatus::Percentage(val)
        } else if val <= 254 {
            BackupBatteryStatus::Reserved(val)
        } else {
            BackupBatteryStatus::NoBattery
        }
    }

    /// The byte that encodes this status.
    pub open spec fn to_byte_spec(self) -> u8 {
        match self {
            BackupBatteryStatus::Percentage(v) => v,
            BackupBatteryStatus::Reserved(v) => v,
            BackupBatteryStatus::NoBattery => 255,
        }
    }

    /// Decoding a byte and encoding the result gives back the byte.
    pub proof fn lemma_byte_roundtrip(value: u8)
        ensures
            Self::from_byte_spec(value).to_byte_spec() == value,
    {
    }
}

impl From<u8> for BackupBatteryStatus {
    fn from(val: u8) -> (ret: Self)
        ensures
            ret == BackupBatteryStatus::from_byte_spec(val),
    {
        if val <= 100 {
            BackupBatteryStatus::Percentage(val)
        } else if val <= 254 {
            BackupBatteryStatus::Reserved(val)
        } else {
            BackupBatteryStatus::NoBattery
        }
    }
}

impl vstd::std_specs::convert::FromSpecImpl<u8> for BackupBatteryStatus {
    open spec fn obeys_from_spec() -> bool {
        true
    }

    open spec fn from_spec(v: u8) -> BackupBatteryStatus {
        BackupBatteryStatus::from_byte_spec(v)
    }
}

impl From<BackupBatteryStatus> for u8 {
    fn from(bbs: BackupBatteryStatus) -> (ret: u8)
        ensures
            ret == bbs.to_byte_spec(),
    {
        match bbs {
            BackupBatteryStatus::Percentage(v) => v,
            BackupBatteryStatus::Reserved(v) => v,
            BackupBatteryStatus::NoBattery => 255,
        }
    }
}

impl vstd::std_specs::convert::FromSpecImpl<BackupBatteryStatus> for u8 {
    open spec fn obeys_from_spec() -> bool {
        true
    }

    open spec fn from_spec(v: BackupBatteryStatus) -> u8 {
        v.to_byte_spec()
    }
}

/// The repeater count stored in the low four bits of a status byte.
fn repeater_count_of(status: u8) -> (ret: RepeaterCount)
    ensures
        ret == RepeaterCount::from_byte_spec(status & 0b1111),
{
    match status & 0b1111 {
        0x0 => RepeaterCount::OriginalSender,
        0x1 => RepeaterCount::RepeatedOnce,
        0x2 => RepeaterCount::RepeatedTwice,
        0xf => RepeaterCount::DoNotRepeat,
        other => RepeaterCount::Other(other),
    }
}

/// A trait for ERP telegrams that have a status byte.
pub trait ErpStatusByte {
    /// The status byte of this telegram.
    spec fn status_spec(&self) -> u8;

    /// The value of the status byte contained in this ERP telegram.
    fn status_byte(&self) -> (ret: u8)
        ensures
            ret == self.status_spec(),
    ;

    /// Indicates whether this telegram has been or should be repeated (the low four bits of the
    /// status byte).
    fn repeater_count(&self) -> (ret: RepeaterCount)
        ensures
            ret == RepeaterCount::from_byte_spec(self.status_spec() & 0b1111),
    {
        repeater_count_of(self.status_byte())
    }

    /// Indicates whether the CRC8 algorithm is used for checksum calculation instead of a simple
    /// sum modulo 255 (the high bit of the status byte).
    ///
    /// The CRC8 polynomial in use is CRC8-CCITT.
    fn uses_crc8(&self) -> (ret: bool)
        ensures
            ret == (self.status_spec() & 0x80 != 0),
    {
        (self.status_byte() & 0x80) != 0
    }
}

/// Repeated Switch Telegram (RPS, 0xF6)
#[derive(Clone, Copy, Debug, PartialEq, Eq, Structural, Hash, PartialOrd, Ord)]
pub struct RepeatedSwitchTelegram {
    pub data: u8,
    pub sender: u32,
    pub status: u8,
}

impl RepeatedSwitchTelegram {
    /// The telegram stored in `bytes`: the data byte, the sender (big-endian) and the status
    /// byte; `None` unless there are exactly six bytes.
    pub open spec fn parse_spec(bytes: Seq<u8>) -> Option<Self> {
        if bytes.len() == 6 {
            Some(RepeatedSwitchTelegram { data: bytes[0], sender: wire::be_u32_at(bytes, 1), status: bytes[5] })
        } else {
            None
        }
    }

    /// `true` if this is an N-message (normal message); `false` if this is a U-message (unassigned
    /// message).
    pub fn is_normal(&self) -> (ret: bool)
        ensures
            ret == (self.status & 0x10 != 0),
    {
        (self.status & 0x10) != 0
    }

    /// `true` if this message is from a type-2 module; `false` if this message is from a type-1
    /// module.
    ///
    /// Type 1 generally corresponds to PTM1xx; type 2 to PTM2xx.
    pub fn is_type2(&self) -> (ret: bool)
        ensures
            ret == (self.status & 0x20 != 0),
    {
        (self.status & 0x20) != 0
    }

    /// Attempts to assemble this telegram from the given slice.
    pub fn from_slice(bytes: &[u8]) -> (ret: Option<Self>)
        ensures
            ret == Self::parse_spec(bytes@),
    {
        if bytes.len() != 6 {
            return None;
        }
        Some(RepeatedSwitchTelegram { data: bytes[0], sender: read_u32_be(bytes, 1), status: bytes[5] })
    }
}

impl ErpStatusByte for RepeatedSwitchTelegram {
    open spec fn status_spec(&self) -> u8 {
        self.status
    }

    fn status_byte(&self) -> (ret: u8) {
        self.status
    }
}

/// One-Byte Telegram (1BS, 0xD5)
#[derive(Clone, Copy, Debug, PartialEq, Eq, Structural, Hash, PartialOrd, Ord)]
pub struct OneByteTelegram {
    pub data: u8,
    pub sender: u32,
    pub status: u8,
}

impl OneByteTelegram {
    /// The telegram stored in `bytes`: the data byte, the sender (big-endian) and the status
    /// byte; `None` unless there are exactly six bytes.
    pub open spec fn parse_spec(bytes: Seq<u8>) -> Option<Self> {
        if bytes.len() == 6 {
            Some(OneByteTelegram { data: bytes[0], sender: wire::be_u32_at(bytes, 1), status: bytes[5] })
        } else {
            None
        }
    }

    /// Indicates whether this packet is a teach-in packet (i.e., the LRN bit is clear).
    pub fn is_teach_in(&self) -> (ret: bool)
        ensures
            ret == (self.data & 0x08 == 0),
    {
        (self.data & 0x08) == 0
    }

    /// Attempts to assemble this telegram from the given slice.
    pub fn from_slice(bytes: &[u8]) -> (ret: Option<Self>)
        ensures
            ret == Self::parse_spec(bytes@),
    {
        if bytes.len() != 6 {
            return None;
        }
        Some(OneByteTelegram { data: bytes[0], sender: read_u32_be(bytes, 1), status: bytes[5] })
    }
}

impl ErpStatusByte for OneByteTelegram {
    open spec fn status_spec(&self) -> u8 {
        self.status
    }

    fn status_byte(&self) -> (ret: u8) {
        self.status
    }
}

/// Four-Byte Telegram (4BS, 0xA5)
#[derive(Clone, Copy, Debug, PartialEq, Eq, Structural, Hash, PartialOrd, Ord)]
pub struct FourByteTelegram {
    pub data: u32,
    pub sender: u32,
    pub status: u8,
}

/// Detailed information about a device transmitted as part of some four-byte teach-in telegrams.
#[derive(Clone, Copy, Debug, PartialEq, Eq, Structural, Hash, PartialOrd, Ord)]
pub struct FourByteTeachInDetails {
    /// The function value (second byte of the EEP profile number).
    ///
    /// The first byte of the EEP profile number is the RORG value of the telegram.
    pub func_value: u8,

    /// The type value (third byte of the EEP profile number).
    pub type_value: u8,

    /// The ID of the manufacturer of the device.
    pub manufacturer_id: u16,
}

/// The teach-in flags relevant to bidirectional teach-in using four-byte telegrams.
#[derive(Clone, Copy, Debug, PartialEq, Eq, Structural, Hash, PartialOrd, Ord)]
pub struct FourByteTeachInFlags {
    /// `false` if this is a query, `true` if this is a response. (LRN Status)
    pub is_response: bool,

    /// `false` if the sender ID is deleted or not stored, `true` if it is stored. (LRN Result)
    pub sender_id_is_stored: bool,

    /// `false` if EEP is not supported, `true` if it is. (EEP Result)
    pub eep_is_supported: bool,
}

impl FourByteTelegram {
    /// The telegram stored in `bytes`: the data (big-endian), the sender (big-endian) and the
    /// status byte; `None` unless there are exactly nine bytes.
    pub open spec fn parse_spec(bytes: Seq<u8>) -> Option<Self> {
        if bytes.len() == 9 {
            Some(
                FourByteTelegram {
                    data: wire::be_u32_at(bytes, 0),
                    sender: wire::be_u32_at(bytes, 4),
                    status: bytes[8],
                },
            )
        } else {
            None
        }
    }

    /// Whether the LRN bit (bit 3 of the data) is clear.
    pub open spec fn is_teach_in_spec(self) -> bool {
        self.data & 0x08 == 0
    }

    /// Whether this is a teach-in telegram whose bit 7 of the data is clear as well.
    pub open spec fn is_detailed_teach_in_spec(self) -> bool {
        self.is_teach_in_spec() && self.data & 0x80 == 0
    }

    /// Indicates whether this packet is a teach-in packet (i.e., the LRN bit is clear).
    pub fn is_teach_in(&self) -> (ret: bool)
        ensures
            ret == self.is_teach_in_spec(),
    {
        (self.data & 0x08) == 0
    }

    /// Indicates whether this packet is a teach-in packet and contains added information.
    pub fn is_detailed_teach_in(&self) -> (ret: bool)
        ensures
            ret == self.is_detailed_teach_in_spec(),
    {
        self.is_teach_in() && (self.data & 0x80) == 0
    }

    /// Returns details about the device if this is a teach-in telegram and contains this
    /// information: the function (bits 26 to 31), the type (bits 19 to 25) and the manufacturer
    /// (bits 8 to 18) of the data.
    pub fn teach_in_details(&self) -> (ret: Option<FourByteTeachInDetails>)
        ensures
            ret == (if self.is_detailed_teach_in_spec() {
                Some(
                    FourByteTeachInDetails {
                        func_value: ((self.data >> 26u32) & 0x3F) as u8,
                        type_value: ((self.data >> 19u32) & 0x7F) as u8,
                        manufacturer_id: ((self.data >> 8u32) & 0x7FF) as u16,
                    },
                )
            } else {
                None
            }),
    {
        if !self.is_detailed_teach_in() {
            None
        } else {
            let func_value = (self.data >> 26u32) & 0x3F;
            let type_value = (self.data >> 19u32) & 0x7F;
            let manufacturer_id = (self.data >> 8u32) & 0x7FF;
            Some(
                FourByteTeachInDetails {
                    func_value: func_value as u8,
                    type_value: type_value as u8,
                    manufacturer_id: manufacturer_id as u16,
                },
            )
        }
    }

    /// Returns the teach-in flags for this telegram: bits 4, 5 and 6 of the data.
    pub fn teach_in_flags(&self) -> (ret: Option<FourByteTeachInFlags>)
        ensures
            ret == (if self.is_detailed_teach_in_spec() {
                Some(
                    FourByteTeachInFlags {
                        is_response: self.data & 0x10 != 0,
                        sender_id_is_stored: self.data & 0x20 != 0,
                        eep_is_supported: self.data & 0x40 != 0,
                    },
                )
            } else {
                None
            }),
    {
        if !self.is_detailed_teach_in() {
            None
        } else {
            Some(
                FourByteTeachInFlags {
                    is_response: (self.data & 0x10) != 0,
                    sender_id_is_stored: (self.data & 0x20) != 0,
                    eep_is_supported: (self.data & 0x40) != 0,
                },
            )
        }
    }

    /// Attempts to assemble this telegram from the given slice.
    pub fn from_slice(bytes: &[u8]) -> (ret: Option<Self>)
        ensures
            ret == Self::parse_spec(bytes@),
    {
        if bytes.len() != 9 {
            return None;
        }
        Some(FourByteTelegram { data: read_u32_be(bytes, 0), sender: read_u32_be(bytes, 4), status: bytes[8] })
    }
}

impl ErpStatusByte for FourByteTelegram {
    open spec fn status_spec(&self) -> u8 {
        self.status
    }

    fn status_byte(&self) -> (ret: u8) {
        self.status
    }
}

/// Variable-Length Data Telegram (VLD, 0xD2)
#[derive(Clone, Debug, PartialEq, Eq, Hash, PartialOrd, Ord)]
pub struct VariableLengthTelegram {
    pub data: MaxArray<u8, MAXIMUM_VLD_DATA_LENGTH>,
    pub sender: u32,
    pub status: u8,
}

impl VariableLengthTelegram {
    /// Whether `bytes` is long enough to hold at least one data byte, the sender and the status,
    /// and short enough for the data to fit.
    pub open spec fn accepts(bytes: Seq<u8>) -> bool {
        6 <= bytes.len() <= 5 + MAXIMUM_VLD_DATA_LENGTH
    }

    /// Whether this telegram is the one stored in `bytes`: the data, then the sender
    /// (big-endian), then the status byte.
    pub open spec fn decoded_from(self, bytes: Seq<u8>) -> bool {
        &&& Self::accepts(bytes)
        &&& self.data@ == bytes.subrange(0, bytes.len() - 5)
        &&& self.sender == wire::be_u32_at(bytes, bytes.len() - 5)
        &&& self.status == bytes[bytes.len() - 1]
    }

    /// Attempts to assemble this telegram from the given slice.
    pub fn from_slice(bytes: &[u8]) -> (ret: Option<Self>)
        ensures
            ret is Some <==> Self::accepts(bytes@),
            ret matches Some(t) ==> t.decoded_from(bytes@),
    {
        if bytes.len() < 6 || bytes.len() > 5 + MAXIMUM_VLD_DATA_LENGTH {
            return None;
        }
        let n = bytes.len();
        Some(
            VariableLengthTelegram {
                data: MaxArray::from_iter_or_panic(&bytes[0..n - 5]),
                sender: read_u32_be(bytes, n - 5),
                status: bytes[n - 1],
            },
        )
    }
}

impl ErpStatusByte for VariableLengthTelegram {
    open spec fn status_spec(&self) -> u8 {
        self.status
    }

    fn status_byte(&self) -> (ret: u8) {
        self.status
    }
}

/// Data of a signal telegram.
#[derive(Clone, Debug, PartialEq, Eq, Hash, PartialOrd, Ord)]
pub enum SignalData {
    SmartAckMailboxEmpty,
    SmartAckMailboxDoesNotExist,
    SmartAckReset,
    TriggerStatusMessage(StatusType),
    LastUnicastAcknowledge,
    EnergyPercentage(u8),
    Revision {
        software_version: u32,
        hardware_version: u32,
    },
    Heartbeat,
    RxWindowOpen,
    RxChannelQuality {
        request_sender: u32,
        worst_dbm: i8,
        best_dbm: i8,
        subtelegram_count: u8,
        max_repeater_level: u8,
    },
    DutyCycleAvailable(OneByteBoolean),
    ConfigChanged,
    HarvesterEnergyQuality(HarvesterEnergyQuality),
    TxOff,
    TxOn,
    BackupBatteryStatus(BackupBatteryStatus),
    LearnModeStatus {
        link_table_full: bool,
        teach_request_message_reception_enabled: bool,
        learn_mode_type: LearnModeType,
        teach_result: TeachResult,
        remaining_timeout_10s: u8,
        device_id: u32,
        device_eep: [u8; 3],
    },
    ProductId {
        manufacturer_id: u16,
        product_reference: u32,
    },
    Other {
        code: u8,
        data: MaxArray<u8, MAXIMUM_SIG_DATA_LENGTH>,
    },
}

/// The negation of a byte read as a signed value, for a byte other than 0x80 (whose negation
/// does not fit).
pub open spec fn negated_i8(b: u8) -> i8 {
    (-(b as i8)) as i8
}

impl SignalData {
    /// Whether a variant of this type (other than `Other`) has the given message ID.
    pub open spec fn is_known_id(id: u8) -> bool {
        1 <= id <= 0x12
    }

    /// Whether signal data of the given length decodes for the given message ID.
    pub open spec fn accepts(id: u8, len: nat) -> bool {
        if id == 0x04 || id == 0x06 || id == 0x0B || id == 0x0D || id == 0x10 {
            len == 1
        } else if id == 0x07 {
            len == 8
        } else if id == 0x0A {
            len == 7
        } else if id == 0x11 {
            len == 9
        } else if id == 0x12 {
            len == 6
        } else if Self::is_known_id(id) {
            true
        } else {
            len <= MAXIMUM_SIG_DATA_LENGTH
        }
    }

    /// Whether decoding does not negate a byte whose negation does not fit: the two dBm bytes
    /// of a channel quality message may not be 0x80.
    pub open spec fn negations_fit(id: u8, data: Seq<u8>) -> bool {
        (id == 0x0A && data.len() == 7) ==> (data[4] != 0x80 && data[5] != 0x80)
    }

    /// Whether this value is what the given message ID and signal data decode to.
    pub open spec fn decoded_from(self, id: u8, data: Seq<u8>) -> bool {
        match self {
            SignalData::SmartAckMailboxEmpty => id == 0x01,
            SignalData::SmartAckMailboxDoesNotExist => id == 0x02,
            SignalData::SmartAckReset => id == 0x03,
            SignalData::TriggerStatusMessage(s) => id == 0x04 && data.len() == 1
                && s == StatusType::from_byte_spec(data[0]),
            SignalData::LastUnicastAcknowledge => id == 0x05,
            SignalData::EnergyPercentage(p) => id == 0x06 && data.len() == 1 && p == data[0],
            SignalData::Revision { software_version, hardware_version } => {
                &&& id == 0x07
                &&& data.len() == 8
                &&& software_version == wire::be_u32_at(data, 0)
                &&& hardware_version == wire::be_u32_at(data, 4)
            },
            SignalData::Heartbeat => id == 0x08,
            SignalData::RxWindowOpen => id == 0x09,
            SignalData::RxChannelQuality {
                request_sender,
                worst_dbm,
                best_dbm,
                subtelegram_count,
                max_repeater_level,
            } => {
                &&& id == 0x0A
                &&& data.len() == 7
                &&& request_sender == wire::be_u32_at(data, 0)
                &&& worst_dbm == negated_i8(data[4])
                &&& best_dbm == negated_i8(data[5])
                &&& subtelegram_count == data[6] >> 4u8
                &&& max_repeater_level == data[6] & 0xF
            },
            SignalData::DutyCycleAvailable(b) => id == 0x0B && data.len() == 1
                && b == OneByteBoolean::from_byte_spec(data[0]),
            SignalData::ConfigChanged => id == 0x0C,
            SignalData::HarvesterEnergyQuality(q) => id == 0x0D && data.len() == 1
                && q == HarvesterEnergyQuality::from_byte_spec(data[0]),
            SignalData::TxOff => id == 0x0E,
            SignalData::TxOn => id == 0x0F,
            SignalData::BackupBatteryStatus(s) => id == 0x10 && data.len() == 1
                && s == BackupBatteryStatus::from_byte_spec(data[0]),
            SignalData::LearnModeStatus {
                link_table_full,
                teach_request_message_reception_enabled,
                learn_mode_type,
                teach_result,
                remaining_timeout_10s,
                device_id,
                device_eep,
            } => {
                &&& id == 0x11
                &&& data.len() == 9
                &&& link_table_full == (data[0] & 0x80 != 0)
                &&& teach_request_message_reception_enabled == (data[0] & 0x40 != 0)
                &&& learn_mode_type == LearnModeType::from_byte_spec((data[0] & 0x30) >> 4u8)
                &&& teach_result == TeachResult::from_byte_spec(data[0] & 0x0F)
                &&& remaining_timeout_10s == data[1]
                &&& device_id == wire::be_u32_at(data, 2)
                &&& device_eep@ == data.subrange(6, 9)
            },
            SignalData::ProductId { manufacturer_id, product_reference } => {
                &&& id == 0x12
                &&& data.len() == 6
                &&& manufacturer_id == wire::be_u16_at(data, 0)
                &&& product_reference == wire::be_u32_at(data, 2)
            },
            SignalData::Other { code, data: d } => {
                &&& code == id
                &&& !Self::is_known_id(id)
                &&& d@ == data
            },
        }
    }

    /// Assembles signal data from a message ID and a slice of signal data.
    #[verifier::rlimit(30)]
    pub fn from_id_and_slice(message_id: u8, signal_data: &[u8]) -> (ret: Option<Self>)
        requires
            Self::negations_fit(message_id, signal_data@),
        ensures
            ret is Some <==> Self::accepts(message_id, signal_data@.len()),
            ret matches Some(d) ==> d.decoded_from(message_id, signal_data@),
    {
        match message_id {
            0x01 => Some(SignalData::SmartAckMailboxEmpty),
            0x02 => Some(SignalData::SmartAckMailboxDoesNotExist),
            0x03 => Some(SignalData::SmartAckReset),
            0x04 => {
                if signal_data.len() != 1 {
                    None
                } else {
                    Some(SignalData::TriggerStatusMessage(StatusType::from(signal_data[0])))
                }
            },
            0x05 => Some(SignalData::LastUnicastAcknowledge),
            0x06 => {
                if signal_data.len() != 1 {
                    None
                } else {
                    Some(SignalData::EnergyPercentage(signal_data[0]))
                }
            },
            0x07 => {
                if signal_data.len() != 8 {
                    None
                } else {
                    Some(
                        SignalData::Revision {
                            software_version: read_u32_be(signal_data, 0),
                            hardware_version: read_u32_be(signal_data, 4),
                        },
                    )
                }
            },
            0x08 => Some(SignalData::Heartbeat),
            0x09 => Some(SignalData::RxWindowOpen),
            0x0A => {
                if signal_data.len() != 7 {
                    None
                } else {
                    let request_sender = read_u32_be(signal_data, 0);
                    let b4 = signal_data[4];
                    let b5 = signal_data[5];
                    let worst = b4 as i8;
                    let best = b5 as i8;
                    proof {
                        assert(b4 != 0x80u8 && b5 != 0x80u8);
                        assert(worst != -128i8 && best != -128i8) by (bit_vector)
                            requires
                                worst == b4 as i8,
                                best == b5 as i8,
                                b4 != 0x80u8,
                                b5 != 0x80u8,
                        ;
                    }
                    let worst_dbm = -worst;
                    let best_dbm = -best;
                    let subtelegram_count = signal_data[6] >> 4u8;
                    let max_repeater_level = signal_data[6] & 0xF;
                    Some(
                        SignalData::RxChannelQuality {
                            request_sender,
                            worst_dbm,
                            best_dbm,
                            subtelegram_count,
                            max_repeater_level,
                        },
                    )
                }
            },
            0x0B => {
                if signal_data.len() != 1 {
                    None
                } else {
                    Some(SignalData::DutyCycleAvailable(OneByteBoolean::from(signal_data[0])))
                }
            },
            0x0C => Some(SignalData::ConfigChanged),
            0x0D => {
                if signal_data.len() != 1 {
                    None
                } else {
                    Some(SignalData::HarvesterEnergyQuality(HarvesterEnergyQuality::from(signal_data[0])))
                }
            },
            0x0E => Some(SignalData::TxOff),
            0x0F => Some(SignalData::TxOn),
            0x10 => {
                if signal_data.len() != 1 {
                    None
                } else {
                    Some(SignalData::BackupBatteryStatus(BackupBatteryStatus::from(signal_data[0])))
                }
            },
            0x11 => {
                if signal_data.len() != 9 {
                    None
                } else {
                    let b = signal_data[0];
                    let link_table_full = (b & 0x80) != 0;
                    let teach_request_message_reception_enabled = (b & 0x40) != 0;
                    let learn_mode_type = LearnModeType::from((b & 0x30) >> 4u8);
                    let teach_result = TeachResult::from(b & 0x0F);
                    let remaining_timeout_10s = signal_data[1];
                    let device_id = read_u32_be(signal_data, 2);
                    let device_eep = [signal_data[6], signal_data[7], signal_data[8]];
                    assert(device_eep@ =~= signal_data@.subrange(6, 9));
                    Some(
                        SignalData::LearnModeStatus {
                            link_table_full,
                            teach_request_message_reception_enabled,
                            learn_mode_type,
                            teach_result,
                            remaining_timeout_10s,
                            device_id,
                            device_eep,
                        },
                    )
                }
            },
            0x12 => {
                if signal_data.len() != 6 {
                    None
                } else {
                    let manufacturer_id = read_u16_be(signal_data, 0);
                    let product_reference = read_u32_be(signal_data, 2);
                    Some(SignalData::ProductId { manufacturer_id, product_reference })
                }
            },
            other => {
                if signal_data.len() > MAXIMUM_SIG_DATA_LENGTH {
                    None
                } else {
                    let data = MaxArray::from_iter_or_panic(signal_data);
                    Some(SignalData::Other { code: other, data })
                }
            },
        }
    }
}

/// Signal telegram (SIG, 0xD0)
#[derive(Clone, Debug, PartialEq, Eq, Hash, PartialOrd, Ord)]
pub struct SignalTelegram {
    pub data: SignalData,
    pub sender: u32,
    pub status: u8,
}

impl SignalTelegram {
    /// The signal data bytes of a telegram: everything between the message ID and the sender.
    pub open spec fn signal_bytes(bytes: Seq<u8>) -> Seq<u8> {
        bytes.subrange(1, bytes.len() - 5)
    }

    /// Whether `bytes` holds a signal telegram: the message ID, signal data that decodes for it,
    /// the sender and the status byte.
    pub open spec fn accepts(bytes: Seq<u8>) -> bool {
        &&& 6 <= bytes.len() <= 6 + MAXIMUM_SIG_DATA_LENGTH
        &&& SignalData::accepts(bytes[0], (bytes.len() - 6) as nat)
    }

    /// Whether this telegram is the one stored in `bytes`.
    pub open spec fn decoded_from(self, bytes: Seq<u8>) -> bool {
        &&& Self::accepts(bytes)
        &&& self.data.decoded_from(bytes[0], Self::signal_bytes(bytes))
        &&& self.sender == wire::be_u32_at(bytes, bytes.len() - 5)
        &&& self.status == bytes[bytes.len() - 1]
    }

    /// Attempts to assemble this telegram from the given slice.
    pub fn from_slice(bytes: &[u8]) -> (ret: Option<Self>)
        requires
            6 <= bytes@.len() ==> SignalData::negations_fit(bytes@[0], Self::signal_bytes(bytes@)),
        ensures
            ret is Some <==> Self::accepts(bytes@),
            ret matches Some(t) ==> t.decoded_from(bytes@),
    {
        if bytes.len() < 6 || bytes.len() > 6 + MAXIMUM_SIG_DATA_LENGTH {
            return None;
        }
        let n = bytes.len();
        let message_id = bytes[0];
        let signal_data = match SignalData::from_id_and_slice(message_id, &bytes[1..n - 5]) {
            Some(d) => d,
            None => return None,
        };
        let sender = read_u32_be(bytes, n - 5);
        let status = bytes[n - 1];
        Some(SignalTelegram { data: signal_data, sender, status })
    }
}

impl ErpStatusByte for SignalTelegram {
    open spec fn status_spec(&self) -> u8 {
        self.status
    }

    fn status_byte(&self) -> (ret: u8) {
        self.status
    }
}

/// A Universal Teach-In (UTE) request.
#[derive(Clone, Copy, Debug, PartialEq, Eq, Structural, Hash, PartialOrd, Ord)]
pub struct UteRequest {
    pub bidirectional_eep: bool,
    pub expects_teach_in_response: bool,
    pub request_type: UteRequestType,
    pub teach_in_channel: u8,
    pub manufacturer: u16,
    pub eep_type: u8,
    pub eep_func: u8,
    pub eep_rorg: u8,
}

/// The manufacturer ID stored little-endian at `data[1..3]` of a teach-in message.
pub open spec fn ute_manufacturer(data: Seq<u8>) -> u16 {
    ((data[2] as u16) << 8u16) | (data[1] as u16)
}

impl UteRequest {
    /// The request that the given header values and six data bytes describe.
    pub open spec fn parse_spec(
        bidirectional_eep: bool,
        expects_teach_in_response: bool,
        status: u8,
        data: Seq<u8>,
    ) -> Option<Self> {
        if data.len() == 6 {
            Some(
                UteRequest {
                    bidirectional_eep,
                    expects_teach_in_response,
                    request_type: UteRequestType::from_byte_spec(status),
                    teach_in_channel: data[0],
                    manufacturer: ute_manufacturer(data),
                    eep_type: data[3],
                    eep_func: data[4],
                    eep_rorg: data[5],
                },
            )
        } else {
            None
        }
    }

    /// Assembles a request from the decoded header values and the six data bytes.
    pub fn from_ute_data(
        bidirectional_eep: bool,
        expects_teach_in_response: bool,
        status: u8,
        data: &[u8],
    ) -> (ret: Option<Self>)
        ensures
            ret == Self::parse_spec(bidirectional_eep, expects_teach_in_response, status, data@),
    {
        if data.len() != 6 {
            return None;
        }
        let manufacturer = ((data[2] as u16) << 8u16) | (data[1] as u16);
        Some(
            UteRequest {
                bidirectional_eep,
                expects_teach_in_response,
                request_type: UteRequestType::from(status),
                teach_in_channel: data[0],
                manufacturer,
                eep_type: data[3],
                eep_func: data[4],
                eep_rorg: data[5],
            },
        )
    }
}

/// A Universal Teach-In (UTE) response.
#[derive(Clone, Copy, Debug, PartialEq, Eq, Structural, Hash, PartialOrd, Ord)]
pub struct UteResponse {
    pub bidirectional_eep: bool,
    pub response_type: UteResponseType,
    pub teach_in_channel: u8,
    pub manufacturer: u16,
    pub eep_type: u8,
    pub eep_func: u8,
    pub eep_rorg: u8,
}

impl UteResponse {
    /// The response that the given header values and six data bytes describe (a response does
    /// not carry the flag that asks for a response).
    pub open spec fn parse_spec(bidirectional_eep: bool, status: u8, data: Seq<u8>) -> Option<Self> {
        if data.len() == 6 {
            Some(
                UteResponse {
                    bidirectional_eep,
                    response_type: UteResponseType::from_byte_spec(status),
                    teach_in_channel: data[0],
                    manufacturer: ute_manufacturer(data),
                    eep_type: data[3],
                    eep_func: data[4],
                    eep_rorg: data[5],
                },
            )
        } else {
            None
        }
    }

    /// Assembles a response from the decoded header values and the six data bytes.
    pub fn from_ute_data(
        bidirectional_eep: bool,
        expects_teach_in_response: bool,
        status: u8,
        data: &[u8],
    ) -> (ret: Option<Self>)
        ensures
            ret == Self::parse_spec(bidirectional_eep, status, data@),
    {
        if data.len() != 6 {
            return None;
        }
        let manufacturer = ((data[2] as u16) << 8u16) | (data[1] as u16);
        Some(
            UteResponse {
                bidirectional_eep,
                response_type: UteResponseType::from(status),
                teach_in_channel: data[0],
                manufacturer,
                eep_type: data[3],
                eep_func: data[4],
                eep_rorg: data[5],
            },
        )
    }
}

/// Data in a Universal Teach-In (UTE) telegram.
#[derive(Clone, Copy, Debug, PartialEq, Eq, Hash, PartialOrd, Ord)]
pub enum UteData {
    Request(UteRequest),
    Response(UteResponse),
    Other {
        bidirectional_eep: bool,
        expects_teach_in_response: bool,
        status: u8,
        command: u8,
        data: [u8; 6],
    },
}

impl UteData {
    /// Whether this is the teach-in data stored in the seven bytes: the flags, status and command
    /// in the first byte, then six bytes that the command gives a meaning to.
    pub open spec fn decoded_from(self, bytes: Seq<u8>) -> bool {
        let bidi = bytes[0] & 0x80 != 0;
        let expects = bytes[0] & 0x40 != 0;
        let status = (bytes[0] & 0x30) >> 4u8;
        let command = bytes[0] & 0x0F;
        let rest = bytes.subrange(1, 7);
        &&& bytes.len() == 7
        &&& match self {
            UteData::Request(r) => command == 0 && Some(r) == UteRequest::parse_spec(bidi, expects, status, rest),
            UteData::Response(r) => command == 1 && Some(r) == UteResponse::parse_spec(bidi, status, rest),
            UteData::Other { bidirectional_eep, expects_teach_in_response, status: s, command: c, data } => {
                &&& command != 0
                &&& command != 1
                &&& bidirectional_eep == bidi
                &&& expects_teach_in_response == expects
                &&& s == status
                &&& c == command
                &&& data@ == rest
            },
        }
    }

    /// Decodes teach-in data from exactly seven bytes.
    pub fn from_slice(bytes: &[u8]) -> (ret: Option<Self>)
        ensures
            ret is Some <==> bytes@.len() == 7,
            ret matches Some(d) ==> d.decoded_from(bytes@),
    {
        if bytes.len() != 7 {
            return None;
        }
        let b = bytes[0];
        let bidirectional_eep = (b & 0x80) != 0;
        let expects_teach_in_response = (b & 0x40) != 0;
        let status = (b & 0x30) >> 4u8;
        let command = b & 0x0F;
        let rest = &bytes[1..7];
        match command {
            0x00 => match UteRequest::from_ute_data(bidirectional_eep, expects_teach_in_response, status, rest) {
                Some(r) => Some(UteData::Request(r)),
                None => None,
            },
            0x01 => match UteResponse::from_ute_data(bidirectional_eep, expects_teach_in_response, status, rest) {
                Some(r) => Some(UteData::Response(r)),
                None => None,
            },
            other => {
                let data = [rest[0], rest[1], rest[2], rest[3], rest[4], rest[5]];
                assert(data@ =~= bytes@.subrange(1, 7));
                Some(
                    UteData::Other {
                        bidirectional_eep,
                        expects_teach_in_response,
                        status,
                        command: other,
                        data,
                    },
                )
            },
        }
    }
}

/// Universal Teach-In telegram (UTE, 0xD4)
///
/// Defined in _EnOcean Equipment Profiles_.
#[derive(Clone, Copy, Debug, PartialEq, Eq, Hash, PartialOrd, Ord)]
pub struct UniversalTeachInTelegram {
    pub data: UteData,
    pub sender: u32,
    pub status: u8,
}

impl UniversalTeachInTelegram {
    /// Whether this telegram is the one stored in the twelve bytes: seven bytes of teach-in data,
    /// the sender (big-endian) and the status byte.
    pub open spec fn decoded_from(self, bytes: Seq<u8>) -> bool {
        &&& bytes.len() == 12
        &&& self.data.decoded_from(bytes.subrange(0, 7))
        &&& self.sender == wire::be_u32_at(bytes, 7)
        &&& self.status == bytes[11]
    }

    /// Attempts to assemble this telegram from the given slice.
    pub fn from_slice(bytes: &[u8]) -> (ret: Option<Self>)
        ensures
            ret is Some <==> bytes@.len() == 12,
            ret matches Some(t) ==> t.decoded_from(bytes@),
    {
        if bytes.len() != 12 {
            return None;
        }
        let data = match UteData::from_slice(&bytes[0..7]) {
            Some(d) => d,
            None => return None,
        };
        Some(UniversalTeachInTelegram { data, sender: read_u32_be(bytes, 7), status: bytes[11] })
    }
}

impl ErpStatusByte for UniversalTeachInTelegram {
    open spec fn status_spec(&self) -> u8 {
        self.status
    }

    fn status_byte(&self) -> (ret: u8) {
        self.status
    }
}

/// EnOcean Radio Protocol data in an ESP3 packet.
#[derive(Clone, Debug, PartialEq, Eq, Hash, PartialOrd, Ord)]
pub enum ErpData {
    /// RPS (0xF6)
    RepeatedSwitch(RepeatedSwitchTelegram),
    /// 1BS (0xD5)
    OneByte(OneByteTelegram),
    /// 4BS (0xA5)
    FourByte(FourByteTelegram),
    /// VLD (0xD2)
    VariableLength(VariableLengthTelegram),
    /// SIGNAL (0xD0)
    Signal(SignalTelegram),
    /// UTE (0xD4)
    UniversalTeachIn(UniversalTeachInTelegram),
    /// Another type of telegram.
    Other { rorg: u8, data: MaxArray<u8, DATA_AFTER_CODE_LENGTH> },
}

impl ErpData {
    /// The RORG value of this telegram.
    pub open spec fn rorg_spec(self) -> u8 {
        match self {
            ErpData::RepeatedSwitch(_) => 0xF6,
            ErpData::OneByte(_) => 0xD5,
            ErpData::FourByte(_) => 0xA5,
            ErpData::VariableLength(_) => 0xD2,
            ErpData::Signal(_) => 0xD0,
            ErpData::UniversalTeachIn(_) => 0xD4,
            ErpData::Other { rorg, .. } => rorg,
        }
    }

    /// Whether a variant of this type (other than `Other`) has the given RORG value.
    pub open spec fn is_known_rorg(rorg: u8) -> bool {
        rorg == 0xF6 || rorg == 0xD5 || rorg == 0xA5 || rorg == 0xD2 || rorg == 0xD0 || rorg == 0xD4
    }

    /// Whether the telegram data decodes for the given RORG value.
    pub open spec fn accepts(rorg: u8, data: Seq<u8>) -> bool {
        if rorg == 0xF6 || rorg == 0xD5 {
            data.len() == 6
        } else if rorg == 0xA5 {
            data.len() == 9
        } else if rorg == 0xD2 {
            VariableLengthTelegram::accepts(data)
        } else if rorg == 0xD0 {
            SignalTelegram::accepts(data)
        } else if rorg == 0xD4 {
            data.len() == 12
        } else {
            true
        }
    }

    /// Whether decoding the telegram data fits: unknown telegrams must fit the data array, and
    /// the dBm bytes of a signal telegram may not be 0x80.
    pub open spec fn decodable(rorg: u8, data: Seq<u8>) -> bool {
        &&& !Self::is_known_rorg(rorg) ==> data.len() <= DATA_AFTER_CODE_LENGTH
        &&& (rorg == 0xD0 && 6 <= data.len()) ==> SignalData::negations_fit(
            data[0],
            SignalTelegram::signal_bytes(data),
        )
    }

    /// Whether this is the telegram that the RORG value and the telegram data decode to.
    pub open spec fn decoded_from(self, rorg: u8, data: Seq<u8>) -> bool {
        match self {
            ErpData::RepeatedSwitch(t) => rorg == 0xF6 && RepeatedSwitchTelegram::parse_spec(data) == Some(t),
            ErpData::OneByte(t) => rorg == 0xD5 && OneByteTelegram::parse_spec(data) == Some(t),
            ErpData::FourByte(t) => rorg == 0xA5 && FourByteTelegram::parse_spec(data) == Some(t),
            ErpData::VariableLength(t) => rorg == 0xD2 && t.decoded_from(data),
            ErpData::Signal(t) => rorg == 0xD0 && t.decoded_from(data),
            ErpData::UniversalTeachIn(t) => rorg == 0xD4 && t.decoded_from(data),
            ErpData::Other { rorg: r, data: d } => r == rorg && !Self::is_known_rorg(rorg) && d@ == data,
        }
    }

    /// Returns the RORG value for this ERP telegram.
    pub fn rorg_value(&self) -> (ret: u8)
        ensures
            ret == self.rorg_spec(),
    {
        match self {
            ErpData::RepeatedSwitch(_) => 0xF6,
            ErpData::OneByte(_) => 0xD5,
            ErpData::FourByte(_) => 0xA5,
            ErpData::VariableLength(_) => 0xD2,
            ErpData::Signal(_) => 0xD0,
            ErpData::UniversalTeachIn(_) => 0xD4,
            ErpData::Other { rorg, .. } => *rorg,
        }
    }

    /// Whether [ErpData::from_slice] may be called on the given bytes: the telegram data of an
    /// unknown telegram fits the data array, and no dBm byte of a channel quality signal is 0x80.
    pub fn slice_decodable(bytes: &[u8]) -> (ret: bool)
        ensures
            ret == (bytes@.len() >= 1 ==> Self::decodable(bytes@[0], bytes@.drop_first())),
    {
        if bytes.len() < 1 {
            return true;
        }
        let rorg = bytes[0];
        let data_len = bytes.len() - 1;
        let known = rorg == 0xF6 || rorg == 0xD5 || rorg == 0xA5 || rorg == 0xD2 || rorg == 0xD0 || rorg == 0xD4;
        if !known && data_len > DATA_AFTER_CODE_LENGTH {
            return false;
        }
        if rorg == 0xD0 && data_len >= 6 && bytes[1] == 0x0A && data_len - 6 == 7 {
            proof {
                let data = bytes@.drop_first();
                let signal = SignalTelegram::signal_bytes(data);
                assert(signal[4] == bytes@[6] && signal[5] == bytes@[7]);
            }
            if bytes[6] == 0x80 || bytes[7] == 0x80 {
                return false;
            }
        }
        true
    }

    /// Decodes a telegram whose first byte is the RORG value.
    pub fn from_slice(bytes: &[u8]) -> (ret: Option<Self>)
        requires
            bytes@.len() >= 1 ==> Self::decodable(bytes@[0], bytes@.drop_first()),
        ensures
            ret is Some <==> bytes@.len() >= 1 && Self::accepts(bytes@[0], bytes@.drop_first()),
            ret matches Some(d) ==> d.decoded_from(bytes@[0], bytes@.drop_first()),
    {
        if bytes.len() < 1 {
            None
        } else {
            Self::from_rorg_and_data(bytes[0], &bytes[1..bytes.len()])
        }
    }

    /// Decodes a telegram from its RORG value and its data.
    pub fn from_rorg_and_data(rorg: u8, data_bytes: &[u8]) -> (ret: Option<Self>)
        requires
            Self::decodable(rorg, data_bytes@),
        ensures
            ret is Some <==> Self::accepts(rorg, data_bytes@),
            ret matches Some(d) ==> d.decoded_from(rorg, data_bytes@),
    {
        match rorg {
            0xF6 => match RepeatedSwitchTelegram::from_slice(data_bytes) {
                Some(t) => Some(ErpData::RepeatedSwitch(t)),
                None => None,
            },
            0xD5 => match OneByteTelegram::from_slice(data_bytes) {
                Some(t) => Some(ErpData::OneByte(t)),
                None => None,
            },
            0xA5 => match FourByteTelegram::from_slice(data_bytes) {
                Some(t) => Some(ErpData::FourByte(t)),
                None => None,
            },
            0xD2 => match VariableLengthTelegram::from_slice(data_bytes) {
                Some(t) => Some(ErpData::VariableLength(t)),
                None => None,
            },
            0xD0 => match SignalTelegram::from_slice(data_bytes) {
                Some(t) => Some(ErpData::Signal(t)),
                None => None,
            },
            0xD4 => match UniversalTeachInTelegram::from_slice(data_bytes) {
                Some(t) => Some(ErpData::UniversalTeachIn(t)),
                None => None,
            },
            other => Some(ErpData::Other { rorg: other, data: MaxArray::from_iter_or_panic(data_bytes) }),
        }
    }
}

/// A repeated-switch telegram is its data byte, then its sender in big-endian order, then its
/// status byte: reading those six bytes gives back the telegram, and a telegram read from six
/// bytes lays out as them.
pub proof fn lemma_repeated_switch_layout(t: RepeatedSwitchTelegram, bytes: Seq<u8>)
    ensures
        RepeatedSwitchTelegram::parse_spec(seq![t.data] + be_u32_bytes(t.sender) + seq![t.status]) == Some(t),
        RepeatedSwitchTelegram::parse_spec(bytes) matches Some(p) ==> seq![p.data] + be_u32_bytes(p.sender) + seq![p.status] == bytes,
{
    let enc = seq![t.data] + be_u32_bytes(t.sender) + seq![t.status];
    wire::lemma_u32_roundtrip(t.sender);
    assert(enc.subrange(1, 5) =~= be_u32_bytes(t.sender));
    if let Some(p) = RepeatedSwitchTelegram::parse_spec(bytes) {
        assert(bytes.len() == 6);
        wire::lemma_u32_bytes_of(bytes.subrange(1, 5));
        assert(seq![p.data] + be_u32_bytes(p.sender) + seq![p.status] =~= bytes);
    }
}

/// A one-byte telegram is its data byte, then its sender in big-endian order, then its status
/// byte: reading those six bytes gives back the telegram, and a telegram read from six bytes
/// lays out as them.
pub proof fn lemma_one_byte_layout(t: OneByteTelegram, bytes: Seq<u8>)
    ensures
        OneByteTelegram::parse_spec(seq![t.data] + be_u32_bytes(t.sender) + seq![t.status]) == Some(t),
        OneByteTelegram::parse_spec(bytes) matches Some(p) ==> seq![p.data] + be_u32_bytes(p.sender) + seq![p.status] == bytes,
{
    let enc = seq![t.data] + be_u32_bytes(t.sender) + seq![t.status];
    wire::lemma_u32_roundtrip(t.sender);
    assert(enc.subrange(1, 5) =~= be_u32_bytes(t.sender));
    if let Some(p) = OneByteTelegram::parse_spec(bytes) {
        assert(bytes.len() == 6);
        wire::lemma_u32_bytes_of(bytes.subrange(1, 5));
        assert(seq![p.data] + be_u32_bytes(p.sender) + seq![p.status] =~= bytes);
    }
}

/// A four-byte telegram is its data and then its sender, both in big-endian order, then its
/// status byte: reading those nine bytes gives back the telegram, and a telegram read from nine
/// bytes lays out as them.
pub proof fn lemma_four_byte_layout(t: FourByteTelegram, bytes: Seq<u8>)
    ensures
        FourByteTelegram::parse_spec(be_u32_bytes(t.data) + be_u32_bytes(t.sender) + seq![t.status]) == Some(t),
        FourByteTelegram::parse_spec(bytes) matches Some(p) ==> be_u32_bytes(p.data) + be_u32_bytes(p.sender) + seq![p.status] == bytes,
{
    let enc = be_u32_bytes(t.data) + be_u32_bytes(t.sender) + seq![t.status];
    wire::lemma_u32_roundtrip(t.data);
    wire::lemma_u32_roundtrip(t.sender);
    assert(enc.subrange(0, 4) =~= be_u32_bytes(t.data));
    assert(enc.subrange(4, 8) =~= be_u32_bytes(t.sender));
    if let Some(p) = FourByteTelegram::parse_spec(bytes) {
        assert(bytes.len() == 9);
        wire::lemma_u32_bytes_of(bytes.subrange(0, 4));
        wire::lemma_u32_bytes_of(bytes.subrange(4, 8));
        assert(be_u32_bytes(p.data) + be_u32_bytes(p.sender) + seq![p.status] =~= bytes);
    }
}

/// A variable-length telegram is its data, then its sender in big-endian order, then its
/// status byte: a telegram with one to the maximum number of data bytes is what those bytes
/// decode to, and a decoded telegram lays out as the bytes it came from.
pub proof fn lemma_variable_length_layout(t: VariableLengthTelegram, bytes: Seq<u8>)
    ensures
        1 <= t.data@.len() <= MAXIMUM_VLD_DATA_LENGTH ==> t.decoded_from(
            t.data@ + be_u32_bytes(t.sender) + seq![t.status],
        ),
        t.decoded_from(bytes) ==> t.data@ + be_u32_bytes(t.sender) + seq![t.status] == bytes,
{
    let enc = t.data@ + be_u32_bytes(t.sender) + seq![t.status];
    let n: int = t.data@.len() as int;
    wire::lemma_u32_roundtrip(t.sender);
    assert(enc.subrange(0, n) =~= t.data@);
    assert(enc.subrange(n, n + 4) =~= be_u32_bytes(t.sender));
    if t.decoded_from(bytes) {
        let m = bytes.len() - 5;
        wire::lemma_u32_bytes_of(bytes.subrange(m, m + 4));
        assert(t.data@ + be_u32_bytes(t.sender) + seq![t.status] =~= bytes);
    }
}

} // verus!
