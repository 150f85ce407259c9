//! Single-byte codes that appear in ESP3 packets.
//!
//! Each code type decodes every byte: values without a dedicated variant are kept in a catch-all
//! variant, so that encoding a decoded byte always gives back the same byte.

use vstd::prelude::*;

verus! {

/// An ESP3 security level value.
#[derive(Clone, Copy, Debug, PartialEq, Eq, Structural, Hash, PartialOrd, Ord)]
pub enum SecurityLevel {
    NoSecurity,
    Obsolete,
    Crypted,
    Authenticated,
    CryptedAuthenticated,
    Other(u8),
}

impl SecurityLevel {
    /// The value decoded from a byte: the variant with that value, or `Other`.
    pub open spec fn from_byte_spec(value: u8) -> Self {
        if value == 0x0 {
            SecurityLevel::NoSecurity
        } else if value == 0x1 {
            SecurityLevel::Obsolete
        } else if value == 0x2 {
            SecurityLevel::Crypted
        } else if value == 0x3 {
            SecurityLevel::Authenticated
        } else if value == 0x4 {
            SecurityLevel::CryptedAuthenticated
        } else {
            SecurityLevel::Other(value)
        }
    }

    /// The byte that encodes this value.
    pub open spec fn to_byte_spec(self) -> u8 {
        match self {
            SecurityLevel::NoSecurity => 0x0,
            SecurityLevel::Obsolete => 0x1,
            SecurityLevel::Crypted => 0x2,
            SecurityLevel::Authenticated => 0x3,
            SecurityLevel::CryptedAuthenticated => 0x4,
            SecurityLevel::Other(value) => value,
        }
    }

    /// Decoding a byte and encoding the result gives back the byte.
    pub proof fn lemma_byte_roundtrip(value: u8)
        ensures
            Self::from_byte_spec(value).to_byte_spec() == value,
    {
    }
}

impl From<u8> for SecurityLevel {
    fn from(value: u8) -> (ret: Self)
        ensures
            ret == SecurityLevel::from_byte_spec(value),
    {
        match value {
            0x0 => SecurityLevel::NoSecurity,
            0x1 => SecurityLevel::Obsolete,
            0x2 => SecurityLevel::Crypted,
            0x3 => SecurityLevel::Authenticated,
            0x4 => SecurityLevel::CryptedAuthenticated,
            other => SecurityLevel::Other(other),
        }
    }
}

impl vstd::std_specs::convert::FromSpecImpl<u8> for SecurityLevel {
    open spec fn obeys_from_spec() -> bool {
        true
    }

    open spec fn from_spec(v: u8) -> SecurityLevel {
        SecurityLevel::from_byte_spec(v)
    }
}

impl From<SecurityLevel> for u8 {
    fn from(value: SecurityLevel) -> (ret: u8)
        ensures
            ret == value.to_byte_spec(),
    {
        match value {
            SecurityLevel::NoSecurity => 0x0,
            SecurityLevel::Obsolete => 0x1,
            SecurityLevel::Crypted => 0x2,
            SecurityLevel::Authenticated => 0x3,
            SecurityLevel::CryptedAuthenticated => 0x4,
            SecurityLevel::Other(other) => other,
        }
    }
}

impl vstd::std_specs::convert::FromSpecImpl<SecurityLevel> for u8 {
    open spec fn obeys_from_spec() -> bool {
        true
    }

    open spec fn from_spec(v: SecurityLevel) -> u8 {
        v.to_byte_spec()
    }
}

/// The type of response.
#[derive(Clone, Copy, Debug, PartialEq, Eq, Structural, Hash, PartialOrd, Ord)]
pub enum ReturnCode {
    Okay,
    Error,
    NotSupported,
    WrongParam,
    OperationDenied,
    LockSet,
    BufferTooSmall,
    NoFreeBuffer,
    MemoryError,
    BaseIdOutOfRange,
    BaseIdMaxReached,
    Other(u8),
}

impl ReturnCode {
    /// The value decoded from a byte: the variant with that value, or `Other`.
    pub open spec fn from_byte_spec(value: u8) -> Self {
        if value == 0x00 {
            ReturnCode::Okay
        } else if value == 0x01 {
            ReturnCode::Error
        } else if value == 0x02 {
            ReturnCode::NotSupported
        } else if value == 0x03 {
            ReturnCode::WrongParam
        } else if value == 0x04 {
            ReturnCode::OperationDenied
        } else if value == 0x05 {
            ReturnCode::LockSet
        } else if value == 0x06 {
            ReturnCode::BufferTooSmall
        } else if value == 0x07 {
            ReturnCode::NoFreeBuffer
        } else if value == 0x82 {
            ReturnCode::MemoryError
        } else if value == 0x90 {
            ReturnCode::BaseIdOutOfRange
        } else if value == 0x91 {
            ReturnCode::BaseIdMaxReached
        } else {
            ReturnCode::Other(value)
        }
    }

    /// The byte that encodes this value.
    pub open spec fn to_byte_spec(self) -> u8 {
        match self {
            ReturnCode::Okay => 0x00,
            ReturnCode::Error => 0x01,
            ReturnCode::NotSupported => 0x02,
            ReturnCode::WrongParam => 0x03,
            ReturnCode::OperationDenied => 0x04,
            ReturnCode::LockSet => 0x05,
            ReturnCode::BufferTooSmall => 0x06,
            ReturnCode::NoFreeBuffer => 0x07,
            ReturnCode::MemoryError => 0x82,
            ReturnCode::BaseIdOutOfRange => 0x90,
            ReturnCode::BaseIdMaxReached => 0x91,
            ReturnCode::Other(value) => value,
        }
    }

    /// Decoding a byte and encoding the result gives back the byte.
    pub proof fn lemma_byte_roundtrip(value: u8)
        ensures
            Self::from_byte_spec(value).to_byte_spec() == value,
    {
    }
}

impl From<u8> for ReturnCode {
    fn from(value: u8) -> (ret: Self)
        ensures
            ret == ReturnCode::from_byte_spec(value),
    {
        match value {
            0x00 => ReturnCode::Okay,
            0x01 => ReturnCode::Error,
            0x02 => ReturnCode::NotSupported,
            0x03 => ReturnCode::WrongParam,
            0x04 => ReturnCode::OperationDenied,
            0x05 => ReturnCode::LockSet,
            0x06 => ReturnCode::BufferTooSmall,
            0x07 => ReturnCode::NoFreeBuffer,
            0x82 => ReturnCode::MemoryError,
            0x90 => ReturnCode::BaseIdOutOfRange,
            0x91 => ReturnCode::BaseIdMaxReached,
            other => ReturnCode::Other(other),
        }
    }
}

impl vstd::std_specs::convert::FromSpecImpl<u8> for ReturnCode {
    open spec fn obeys_from_spec() -> bool {
        true
    }

    open spec fn from_spec(v: u8) -> ReturnCode {
        ReturnCode::from_byte_spec(v)
    }
}

impl From<ReturnCode> for u8 {
    fn from(value: ReturnCode) -> (ret: u8)
        ensures
            ret == value.to_byte_spec(),
    {
        match value {
            ReturnCode::Okay => 0x00,
            ReturnCode::Error => 0x01,
            ReturnCode::NotSupported => 0x02,
            ReturnCode::WrongParam => 0x03,
            ReturnCode::OperationDenied => 0x04,
            ReturnCode::LockSet => 0x05,
            ReturnCode::BufferTooSmall => 0x06,
            ReturnCode::NoFreeBuffer => 0x07,
            ReturnCode::MemoryError => 0x82,
            ReturnCode::BaseIdOutOfRange => 0x90,
            ReturnCode::BaseIdMaxReached => 0x91,
            ReturnCode::Other(other) => other,
        }
    }
}

impl vstd::std_specs::convert::FromSpecImpl<ReturnCode> for u8 {
    open spec fn obeys_from_spec() -> bool {
        true
    }

    open spec fn from_spec(v: ReturnCode) -> u8 {
        v.to_byte_spec()
    }
}

/// A Smart Acknowledgement confirmation code.
#[derive(Clone, Copy, Debug, PartialEq, Eq, Structural, Hash, PartialOrd, Ord)]
pub enum SmartAckConfirmCode {
    LearnIn,
    DiscardEep,
    DiscardNoPlaceMb,
    DiscardNoPlaceSensor,
    DiscardRssi,
    LearnOut,
    Other(u8),
}

impl SmartAckConfirmCode {
    /// The value decoded from a byte: the variant with that value, or `Other`.
    pub open spec fn from_byte_spec(value: u8) -> Self {
        if value == 0x00 {
            SmartAckConfirmCode::LearnIn
        } else if value == 0x11 {
            SmartAckConfirmCode::DiscardEep
        } else if value == 0x12 {
            SmartAckConfirmCode::DiscardNoPlaceMb
        } else if value == 0x13 {
            SmartAckConfirmCode::DiscardNoPlaceSensor
        } else if value == 0x14 {
            SmartAckConfirmCode::DiscardRssi
        } else if value == 0x20 {
            SmartAckConfirmCode::LearnOut
        } else {
            SmartAckConfirmCode::Other(value)
        }
    }

    /// The byte that encodes this value.
    pub open spec fn to_byte_spec(self) -> u8 {
        match self {
            SmartAckConfirmCode::LearnIn => 0x00,
            SmartAckConfirmCode::DiscardEep => 0x11,
            SmartAckConfirmCode::DiscardNoPlaceMb => 0x12,
            SmartAckConfirmCode::DiscardNoPlaceSensor => 0x13,
            SmartAckConfirmCode::DiscardRssi => 0x14,
            SmartAckConfirmCode::LearnOut => 0x20,
            SmartAckConfirmCode::Other(value) => value,
        }
    }

    /// Decoding a byte and encoding the result gives back the byte.
    pub proof fn lemma_byte_roundtrip(value: u8)
        ensures
            Self::from_byte_spec(value).to_byte_spec() == value,
    {
    }
}

impl From<u8> for SmartAckConfirmCode {
    fn from(value: u8) -> (ret: Self)
        ensures
            ret == SmartAckConfirmCode::from_byte_spec(value),
    {
        match value {
            0x00 => SmartAckConfirmCode::LearnIn,
            0x11 => SmartAckConfirmCode::DiscardEep,
            0x12 => SmartAckConfirmCode::DiscardNoPlaceMb,
            0x13 => SmartAckConfirmCode::DiscardNoPlaceSensor,
            0x14 => SmartAckConfirmCode::DiscardRssi,
            0x20 => SmartAckConfirmCode::LearnOut,
            other => SmartAckConfirmCode::Other(other),
        }
    }
}

impl vstd::std_specs::convert::FromSpecImpl<u8> for SmartAckConfirmCode {
    open spec fn obeys_from_spec() -> bool {
        true
    }

    open spec fn from_spec(v: u8) -> SmartAckConfirmCode {
        SmartAckConfirmCode::from_byte_spec(v)
    }
}

impl From<SmartAckConfirmCode> for u8 {
    fn from(value: SmartAckConfirmCode) -> (ret: u8)
        ensures
            ret == value.to_byte_spec(),
    {
        match value {
            SmartAckConfirmCode::LearnIn => 0x00,
            SmartAckConfirmCode::DiscardEep => 0x11,
            SmartAckConfirmCode::DiscardNoPlaceMb => 0x12,
            SmartAckConfirmCode::DiscardNoPlaceSensor => 0x13,
            SmartAckConfirmCode::DiscardRssi => 0x14,
            SmartAckConfirmCode::LearnOut => 0x20,
            SmartAckConfirmCode::Other(other) => other,
        }
    }
}

impl vstd::std_specs::convert::FromSpecImpl<SmartAckConfirmCode> for u8 {
    open spec fn obeys_from_spec() -> bool {
        true
    }

    open spec fn from_spec(v: SmartAckConfirmCode) -> u8 {
        v.to_byte_spec()
    }
}

/// The reason for the EnOcean controller being activated.
#[derive(Clone, Copy, Debug, PartialEq, Eq, Structural, Hash, PartialOrd, Ord)]
pub enum WakeupCause {
    VoltageSupplyDrop,
    ResetPin,
    Watchdog,
    Flywheel,
    ParityError,
    HardwareParityError,
    PageFault,
    WakeUpPin0,
    WakeUpPin1,
    UnknownSource,
    Uart,
    Other(u8),
}

impl WakeupCause {
    /// The value decoded from a byte: the variant with that value, or `Other`.
    pub open spec fn from_byte_spec(value: u8) -> Self {
        if value == 0x00 {
            WakeupCause::VoltageSupplyDrop
        } else if value == 0x01 {
            WakeupCause::ResetPin
        } else if value == 0x02 {
            WakeupCause::Watchdog
        } else if value == 0x03 {
            WakeupCause::Flywheel
        } else if value == 0x04 {
            WakeupCause::ParityError
        } else if value == 0x05 {
            WakeupCause::HardwareParityError
        } else if value == 0x06 {
            WakeupCause::PageFault
        } else if value == 0x07 {
            WakeupCause::WakeUpPin0
        } else if value == 0x08 {
            WakeupCause::WakeUpPin1
        } else if value == 0x09 {
            WakeupCause::UnknownSource
        } else if value == 0x10 {
            WakeupCause::Uart
        } else {
            WakeupCause::Other(value)
        }
    }

    /// The byte that encodes this value.
    pub open spec fn to_byte_spec(self) -> u8 {
        match self {
            WakeupCause::VoltageSupplyDrop => 0x00,
            WakeupCause::ResetPin => 0x01,
            WakeupCause::Watchdog => 0x02,
            WakeupCause::Flywheel => 0x03,
            WakeupCause::ParityError => 0x04,
            WakeupCause::HardwareParityError => 0x05,
            WakeupCause::PageFault => 0x06,
            WakeupCause::WakeUpPin0 => 0x07,
            WakeupCause::WakeUpPin1 => 0x08,
            WakeupCause::UnknownSource => 0x09,
            WakeupCause::Uart => 0x10,
            WakeupCause::Other(value) => value,
        }
    }

    /// Decoding a byte and encoding the result gives back the byte.
    pub proof fn lemma_byte_roundtrip(value: u8)
        ensures
            Self::from_byte_spec(value).to_byte_spec() == value,
    {
    }
}

impl From<u8> for WakeupCause {
    fn from(value: u8) -> (ret: Self)
        ensures
            ret == WakeupCause::from_byte_spec(value),
    {
        match value {
            0x00 => WakeupCause::VoltageSupplyDrop,
            0x01 => WakeupCause::ResetPin,
            0x02 => WakeupCause::Watchdog,
            0x03 => WakeupCause::Flywheel,
            0x04 => WakeupCause::ParityError,
            0x05 => WakeupCause::HardwareParityError,
            0x06 => WakeupCause::PageFault,
            0x07 => WakeupCause::WakeUpPin0,
            0x08 => WakeupCause::WakeUpPin1,
            0x09 => WakeupCause::UnknownSource,
            0x10 => WakeupCause::Uart,
            other => WakeupCause::Other(other),
        }
    }
}

impl vstd::std_specs::convert::FromSpecImpl<u8> for WakeupCause {
    open spec fn obeys_from_spec() -> bool {
        true
    }

    open spec fn from_spec(v: u8) -> WakeupCause {
        WakeupCause::from_byte_spec(v)
    }
}

impl From<WakeupCause> for u8 {
    fn from(value: WakeupCause) -> (ret: u8)
        ensures
            ret == value.to_byte_spec(),
    {
        match value {
            WakeupCause::VoltageSupplyDrop => 0x00,
            WakeupCause::ResetPin => 0x01,
            WakeupCause::Watchdog => 0x02,
            WakeupCause::Flywheel => 0x03,
            WakeupCause::ParityError => 0x04,
            WakeupCause::HardwareParityError => 0x05,
            WakeupCause::PageFault => 0x06,
            WakeupCause::WakeUpPin0 => 0x07,
            WakeupCause::WakeUpPin1 => 0x08,
            WakeupCause::UnknownSource => 0x09,
            WakeupCause::Uart => 0x10,
            WakeupCause::Other(other) => other,
        }
    }
}

impl vstd::std_specs::convert::FromSpecImpl<WakeupCause> for u8 {
    open spec fn obeys_from_spec() -> bool {
        true
    }

    open spec fn from_spec(v: WakeupCause) -> u8 {
        v.to_byte_spec()
    }
}

/// The security mode in which the controller is operating.
#[derive(Clone, Copy, Debug, PartialEq, Eq, Structural, Hash, PartialOrd, Ord)]
pub enum SecurityMode {
    Standard,
    Extended,
    Other(u8),
}

impl SecurityMode {
    /// The value decoded from a byte: the variant with that value, or `Other`.
    pub open spec fn from_byte_spec(value: u8) -> Self {
        if value == 0x00 {
            SecurityMode::Standard
        } else if value == 0x01 {
            SecurityMode::Extended
        } else {
            SecurityMode::Other(value)
        }
    }

    /// The byte that encodes this value.
    pub open spec fn to_byte_spec(self) -> u8 {
        match self {
            SecurityMode::Standard => 0x00,
            SecurityMode::Extended => 0x01,
            SecurityMode::Other(value) => value,
        }
    }

    /// Decoding a byte and encoding the result gives back the byte.
    pub proof fn lemma_byte_roundtrip(value: u8)
        ensures
            Self::from_byte_spec(value).to_byte_spec() == value,
    {
    }
}

impl From<u8> for SecurityMode {
    fn from(value: u8) -> (ret: Self)
        ensures
            ret == SecurityMode::from_byte_spec(value),
    {
        match value {
            0x00 => SecurityMode::Standard,
            0x01 => SecurityMode::Extended,
            other => SecurityMode::Other(other),
        }
    }
}

impl vstd::std_specs::convert::FromSpecImpl<u8> for SecurityMode {
    open spec fn obeys_from_spec() -> bool {
        true
    }

    open spec fn from_spec(v: u8) -> SecurityMode {
        SecurityMode::from_byte_spec(v)
    }
}

impl From<SecurityMode> for u8 {
    fn from(value: SecurityMode) -> (ret: u8)
        ensures
            ret == value.to_byte_spec(),
    {
        match value {
            SecurityMode::Standard => 0x00,
            SecurityMode::Extended => 0x01,
            SecurityMode::Other(other) => other,
        }
    }
}

impl vstd::std_specs::convert::FromSpecImpl<SecurityMode> for u8 {
    open spec fn obeys_from_spec() -> bool {
        true
    }

    open spec fn from_spec(v: SecurityMode) -> u8 {
        v.to_byte_spec()
    }
}

/// The cause for the secure device event.
#[derive(Clone, Copy, Debug, PartialEq, Eq, Structural, Hash, PartialOrd, Ord)]
pub enum SecureDeviceEventCause {
    SecureLinkTableFull,
    WrongPrivKeyResync,
    WrongCmacCountHit,
    TelegramCorrupted,
    PskUnset,
    TeachInWithoutPsk,
    CmacOrRlc,
    InsecureTelegramSecureDevice,
    TeachInSuccess,
    ValidRlcSync,
    Other(u8),
}

impl SecureDeviceEventCause {
    /// The value decoded from a byte: the variant with that value, or `Other`.
    pub open spec fn from_byte_spec(value: u8) -> Self {
        if value == 0x00 {
            SecureDeviceEventCause::SecureLinkTableFull
        } else if value == 0x02 {
            SecureDeviceEventCause::WrongPrivKeyResync
        } else if value == 0x03 {
            SecureDeviceEventCause::WrongCmacCountHit
        } else if value == 0x04 {
            SecureDeviceEventCause::TelegramCorrupted
        } else if value == 0x05 {
            SecureDeviceEventCause::PskUnset
        } else if value == 0x06 {
            SecureDeviceEventCause::TeachInWithoutPsk
        } else if value == 0x07 {
            SecureDeviceEventCause::CmacOrRlc
        } else if value == 0x08 {
            SecureDeviceEventCause::InsecureTelegramSecureDevice
        } else if value == 0x09 {
            SecureDeviceEventCause::TeachInSuccess
        } else if value == 0x0A {
            SecureDeviceEventCause::ValidRlcSync
        } else {
            SecureDeviceEventCause::Other(value)
        }
    }

    /// The byte that encodes this value.
    pub open spec fn to_byte_spec(self) -> u8 {
        match self {
            SecureDeviceEventCause::SecureLinkTableFull => 0x00,
            SecureDeviceEventCause::WrongPrivKeyResync => 0x02,
            SecureDeviceEventCause::WrongCmacCountHit => 0x03,
            SecureDeviceEventCause::TelegramCorrupted => 0x04,
            SecureDeviceEventCause::PskUnset => 0x05,
            SecureDeviceEventCause::TeachInWithoutPsk => 0x06,
            SecureDeviceEventCause::CmacOrRlc => 0x07,
            SecureDeviceEventCause::InsecureTelegramSecureDevice => 0x08,
            SecureDeviceEventCause::TeachInSuccess => 0x09,
            SecureDeviceEventCause::ValidRlcSync => 0x0A,
            SecureDeviceEventCause::Other(value) => value,
        }
    }

    /// Decoding a byte and encoding the result gives back the byte.
    pub proof fn lemma_byte_roundtrip(value: u8)
        ensures
            Self::from_byte_spec(value).to_byte_spec() == value,
    {
    }
}

impl From<u8> for SecureDeviceEventCause {
    fn from(value: u8) -> (ret: Self)
        ensures
            ret == SecureDeviceEventCause::from_byte_spec(value),
    {
        match value {
            0x00 => SecureDeviceEventCause::SecureLinkTableFull,
            0x02 => SecureDeviceEventCause::WrongPrivKeyResync,
            0x03 => SecureDeviceEventCause::WrongCmacCountHit,
            0x04 => SecureDeviceEventCause::TelegramCorrupted,
            0x05 => SecureDeviceEventCause::PskUnset,
            0x06 => SecureDeviceEventCause::TeachInWithoutPsk,
            0x07 => SecureDeviceEventCause::CmacOrRlc,
            0x08 => SecureDeviceEventCause::InsecureTelegramSecureDevice,
            0x09 => SecureDeviceEventCause::TeachInSuccess,
            0x0A => SecureDeviceEventCause::ValidRlcSync,
            other => SecureDeviceEventCause::Other(other),
        }
    }
}

impl vstd::std_specs::convert::FromSpecImpl<u8> for SecureDeviceEventCause {
    open spec fn obeys_from_spec() -> bool {
        true
    }

    open spec fn from_spec(v: u8) -> SecureDeviceEventCause {
        SecureDeviceEventCause::from_byte_spec(v)
    }
}

impl From<SecureDeviceEventCause> for u8 {
    fn from(value: SecureDeviceEventCause) -> (ret: u8)
        ensures
            ret == value.to_byte_spec(),
    {
        match value {
            SecureDeviceEventCause::SecureLinkTableFull => 0x00,
            SecureDeviceEventCause::WrongPrivKeyResync => 0x02,
            SecureDeviceEventCause::WrongCmacCountHit => 0x03,
            SecureDeviceEventCause::TelegramCorrupted => 0x04,
            SecureDeviceEventCause::PskUnset => 0x05,
            SecureDeviceEventCause::TeachInWithoutPsk => 0x06,
            SecureDeviceEventCause::CmacOrRlc => 0x07,
            SecureDeviceEventCause::InsecureTelegramSecureDevice => 0x08,
            SecureDeviceEventCause::TeachInSuccess => 0x09,
            SecureDeviceEventCause::ValidRlcSync => 0x0A,
            SecureDeviceEventCause::Other(other) => other,
        }
    }
}

impl vstd::std_specs::convert::FromSpecImpl<SecureDeviceEventCause> for u8 {
    open spec fn obeys_from_spec() -> bool {
        true
    }

    open spec fn from_spec(v: SecureDeviceEventCause) -> u8 {
        v.to_byte_spec()
    }
}

/// A boolean value stored in one byte.
#[derive(Clone, Copy, Debug, PartialEq, Eq, Structural, Hash, PartialOrd, Ord)]
pub enum OneByteBoolean {
    Yes,
    No,
    Other(u8),
}

impl OneByteBoolean {
    /// The value decoded from a byte: the variant with that value, or `Other`.
    pub open spec fn from_byte_spec(value: u8) -> Self {
        if value == 0x00 {
            OneByteBoolean::Yes
        } else if value == 0x01 {
            OneByteBoolean::No
        } else {
            OneByteBoolean::Other(value)
        }
    }

    /// The byte that encodes this value.
    pub open spec fn to_byte_spec(self) -> u8 {
        match self {
            OneByteBoolean::Yes => 0x00,
            OneByteBoolean::No => 0x01,
            OneByteBoolean::Other(value) => value,
        }
    }

    /// Decoding a byte and encoding the result gives back the byte.
    pub proof fn lemma_byte_roundtrip(value: u8)
        ensures
            Self::from_byte_spec(value).to_byte_spec() == value,
    {
    }
}

impl From<u8> for OneByteBoolean {
    fn from(value: u8) -> (ret: Self)
        ensures
            ret == OneByteBoolean::from_byte_spec(value),
    {
        match value {
            0x00 => OneByteBoolean::Yes,
            0x01 => OneByteBoolean::No,
            other => OneByteBoolean::Other(other),
        }
    }
}

impl vstd::std_specs::convert::FromSpecImpl<u8> for OneByteBoolean {
    open spec fn obeys_from_spec() -> bool {
        true
    }

    open spec fn from_spec(v: u8) -> OneByteBoolean {
        OneByteBoolean::from_byte_spec(v)
    }
}

impl From<OneByteBoolean> for u8 {
    fn from(value: OneByteBoolean) -> (ret: u8)
        ensures
            ret == value.to_byte_spec(),
    {
        match value {
            OneByteBoolean::Yes => 0x00,
            OneByteBoolean::No => 0x01,
            OneByteBoolean::Other(other) => other,
        }
    }
}

impl vstd::std_specs::convert::FromSpecImpl<OneByteBoolean> for u8 {
    open spec fn obeys_from_spec() -> bool {
        true
    }

    open spec fn from_spec(v: OneByteBoolean) -> u8 {
        v.to_byte_spec()
    }
}

/// The reason for a transmission failure.
#[derive(Clone, Copy, Debug, PartialEq, Eq, Structural, Hash, PartialOrd, Ord)]
pub enum TransmissionFailureReason {
    CsmaFailed,
    NotAcknowledged,
    Other(u8),
}

impl TransmissionFailureReason {
    /// The value decoded from a byte: the variant with that value, or `Other`.
    pub open spec fn from_byte_spec(value: u8) -> Self {
        if value == 0x00 {
            TransmissionFailureReason::CsmaFailed
        } else if value == 0x01 {
            TransmissionFailureReason::NotAcknowledged
        } else {
            TransmissionFailureReason::Other(value)
        }
    }

    /// The byte that encodes this value.
    pub open spec fn to_byte_spec(self) -> u8 {
        match self {
            TransmissionFailureReason::CsmaFailed => 0x00,
            TransmissionFailureReason::NotAcknowledged => 0x01,
            TransmissionFailureReason::Other(value) => value,
        }
    }

    /// Decoding a byte and encoding the result gives back the byte.
    pub proof fn lemma_byte_roundtrip(value: u8)
        ensures
            Self::from_byte_spec(value).to_byte_spec() == value,
    {
    }
}

impl From<u8> for TransmissionFailureReason {
    fn from(value: u8) -> (ret: Self)
        ensures
            ret == TransmissionFailureReason::from_byte_spec(value),
    {
        match value {
            0x00 => TransmissionFailureReason::CsmaFailed,
            0x01 => TransmissionFailureReason::NotAcknowledged,
            other => TransmissionFailureReason::Other(other),
        }
    }
}

impl vstd::std_specs::convert::FromSpecImpl<u8> for TransmissionFailureReason {
    open spec fn obeys_from_spec() -> bool {
        true
    }

    open spec fn from_spec(v: u8) -> TransmissionFailureReason {
        TransmissionFailureReason::from_byte_spec(v)
    }
}

impl From<TransmissionFailureReason> for u8 {
    fn from(value: TransmissionFailureReason) -> (ret: u8)
        ensures
            ret == value.to_byte_spec(),
    {
        match value {
            TransmissionFailureReason::CsmaFailed => 0x00,
            TransmissionFailureReason::NotAcknowledged => 0x01,
            TransmissionFailureReason::Other(other) => other,
        }
    }
}

impl vstd::std_specs::convert::FromSpecImpl<TransmissionFailureReason> for u8 {
    open spec fn obeys_from_spec() -> bool {
        true
    }

    open spec fn from_spec(v: TransmissionFailureReason) -> u8 {
        v.to_byte_spec()
    }
}

/// The mode in which to enable the internal repeater.
#[derive(Clone, Copy, Debug, PartialEq, Eq, Structural, Hash, PartialOrd, Ord)]
pub enum RepeaterEnable {
    Off,
    On,
    Selective,
    Other(u8),
}

impl RepeaterEnable {
    /// The value decoded from a byte: the variant with that value, or `Other`.
    pub open spec fn from_byte_spec(value: u8) -> Self {
        if value == 0x00 {
            RepeaterEnable::Off
        } else if value == 0x01 {
            RepeaterEnable::On
        } else if value == 0x02 {
            RepeaterEnable::Selective
        } else {
            RepeaterEnable::Other(value)
        }
    }

    /// The byte that encodes this value.
    pub open spec fn to_byte_spec(self) -> u8 {
        match self {
            RepeaterEnable::Off => 0x00,
            RepeaterEnable::On => 0x01,
            RepeaterEnable::Selective => 0x02,
            RepeaterEnable::Other(value) => value,
        }
    }

    /// Decoding a byte and encoding the result gives back the byte.
    pub proof fn lemma_byte_roundtrip(value: u8)
        ensures
            Self::from_byte_spec(value).to_byte_spec() == value,
    {
    }
}

impl From<u8> for RepeaterEnable {
    fn from(value: u8) -> (ret: Self)
        ensures
            ret == RepeaterEnable::from_byte_spec(value),
    {
        match value {
            0x00 => RepeaterEnable::Off,
            0x01 => RepeaterEnable::On,
            0x02 => RepeaterEnable::Selective,
            other => RepeaterEnable::Other(other),
        }
    }
}

impl vstd::std_specs::convert::FromSpecImpl<u8> for RepeaterEnable {
    open spec fn obeys_from_spec() -> bool {
        true
    }

    open spec fn from_spec(v: u8) -> RepeaterEnable {
        RepeaterEnable::from_byte_spec(v)
    }
}

impl From<RepeaterEnable> for u8 {
    fn from(value: RepeaterEnable) -> (ret: u8)
        ensures
            ret == value.to_byte_spec(),
    {
        match value {
            RepeaterEnable::Off => 0x00,
            RepeaterEnable::On => 0x01,
            RepeaterEnable::Selective => 0x02,
            RepeaterEnable::Other(other) => other,
        }
    }
}

impl vstd::std_specs::convert::FromSpecImpl<RepeaterEnable> for u8 {
    open spec fn obeys_from_spec() -> bool {
        true
    }

    open spec fn from_spec(v: RepeaterEnable) -> u8 {
        v.to_byte_spec()
    }
}

/// The level with which to repeat datagrams.
#[derive(Clone, Copy, Debug, PartialEq, Eq, Structural, Hash, PartialOrd, Ord)]
pub enum RepeaterLevel {
    Off,
    OneLevel,
    TwoLevel,
    Other(u8),
}

impl RepeaterLevel {
    /// The value decoded from a byte: the variant with that value, or `Other`.
    pub open spec fn from_byte_spec(value: u8) -> Self {
        if value == 0x00 {
            RepeaterLevel::Off
        } else if value == 0x01 {
            RepeaterLevel::OneLevel
        } else if value == 0x02 {
            RepeaterLevel::TwoLevel
        } else {
            RepeaterLevel::Other(value)
        }
    }

    /// The byte that encodes this value.
    pub open spec fn to_byte_spec(self) -> u8 {
        match self {
            RepeaterLevel::Off => 0x00,
            RepeaterLevel::OneLevel => 0x01,
            RepeaterLevel::TwoLevel => 0x02,
            RepeaterLevel::Other(value) => value,
        }
    }

    /// Decoding a byte and encoding the result gives back the byte.
    pub proof fn lemma_byte_roundtrip(value: u8)
        ensures
            Self::from_byte_spec(value).to_byte_spec() == value,
    {
    }
}

impl From<u8> for RepeaterLevel {
    fn from(value: u8) -> (ret: Self)
        ensures
            ret == RepeaterLevel::from_byte_spec(value),
    {
        match value {
            0x00 => RepeaterLevel::Off,
            0x01 => RepeaterLevel::OneLevel,
            0x02 => RepeaterLevel::TwoLevel,
            other => RepeaterLevel::Other(other),
        }
    }
}

impl vstd::std_specs::convert::FromSpecImpl<u8> for RepeaterLevel {
    open spec fn obeys_from_spec() -> bool {
        true
    }

    open spec fn from_spec(v: u8) -> RepeaterLevel {
        RepeaterLevel::from_byte_spec(v)
    }
}

impl From<RepeaterLevel> for u8 {
    fn from(value: RepeaterLevel) -> (ret: u8)
        ensures
            ret == value.to_byte_spec(),
    {
        match value {
            RepeaterLevel::Off => 0x00,
            RepeaterLevel::OneLevel => 0x01,
            RepeaterLevel::TwoLevel => 0x02,
            RepeaterLevel::Other(other) => other,
        }
    }
}

impl vstd::std_specs::convert::FromSpecImpl<RepeaterLevel> for u8 {
    open spec fn obeys_from_spec() -> bool {
        true
    }

    open spec fn from_spec(v: RepeaterLevel) -> u8 {
        v.to_byte_spec()
    }
}

/// The channel which to target.
#[derive(Clone, Copy, Debug, PartialEq, Eq, Structural, Hash, PartialOrd, Ord)]
pub enum ChannelNumber {
    RelativePrevious,
    RelativeNext,
    Absolute(u8),
}

impl ChannelNumber {
    /// The value decoded from a byte: the variant with that value, or `Absolute`.
    pub open spec fn from_byte_spec(value: u8) -> Self {
        if value == 0xFE {
            ChannelNumber::RelativePrevious
        } else if value == 0xFF {
            ChannelNumber::RelativeNext
        } else {
            ChannelNumber::Absolute(value)
        }
    }

    /// The byte that encodes this value.
    pub open spec fn to_byte_spec(self) -> u8 {
        match self {
            ChannelNumber::RelativePrevious => 0xFE,
            ChannelNumber::RelativeNext => 0xFF,
            ChannelNumber::Absolute(value) => value,
        }
    }

    /// Decoding a byte and encoding the result gives back the byte.
    pub proof fn lemma_byte_roundtrip(value: u8)
        ensures
            Self::from_byte_spec(value).to_byte_spec() == value,
    {
    }
}

impl From<u8> for ChannelNumber {
    fn from(value: u8) -> (ret: Self)
        ensures
            ret == ChannelNumber::from_byte_spec(value),
    {
        match value {
            0xFE => ChannelNumber::RelativePrevious,
            0xFF => ChannelNumber::RelativeNext,
            other => ChannelNumber::Absolute(other),
        }
    }
}

impl vstd::std_specs::convert::FromSpecImpl<u8> for ChannelNumber {
    open spec fn obeys_from_spec() -> bool {
        true
    }

    open spec fn from_spec(v: u8) -> ChannelNumber {
        ChannelNumber::from_byte_spec(v)
    }
}

impl From<ChannelNumber> for u8 {
    fn from(value: ChannelNumber) -> (ret: u8)
        ensures
            ret == value.to_byte_spec(),
    {
        match value {
            ChannelNumber::RelativePrevious => 0xFE,
            ChannelNumber::RelativeNext => 0xFF,
            ChannelNumber::Absolute(other) => other,
        }
    }
}

impl vstd::std_specs::convert::FromSpecImpl<ChannelNumber> for u8 {
    open spec fn obeys_from_spec() -> bool {
        true
    }

    open spec fn from_spec(v: ChannelNumber) -> u8 {
        v.to_byte_spec()
    }
}

/// The mode in which to operate the transceiver.
#[derive(Clone, Copy, Debug, PartialEq, Eq, Structural, Hash, PartialOrd, Ord)]
pub enum TransceiverMode {
    Compatible,
    Advanced,
    Other(u8),
}

impl TransceiverMode {
    /// The value decoded from a byte: the variant with that value, or `Other`.
    pub open spec fn from_byte_spec(value: u8) -> Self {
        if value == 0x00 {
            TransceiverMode::Compatible
        } else if value == 0x01 {
            TransceiverMode::Advanced
        } else {
            TransceiverMode::Other(value)
        }
    }

    /// The byte that encodes this value.
    pub open spec fn to_byte_spec(self) -> u8 {
        match self {
            TransceiverMode::Compatible => 0x00,
            TransceiverMode::Advanced => 0x01,
            TransceiverMode::Other(value) => value,
        }
    }

    /// Decoding a byte and encoding the result gives back the byte.
    pub proof fn lemma_byte_roundtrip(value: u8)
        ensures
            Self::from_byte_spec(value).to_byte_spec() == value,
    {
    }
}

impl From<u8> for TransceiverMode {
    fn from(value: u8) -> (ret: Self)
        ensures
            ret == TransceiverMode::from_byte_spec(value),
    {
        match value {
            0x00 => TransceiverMode::Compatible,
            0x01 => TransceiverMode::Advanced,
            other => TransceiverMode::Other(other),
        }
    }
}

impl vstd::std_specs::convert::FromSpecImpl<u8> for TransceiverMode {
    open spec fn obeys_from_spec() -> bool {
        true
    }

    open spec fn from_spec(v: u8) -> TransceiverMode {
        TransceiverMode::from_byte_spec(v)
    }
}

impl From<TransceiverMode> for u8 {
    fn from(value: TransceiverMode) -> (ret: u8)
        ensures
            ret == value.to_byte_spec(),
    {
        match value {
            TransceiverMode::Compatible => 0x00,
            TransceiverMode::Advanced => 0x01,
            TransceiverMode::Other(other) => other,
        }
    }
}

impl vstd::std_specs::convert::FromSpecImpl<TransceiverMode> for u8 {
    open spec fn obeys_from_spec() -> bool {
        true
    }

    open spec fn from_spec(v: TransceiverMode) -> u8 {
        v.to_byte_spec()
    }
}

/// The direction table on which to operate.
#[derive(Clone, Copy, Debug, PartialEq, Eq, Structural, Hash, PartialOrd, Ord)]
pub enum DirectionTable {
    Inbound,
    Outbound,
    OutboundBroadcast,
    Other(u8),
}

impl DirectionTable {
    /// The value decoded from a byte: the variant with that value, or `Other`.
    pub open spec fn from_byte_spec(value: u8) -> Self {
        if value == 0x00 {
            DirectionTable::Inbound
        } else if value == 0x01 {
            DirectionTable::Outbound
        } else if value == 0x02 {
            DirectionTable::OutboundBroadcast
        } else {
            DirectionTable::Other(value)
        }
    }

    /// The byte that encodes this value.
    pub open spec fn to_byte_spec(self) -> u8 {
        match self {
            DirectionTable::Inbound => 0x00,
            DirectionTable::Outbound => 0x01,
            DirectionTable::OutboundBroadcast => 0x02,
            DirectionTable::Other(value) => value,
        }
    }

    /// Decoding a byte and encoding the result gives back the byte.
    pub proof fn lemma_byte_roundtrip(value: u8)
        ensures
            Self::from_byte_spec(value).to_byte_spec() == value,
    {
    }
}

impl From<u8> for DirectionTable {
    fn from(value: u8) -> (ret: Self)
        ensures
            ret == DirectionTable::from_byte_spec(value),
    {
        match value {
            0x00 => DirectionTable::Inbound,
            0x01 => DirectionTable::Outbound,
            0x02 => DirectionTable::OutboundBroadcast,
            other => DirectionTable::Other(other),
        }
    }
}

impl vstd::std_specs::convert::FromSpecImpl<u8> for DirectionTable {
    open spec fn obeys_from_spec() -> bool {
        true
    }

    open spec fn from_spec(v: u8) -> DirectionTable {
        DirectionTable::from_byte_spec(v)
    }
}

impl From<DirectionTable> for u8 {
    fn from(value: DirectionTable) -> (ret: u8)
        ensures
            ret == value.to_byte_spec(),
    {
        match value {
            DirectionTable::Inbound => 0x00,
            DirectionTable::Outbound => 0x01,
            DirectionTable::OutboundBroadcast => 0x02,
            DirectionTable::Other(other) => other,
        }
    }
}

impl vstd::std_specs::convert::FromSpecImpl<DirectionTable> for u8 {
    open spec fn obeys_from_spec() -> bool {
        true
    }

    open spec fn from_spec(v: DirectionTable) -> u8 {
        v.to_byte_spec()
    }
}

/// The direction table on which to operate, for commands that allow specifying "both".
#[derive(Clone, Copy, Debug, PartialEq, Eq, Structural, Hash, PartialOrd, Ord)]
pub enum DirectionTableBoth {
    Inbound,
    Outbound,
    OutboundBroadcast,
    Both,
    Other(u8),
}

impl DirectionTableBoth {
    /// The value decoded from a byte: the variant with that value, or `Other`.
    pub open spec fn from_byte_spec(value: u8) -> Self {
        if value == 0x00 {
            DirectionTableBoth::Inbound
        } else if value == 0x01 {
            DirectionTableBoth::Outbound
        } else if value == 0x02 {
            DirectionTableBoth::OutboundBroadcast
        } else if value == 0x03 {
            DirectionTableBoth::Both
        } else {
            DirectionTableBoth::Other(value)
        }
    }

    /// The byte that encodes this value.
    pub open spec fn to_byte_spec(self) -> u8 {
        match self {
            DirectionTableBoth::Inbound => 0x00,
            DirectionTableBoth::Outbound => 0x01,
            DirectionTableBoth::OutboundBroadcast => 0x02,
            DirectionTableBoth::Both => 0x03,
            DirectionTableBoth::Other(value) => value,
        }
    }

    /// Decoding a byte and encoding the result gives back the byte.
    pub proof fn lemma_byte_roundtrip(value: u8)
        ensures
            Self::from_byte_spec(value).to_byte_spec() == value,
    {
    }
}

impl From<u8> for DirectionTableBoth {
    fn from(value: u8) -> (ret: Self)
        ensures
            ret == DirectionTableBoth::from_byte_spec(value),
    {
        match value {
            0x00 => DirectionTableBoth::Inbound,
            0x01 => DirectionTableBoth::Outbound,
            0x02 => DirectionTableBoth::OutboundBroadcast,
            0x03 => DirectionTableBoth::Both,
            other => DirectionTableBoth::Other(other),
        }
    }
}

impl vstd::std_specs::convert::FromSpecImpl<u8> for DirectionTableBoth {
    open spec fn obeys_from_spec() -> bool {
        true
    }

    open spec fn from_spec(v: u8) -> DirectionTableBoth {
        DirectionTableBoth::from_byte_spec(v)
    }
}

impl From<DirectionTableBoth> for u8 {
    fn from(value: DirectionTableBoth) -> (ret: u8)
        ensures
            ret == value.to_byte_spec(),
    {
        match value {
            DirectionTableBoth::Inbound => 0x00,
            DirectionTableBoth::Outbound => 0x01,
            DirectionTableBoth::OutboundBroadcast => 0x02,
            DirectionTableBoth::Both => 0x03,
            DirectionTableBoth::Other(other) => other,
        }
    }
}

impl vstd::std_specs::convert::FromSpecImpl<DirectionTableBoth> for u8 {
    open spec fn obeys_from_spec() -> bool {
        true
    }

    open spec fn from_spec(v: DirectionTableBoth) -> u8 {
        v.to_byte_spec()
    }
}

/// The direction table on which to operate, for commands that allow specifying the maintenance link.
#[derive(Clone, Copy, Debug, PartialEq, Eq, Structural, Hash, PartialOrd, Ord)]
pub enum DirectionTableMaintenance {
    Inbound,
    Outbound,
    OutboundBroadcast,
    MaintenanceLink,
    Other(u8),
}

impl DirectionTableMaintenance {
    /// The value decoded from a byte: the variant with that value, or `Other`.
    pub open spec fn from_byte_spec(value: u8) -> Self {
        if value == 0x00 {
            DirectionTableMaintenance::Inbound
        } else if value == 0x01 {
            DirectionTableMaintenance::Outbound
        } else if value == 0x02 {
            DirectionTableMaintenance::OutboundBroadcast
        } else if value == 0x03 {
            DirectionTableMaintenance::MaintenanceLink
        } else {
            DirectionTableMaintenance::Other(value)
        }
    }

    /// The byte that encodes this value.
    pub open spec fn to_byte_spec(self) -> u8 {
        match self {
            DirectionTableMaintenance::Inbound => 0x00,
            DirectionTableMaintenance::Outbound => 0x01,
            DirectionTableMaintenance::OutboundBroadcast => 0x02,
            DirectionTableMaintenance::MaintenanceLink => 0x03,
            DirectionTableMaintenance::Other(value) => value,
        }
    }

    /// Decoding a byte and encoding the result gives back the byte.
    pub proof fn lemma_byte_roundtrip(value: u8)
        ensures
            Self::from_byte_spec(value).to_byte_spec() == value,
    {
    }
}

impl From<u8> for DirectionTableMaintenance {
    fn from(value: u8) -> (ret: Self)
        ensures
            ret == DirectionTableMaintenance::from_byte_spec(value),
    {
        match value {
            0x00 => DirectionTableMaintenance::Inbound,
            0x01 => DirectionTableMaintenance::Outbound,
            0x02 => DirectionTableMaintenance::OutboundBroadcast,
            0x03 => DirectionTableMaintenance::MaintenanceLink,
            other => DirectionTableMaintenance::Other(other),
        }
    }
}

impl vstd::std_specs::convert::FromSpecImpl<u8> for DirectionTableMaintenance {
    open spec fn obeys_from_spec() -> bool {
        true
    }

    open spec fn from_spec(v: u8) -> DirectionTableMaintenance {
        DirectionTableMaintenance::from_byte_spec(v)
    }
}

impl From<DirectionTableMaintenance> for u8 {
    fn from(value: DirectionTableMaintenance) -> (ret: u8)
        ensures
            ret == value.to_byte_spec(),
    {
        match value {
            DirectionTableMaintenance::Inbound => 0x00,
            DirectionTableMaintenance::Outbound => 0x01,
            DirectionTableMaintenance::OutboundBroadcast => 0x02,
            DirectionTableMaintenance::MaintenanceLink => 0x03,
            DirectionTableMaintenance::Other(other) => other,
        }
    }
}

impl vstd::std_specs::convert::FromSpecImpl<DirectionTableMaintenance> for u8 {
    open spec fn obeys_from_spec() -> bool {
        true
    }

    open spec fn from_spec(v: DirectionTableMaintenance) -> u8 {
        v.to_byte_spec()
    }
}

/// The baud rate with which the controller should communicate via UART.
#[derive(Clone, Copy, Debug, PartialEq, Eq, Structural, Hash, PartialOrd, Ord)]
pub enum BaudRate {
    Baud57600,
    Baud115200,
    Baud230400,
    Baud460800,
    Other(u8),
}

impl BaudRate {
    /// The value decoded from a byte: the variant with that value, or `Other`.
    pub open spec fn from_byte_spec(value: u8) -> Self {
        if value == 0x00 {
            BaudRate::Baud57600
        } else if value == 0x01 {
            BaudRate::Baud115200
        } else if value == 0x02 {
            BaudRate::Baud230400
        } else if value == 0x03 {
            BaudRate::Baud460800
        } else {
            BaudRate::Other(value)
        }
    }

    /// The byte that encodes this value.
    pub open spec fn to_byte_spec(self) -> u8 {
        match self {
            BaudRate::Baud57600 => 0x00,
            BaudRate::Baud115200 => 0x01,
            BaudRate::Baud230400 => 0x02,
            BaudRate::Baud460800 => 0x03,
            BaudRate::Other(value) => value,
        }
    }

    /// Decoding a byte and encoding the result gives back the byte.
    pub proof fn lemma_byte_roundtrip(value: u8)
        ensures
            Self::from_byte_spec(value).to_byte_spec() == value,
    {
    }
}

impl From<u8> for BaudRate {
    fn from(value: u8) -> (ret: Self)
        ensures
            ret == BaudRate::from_byte_spec(value),
    {
        match value {
            0x00 => BaudRate::Baud57600,
            0x01 => BaudRate::Baud115200,
            0x02 => BaudRate::Baud230400,
            0x03 => BaudRate::Baud460800,
            other => BaudRate::Other(other),
        }
    }
}

impl vstd::std_specs::convert::FromSpecImpl<u8> for BaudRate {
    open spec fn obeys_from_spec() -> bool {
        true
    }

    open spec fn from_spec(v: u8) -> BaudRate {
        BaudRate::from_byte_spec(v)
    }
}

impl From<BaudRate> for u8 {
    fn from(value: BaudRate) -> (ret: u8)
        ensures
            ret == value.to_byte_spec(),
    {
        match value {
            BaudRate::Baud57600 => 0x00,
            BaudRate::Baud115200 => 0x01,
            BaudRate::Baud230400 => 0x02,
            BaudRate::Baud460800 => 0x03,
            BaudRate::Other(other) => other,
        }
    }
}

impl vstd::std_specs::convert::FromSpecImpl<BaudRate> for u8 {
    open spec fn obeys_from_spec() -> bool {
        true
    }

    open spec fn from_spec(v: BaudRate) -> u8 {
        v.to_byte_spec()
    }
}

/// The radio frequency on which the controller communicates.
#[derive(Clone, Copy, Debug, PartialEq, Eq, Structural, Hash, PartialOrd, Ord)]
pub enum Frequency {
    Mhz315,
    Mhz868Point3,
    Mhz902Point875,
    Mhz925,
    Mhz928,
    Ghz2Point4,
    Other(u8),
}

impl Frequency {
    /// The value decoded from a byte: the variant with that value, or `Other`.
    pub open spec fn from_byte_spec(value: u8) -> Self {
        if value == 0x00 {
            Frequency::Mhz315
        } else if value == 0x01 {
            Frequency::Mhz868Point3
        } else if value == 0x02 {
            Frequency::Mhz902Point875
        } else if value == 0x03 {
            Frequency::Mhz925
        } else if value == 0x04 {
            Frequency::Mhz928
        } else if value == 0x20 {
            Frequency::Ghz2Point4
        } else {
            Frequency::Other(value)
        }
    }

    /// The byte that encodes this value.
    pub open spec fn to_byte_spec(self) -> u8 {
        match self {
            Frequency::Mhz315 => 0x00,
            Frequency::Mhz868Point3 => 0x01,
            Frequency::Mhz902Point875 => 0x02,
            Frequency::Mhz925 => 0x03,
            Frequency::Mhz928 => 0x04,
            Frequency::Ghz2Point4 => 0x20,
            Frequency::Other(value) => value,
        }
    }

    /// Decoding a byte and encoding the result gives back the byte.
    pub proof fn lemma_byte_roundtrip(value: u8)
        ensures
            Self::from_byte_spec(value).to_byte_spec() == value,
    {
    }
}

impl From<u8> for Frequency {
    fn from(value: u8) -> (ret: Self)
        ensures
            ret == Frequency::from_byte_spec(value),
    {
        match value {
            0x00 => Frequency::Mhz315,
            0x01 => Frequency::Mhz868Point3,
            0x02 => Frequency::Mhz902Point875,
            0x03 => Frequency::Mhz925,
            0x04 => Frequency::Mhz928,
            0x20 => Frequency::Ghz2Point4,
            other => Frequency::Other(other),
        }
    }
}

impl vstd::std_specs::convert::FromSpecImpl<u8> for Frequency {
    open spec fn obeys_from_spec() -> bool {
        true
    }

    open spec fn from_spec(v: u8) -> Frequency {
        Frequency::from_byte_spec(v)
    }
}

impl From<Frequency> for u8 {
    fn from(value: Frequency) -> (ret: u8)
        ensures
            ret == value.to_byte_spec(),
    {
        match value {
            Frequency::Mhz315 => 0x00,
            Frequency::Mhz868Point3 => 0x01,
            Frequency::Mhz902Point875 => 0x02,
            Frequency::Mhz925 => 0x03,
            Frequency::Mhz928 => 0x04,
            Frequency::Ghz2Point4 => 0x20,
            Frequency::Other(other) => other,
        }
    }
}

impl vstd::std_specs::convert::FromSpecImpl<Frequency> for u8 {
    open spec fn obeys_from_spec() -> bool {
        true
    }

    open spec fn from_spec(v: Frequency) -> u8 {
        v.to_byte_spec()
    }
}

/// The radio protocol with which the controller communicates.
#[derive(Clone, Copy, Debug, PartialEq, Eq, Structural, Hash, PartialOrd, Ord)]
pub enum Protocol {
    Erp1,
    Erp2,
    Ieee802Dot15Dot4,
    LongRange,
    Other(u8),
}

impl Protocol {
    /// The value decoded from a byte: the variant with that value, or `Other`.
    pub open spec fn from_byte_spec(value: u8) -> Self {
        if value == 0x00 {
            Protocol::Erp1
        } else if value == 0x01 {
            Protocol::Erp2
        } else if value == 0x10 {
            Protocol::Ieee802Dot15Dot4
        } else if value == 0x30 {
            Protocol::LongRange
        } else {
            Protocol::Other(value)
        }
    }

    /// The byte that encodes this value.
    pub open spec fn to_byte_spec(self) -> u8 {
        match self {
            Protocol::Erp1 => 0x00,
            Protocol::Erp2 => 0x01,
            Protocol::Ieee802Dot15Dot4 => 0x10,
            Protocol::LongRange => 0x30,
            Protocol::Other(value) => value,
        }
    }

    /// Decoding a byte and encoding the result gives back the byte.
    pub proof fn lemma_byte_roundtrip(value: u8)
        ensures
            Self::from_byte_spec(value).to_byte_spec() == value,
    {
    }
}

impl From<u8> for Protocol {
    fn from(value: u8) -> (ret: Self)
        ensures
            ret == Protocol::from_byte_spec(value),
    {
        match value {
            0x00 => Protocol::Erp1,
            0x01 => Protocol::Erp2,
            0x10 => Protocol::Ieee802Dot15Dot4,
            0x30 => Protocol::LongRange,
            other => Protocol::Other(other),
        }
    }
}

impl vstd::std_specs::convert::FromSpecImpl<u8> for Protocol {
    open spec fn obeys_from_spec() -> bool {
        true
    }

    open spec fn from_spec(v: u8) -> Protocol {
        Protocol::from_byte_spec(v)
    }
}

impl From<Protocol> for u8 {
    fn from(value: Protocol) -> (ret: u8)
        ensures
            ret == value.to_byte_spec(),
    {
        match value {
            Protocol::Erp1 => 0x00,
            Protocol::Erp2 => 0x01,
            Protocol::Ieee802Dot15Dot4 => 0x10,
            Protocol::LongRange => 0x30,
            Protocol::Other(other) => other,
        }
    }
}

impl vstd::std_specs::convert::FromSpecImpl<Protocol> for u8 {
    open spec fn obeys_from_spec() -> bool {
        true
    }

    open spec fn from_spec(v: Protocol) -> u8 {
        v.to_byte_spec()
    }
}

/// A type of transmit-only mode.
#[derive(Clone, Copy, Debug, PartialEq, Eq, Structural, Hash, PartialOrd, Ord)]
pub enum TxOnlyMode {
    Off,
    On,
    OnWithAutoSleep,
    Other(u8),
}

impl TxOnlyMode {
    /// The value decoded from a byte: the variant with that value, or `Other`.
    pub open spec fn from_byte_spec(value: u8) -> Self {
        if value == 0x00 {
            TxOnlyMode::Off
        } else if value == 0x01 {
            TxOnlyMode::On
        } else if value == 0x02 {
            TxOnlyMode::OnWithAutoSleep
        } else {
            TxOnlyMode::Other(value)
        }
    }

    /// The byte that encodes this value.
    pub open spec fn to_byte_spec(self) -> u8 {
        match self {
            TxOnlyMode::Off => 0x00,
            TxOnlyMode::On => 0x01,
            TxOnlyMode::OnWithAutoSleep => 0x02,
            TxOnlyMode::Other(value) => value,
        }
    }

    /// Decoding a byte and encoding the result gives back the byte.
    pub proof fn lemma_byte_roundtrip(value: u8)
        ensures
            Self::from_byte_spec(value).to_byte_spec() == value,
    {
    }
}

impl From<u8> for TxOnlyMode {
    fn from(value: u8) -> (ret: Self)
        ensures
            ret == TxOnlyMode::from_byte_spec(value),
    {
        match value {
            0x00 => TxOnlyMode::Off,
            0x01 => TxOnlyMode::On,
            0x02 => TxOnlyMode::OnWithAutoSleep,
            other => TxOnlyMode::Other(other),
        }
    }
}

impl vstd::std_specs::convert::FromSpecImpl<u8> for TxOnlyMode {
    open spec fn obeys_from_spec() -> bool {
        true
    }

    open spec fn from_spec(v: u8) -> TxOnlyMode {
        TxOnlyMode::from_byte_spec(v)
    }
}

impl From<TxOnlyMode> for u8 {
    fn from(value: TxOnlyMode) -> (ret: u8)
        ensures
            ret == value.to_byte_spec(),
    {
        match value {
            TxOnlyMode::Off => 0x00,
            TxOnlyMode::On => 0x01,
            TxOnlyMode::OnWithAutoSleep => 0x02,
            TxOnlyMode::Other(other) => other,
        }
    }
}

impl vstd::std_specs::convert::FromSpecImpl<TxOnlyMode> for u8 {
    open spec fn obeys_from_spec() -> bool {
        true
    }

    open spec fn from_spec(v: TxOnlyMode) -> u8 {
        v.to_byte_spec()
    }
}

/// The criterion on which to filter messages.
#[derive(Clone, Copy, Debug, PartialEq, Eq, Structural, Hash, PartialOrd, Ord)]
pub enum FilterCriterion {
    SourceAddress,
    TelegramType,
    MinimumSignalStrength,
    DestinationAddress,
    Other(u8),
}

impl FilterCriterion {
    /// The value decoded from a byte: the variant with that value, or `Other`.
    pub open spec fn from_byte_spec(value: u8) -> Self {
        if value == 0x00 {
            FilterCriterion::SourceAddress
        } else if value == 0x01 {
            FilterCriterion::TelegramType
        } else if value == 0x02 {
            FilterCriterion::MinimumSignalStrength
        } else if value == 0x03 {
            FilterCriterion::DestinationAddress
        } else {
            FilterCriterion::Other(value)
        }
    }

    /// The byte that encodes this value.
    pub open spec fn to_byte_spec(self) -> u8 {
        match self {
            FilterCriterion::SourceAddress => 0x00,
            FilterCriterion::TelegramType => 0x01,
            FilterCriterion::MinimumSignalStrength => 0x02,
            FilterCriterion::DestinationAddress => 0x03,
            FilterCriterion::Other(value) => value,
        }
    }

    /// Decoding a byte and encoding the result gives back the byte.
    pub proof fn lemma_byte_roundtrip(value: u8)
        ensures
            Self::from_byte_spec(value).to_byte_spec() == value,
    {
    }
}

impl From<u8> for FilterCriterion {
    fn from(value: u8) -> (ret: Self)
        ensures
            ret == FilterCriterion::from_byte_spec(value),
    {
        match value {
            0x00 => FilterCriterion::SourceAddress,
            0x01 => FilterCriterion::TelegramType,
            0x02 => FilterCriterion::MinimumSignalStrength,
            0x03 => FilterCriterion::DestinationAddress,
            other => FilterCriterion::Other(other),
        }
    }
}

impl vstd::std_specs::convert::FromSpecImpl<u8> for FilterCriterion {
    open spec fn obeys_from_spec() -> bool {
        true
    }

    open spec fn from_spec(v: u8) -> FilterCriterion {
        FilterCriterion::from_byte_spec(v)
    }
}

impl From<FilterCriterion> for u8 {
    fn from(value: FilterCriterion) -> (ret: u8)
        ensures
            ret == value.to_byte_spec(),
    {
        match value {
            FilterCriterion::SourceAddress => 0x00,
            FilterCriterion::TelegramType => 0x01,
            FilterCriterion::MinimumSignalStrength => 0x02,
            FilterCriterion::DestinationAddress => 0x03,
            FilterCriterion::Other(other) => other,
        }
    }
}

impl vstd::std_specs::convert::FromSpecImpl<FilterCriterion> for u8 {
    open spec fn obeys_from_spec() -> bool {
        true
    }

    open spec fn from_spec(v: FilterCriterion) -> u8 {
        v.to_byte_spec()
    }
}

/// The action to perform on messages that match the filter criterion.
#[derive(Clone, Copy, Debug, PartialEq, Eq, Structural, Hash, PartialOrd, Ord)]
pub enum FilterAction {
    Drop,
    Forward,
    DoNotRepeat,
    Repeat,
    Other(u8),
}

impl FilterAction {
    /// The value decoded from a byte: the variant with that value, or `Other`.
    pub open spec fn from_byte_spec(value: u8) -> Self {
        if value == 0x00 {
            FilterAction::Drop
        } else if value == 0x80 {
            FilterAction::Forward
        } else if value == 0x40 {
            FilterAction::DoNotRepeat
        } else if value == 0xC0 {
            FilterAction::Repeat
        } else {
            FilterAction::Other(value)
        }
    }

    /// The byte that encodes this value.
    pub open spec fn to_byte_spec(self) -> u8 {
        match self {
            FilterAction::Drop => 0x00,
            FilterAction::Forward => 0x80,
            FilterAction::DoNotRepeat => 0x40,
            FilterAction::Repeat => 0xC0,
            FilterAction::Other(value) => value,
        }
    }

    /// Decoding a byte and encoding the result gives back the byte.
    pub proof fn lemma_byte_roundtrip(value: u8)
        ensures
            Self::from_byte_spec(value).to_byte_spec() == value,
    {
    }
}

impl From<u8> for FilterAction {
    fn from(value: u8) -> (ret: Self)
        ensures
            ret == FilterAction::from_byte_spec(value),
    {
        match value {
            0x00 => FilterAction::Drop,
            0x80 => FilterAction::Forward,
            0x40 => FilterAction::DoNotRepeat,
            0xC0 => FilterAction::Repeat,
            other => FilterAction::Other(other),
        }
    }
}

impl vstd::std_specs::convert::FromSpecImpl<u8> for FilterAction {
    open spec fn obeys_from_spec() -> bool {
        true
    }

    open spec fn from_spec(v: u8) -> FilterAction {
        FilterAction::from_byte_spec(v)
    }
}

impl From<FilterAction> for u8 {
    fn from(value: FilterAction) -> (ret: u8)
        ensures
            ret == value.to_byte_spec(),
    {
        match value {
            FilterAction::Drop => 0x00,
            FilterAction::Forward => 0x80,
            FilterAction::DoNotRepeat => 0x40,
            FilterAction::Repeat => 0xC0,
            FilterAction::Other(other) => other,
        }
    }
}

impl vstd::std_specs::convert::FromSpecImpl<FilterAction> for u8 {
    open spec fn obeys_from_spec() -> bool {
        true
    }

    open spec fn from_spec(v: FilterAction) -> u8 {
        v.to_byte_spec()
    }
}

/// The operator used to unify multiple filters.
#[derive(Clone, Copy, Debug, PartialEq, Eq, Structural, Hash, PartialOrd, Ord)]
pub enum FilterOperator {
    Or,
    And,
    ReceiveOrRepeatAnd,
    ReceiveAndRepeatOr,
    Other(u8),
}

impl FilterOperator {
    /// The value decoded from a byte: the variant with that value, or `Other`.
    pub open spec fn from_byte_spec(value: u8) -> Self {
        if value == 0x00 {
            FilterOperator::Or
        } else if value == 0x01 {
            FilterOperator::And
        } else if value == 0x08 {
            FilterOperator::ReceiveOrRepeatAnd
        } else if value == 0x09 {
            FilterOperator::ReceiveAndRepeatOr
        } else {
            FilterOperator::Other(value)
        }
    }

    /// The byte that encodes this value.
    pub open spec fn to_byte_spec(self) -> u8 {
        match self {
            FilterOperator::Or => 0x00,
            FilterOperator::And => 0x01,
            FilterOperator::ReceiveOrRepeatAnd => 0x08,
            FilterOperator::ReceiveAndRepeatOr => 0x09,
            FilterOperator::Other(value) => value,
        }
    }

    /// Decoding a byte and encoding the result gives back the byte.
    pub proof fn lemma_byte_roundtrip(value: u8)
        ensures
            Self::from_byte_spec(value).to_byte_spec() == value,
    {
    }
}

impl From<u8> for FilterOperator {
    fn from(value: u8) -> (ret: Self)
        ensures
            ret == FilterOperator::from_byte_spec(value),
    {
        match value {
            0x00 => FilterOperator::Or,
            0x01 => FilterOperator::And,
            0x08 => FilterOperator::ReceiveOrRepeatAnd,
            0x09 => FilterOperator::ReceiveAndRepeatOr,
            other => FilterOperator::Other(other),
        }
    }
}

impl vstd::std_specs::convert::FromSpecImpl<u8> for FilterOperator {
    open spec fn obeys_from_spec() -> bool {
        true
    }

    open spec fn from_spec(v: u8) -> FilterOperator {
        FilterOperator::from_byte_spec(v)
    }
}

impl From<FilterOperator> for u8 {
    fn from(value: FilterOperator) -> (ret: u8)
        ensures
            ret == value.to_byte_spec(),
    {
        match value {
            FilterOperator::Or => 0x00,
            FilterOperator::And => 0x01,
            FilterOperator::ReceiveOrRepeatAnd => 0x08,
            FilterOperator::ReceiveAndRepeatOr => 0x09,
            FilterOperator::Other(other) => other,
        }
    }
}

impl vstd::std_specs::convert::FromSpecImpl<FilterOperator> for u8 {
    open spec fn obeys_from_spec() -> bool {
        true
    }

    open spec fn from_spec(v: FilterOperator) -> u8 {
        v.to_byte_spec()
    }
}

/// The type of memory being accessed.
#[derive(Clone, Copy, Debug, PartialEq, Eq, Structural, Hash, PartialOrd, Ord)]
pub enum MemoryType {
    Flash,
    Ram0,
    DataRam,
    IDataRam,
    XDataRam,
    Eeprom,
    Other(u8),
}

impl MemoryType {
    /// The value decoded from a byte: the variant with that value, or `Other`.
    pub open spec fn from_byte_spec(value: u8) -> Self {
        if value == 0x00 {
            MemoryType::Flash
        } else if value == 0x01 {
            MemoryType::Ram0
        } else if value == 0x02 {
            MemoryType::DataRam
        } else if value == 0x03 {
            MemoryType::IDataRam
        } else if value == 0x04 {
            MemoryType::XDataRam
        } else if value == 0x05 {
            MemoryType::Eeprom
        } else {
            MemoryType::Other(value)
        }
    }

    /// The byte that encodes this value.
    pub open spec fn to_byte_spec(self) -> u8 {
        match self {
            MemoryType::Flash => 0x00,
            MemoryType::Ram0 => 0x01,
            MemoryType::DataRam => 0x02,
            MemoryType::IDataRam => 0x03,
            MemoryType::XDataRam => 0x04,
            MemoryType::Eeprom => 0x05,
            MemoryType::Other(value) => value,
        }
    }

    /// Decoding a byte and encoding the result gives back the byte.
    pub proof fn lemma_byte_roundtrip(value: u8)
        ensures
            Self::from_byte_spec(value).to_byte_spec() == value,
    {
    }
}

impl From<u8> for MemoryType {
    fn from(value: u8) -> (ret: Self)
        ensures
            ret == MemoryType::from_byte_spec(value),
    {
        match value {
            0x00 => MemoryType::Flash,
            0x01 => MemoryType::Ram0,
            0x02 => MemoryType::DataRam,
            0x03 => MemoryType::IDataRam,
            0x04 => MemoryType::XDataRam,
            0x05 => MemoryType::Eeprom,
            other => MemoryType::Other(other),
        }
    }
}

impl vstd::std_specs::convert::FromSpecImpl<u8> for MemoryType {
    open spec fn obeys_from_spec() -> bool {
        true
    }

    open spec fn from_spec(v: u8) -> MemoryType {
        MemoryType::from_byte_spec(v)
    }
}

impl From<MemoryType> for u8 {
    fn from(value: MemoryType) -> (ret: u8)
        ensures
            ret == value.to_byte_spec(),
    {
        match value {
            MemoryType::Flash => 0x00,
            MemoryType::Ram0 => 0x01,
            MemoryType::DataRam => 0x02,
            MemoryType::IDataRam => 0x03,
            MemoryType::XDataRam => 0x04,
            MemoryType::Eeprom => 0x05,
            MemoryType::Other(other) => other,
        }
    }
}

impl vstd::std_specs::convert::FromSpecImpl<MemoryType> for u8 {
    open spec fn obeys_from_spec() -> bool {
        true
    }

    open spec fn from_spec(v: MemoryType) -> u8 {
        v.to_byte_spec()
    }
}

/// The address area being queried.
#[derive(Clone, Copy, Debug, PartialEq, Eq, Structural, Hash, PartialOrd, Ord)]
pub enum AddressArea {
    Config,
    SmartAckTable,
    SystemErrorLog,
    Other(u8),
}

impl AddressArea {
    /// The value decoded from a byte: the variant with that value, or `Other`.
    pub open spec fn from_byte_spec(value: u8) -> Self {
        if value == 0 {
            AddressArea::Config
        } else if value == 1 {
            AddressArea::SmartAckTable
        } else if value == 2 {
            AddressArea::SystemErrorLog
        } else {
            AddressArea::Other(value)
        }
    }

    /// The byte that encodes this value.
    pub open spec fn to_byte_spec(self) -> u8 {
        match self {
            AddressArea::Config => 0,
            AddressArea::SmartAckTable => 1,
            AddressArea::SystemErrorLog => 2,
            AddressArea::Other(value) => value,
        }
    }

    /// Decoding a byte and encoding the result gives back the byte.
    pub proof fn lemma_byte_roundtrip(value: u8)
        ensures
            Self::from_byte_spec(value).to_byte_spec() == value,
    {
    }
}

impl From<u8> for AddressArea {
    fn from(value: u8) -> (ret: Self)
        ensures
            ret == AddressArea::from_byte_spec(value),
    {
        match value {
            0 => AddressArea::Config,
            1 => AddressArea::SmartAckTable,
            2 => AddressArea::SystemErrorLog,
            other => AddressArea::Other(other),
        }
    }
}

impl vstd::std_specs::convert::FromSpecImpl<u8> for AddressArea {
    open spec fn obeys_from_spec() -> bool {
        true
    }

    open spec fn from_spec(v: u8) -> AddressArea {
        AddressArea::from_byte_spec(v)
    }
}

impl From<AddressArea> for u8 {
    fn from(value: AddressArea) -> (ret: u8)
        ensures
            ret == value.to_byte_spec(),
    {
        match value {
            AddressArea::Config => 0,
            AddressArea::SmartAckTable => 1,
            AddressArea::SystemErrorLog => 2,
            AddressArea::Other(other) => other,
        }
    }
}

impl vstd::std_specs::convert::FromSpecImpl<AddressArea> for u8 {
    open spec fn obeys_from_spec() -> bool {
        true
    }

    open spec fn from_spec(v: AddressArea) -> u8 {
        v.to_byte_spec()
    }
}

/// An extended learn mode.
#[derive(Clone, Copy, Debug, PartialEq, Eq, Structural, Hash, PartialOrd, Ord)]
pub enum ExtendedLearnMode {
    Simple,
    Advanced,
    AdvancedSelectRepeater,
    Other(u8),
}

impl ExtendedLearnMode {
    /// The value decoded from a byte: the variant with that value, or `Other`.
    pub open spec fn from_byte_spec(value: u8) -> Self {
        if value == 0 {
            ExtendedLearnMode::Simple
        } else if value == 1 {
            ExtendedLearnMode::Advanced
        } else if value == 2 {
            ExtendedLearnMode::AdvancedSelectRepeater
        } else {
            ExtendedLearnMode::Other(value)
        }
    }

    /// The byte that encodes this value.
    pub open spec fn to_byte_spec(self) -> u8 {
        match self {
            ExtendedLearnMode::Simple => 0,
            ExtendedLearnMode::Advanced => 1,
            ExtendedLearnMode::AdvancedSelectRepeater => 2,
            ExtendedLearnMode::Other(value) => value,
        }
    }

    /// Decoding a byte and encoding the result gives back the byte.
    pub proof fn lemma_byte_roundtrip(value: u8)
        ensures
            Self::from_byte_spec(value).to_byte_spec() == value,
    {
    }
}

impl From<u8> for ExtendedLearnMode {
    fn from(value: u8) -> (ret: Self)
        ensures
            ret == ExtendedLearnMode::from_byte_spec(value),
    {
        match value {
            0 => ExtendedLearnMode::Simple,
            1 => ExtendedLearnMode::Advanced,
            2 => ExtendedLearnMode::AdvancedSelectRepeater,
            other => ExtendedLearnMode::Other(other),
        }
    }
}

impl vstd::std_specs::convert::FromSpecImpl<u8> for ExtendedLearnMode {
    open spec fn obeys_from_spec() -> bool {
        true
    }

    open spec fn from_spec(v: u8) -> ExtendedLearnMode {
        ExtendedLearnMode::from_byte_spec(v)
    }
}

impl From<ExtendedLearnMode> for u8 {
    fn from(value: ExtendedLearnMode) -> (ret: u8)
        ensures
            ret == value.to_byte_spec(),
    {
        match value {
            ExtendedLearnMode::Simple => 0,
            ExtendedLearnMode::Advanced => 1,
            ExtendedLearnMode::AdvancedSelectRepeater => 2,
            ExtendedLearnMode::Other(other) => other,
        }
    }
}

impl vstd::std_specs::convert::FromSpecImpl<ExtendedLearnMode> for u8 {
    open spec fn obeys_from_spec() -> bool {
        true
    }

    open spec fn from_spec(v: ExtendedLearnMode) -> u8 {
        v.to_byte_spec()
    }
}

/// Learn In/Out mode.
#[derive(Clone, Copy, Debug, PartialEq, Eq, Structural, Hash, PartialOrd, Ord)]
pub enum LearnInOut {
    LearnIn,
    LearnOut,
    Other(u8),
}

impl LearnInOut {
    /// The value decoded from a byte: the variant with that value, or `Other`.
    pub open spec fn from_byte_spec(value: u8) -> Self {
        if value == 0x00 {
            LearnInOut::LearnIn
        } else if value == 0x20 {
            LearnInOut::LearnOut
        } else {
            LearnInOut::Other(value)
        }
    }

    /// The byte that encodes this value.
    pub open spec fn to_byte_spec(self) -> u8 {
        match self {
            LearnInOut::LearnIn => 0x00,
            LearnInOut::LearnOut => 0x20,
            LearnInOut::Other(value) => value,
        }
    }

    /// Decoding a byte and encoding the result gives back the byte.
    pub proof fn lemma_byte_roundtrip(value: u8)
        ensures
            Self::from_byte_spec(value).to_byte_spec() == value,
    {
    }
}

impl From<u8> for LearnInOut {
    fn from(value: u8) -> (ret: Self)
        ensures
            ret == LearnInOut::from_byte_spec(value),
    {
        match value {
            0x00 => LearnInOut::LearnIn,
            0x20 => LearnInOut::LearnOut,
            other => LearnInOut::Other(other),
        }
    }
}

impl vstd::std_specs::convert::FromSpecImpl<u8> for LearnInOut {
    open spec fn obeys_from_spec() -> bool {
        true
    }

    open spec fn from_spec(v: u8) -> LearnInOut {
        LearnInOut::from_byte_spec(v)
    }
}

impl From<LearnInOut> for u8 {
    fn from(value: LearnInOut) -> (ret: u8)
        ensures
            ret == value.to_byte_spec(),
    {
        match value {
            LearnInOut::LearnIn => 0x00,
            LearnInOut::LearnOut => 0x20,
            LearnInOut::Other(other) => other,
        }
    }
}

impl vstd::std_specs::convert::FromSpecImpl<LearnInOut> for u8 {
    open spec fn obeys_from_spec() -> bool {
        true
    }

    open spec fn from_spec(v: LearnInOut) -> u8 {
        v.to_byte_spec()
    }
}

/// The status of a mailbox.
#[derive(Clone, Copy, Debug, PartialEq, Eq, Structural, Hash, PartialOrd, Ord)]
pub enum MailboxStatus {
    Empty,
    Full,
    DoesNotExist,
    Other(u8),
}

impl MailboxStatus {
    /// The value decoded from a byte: the variant with that value, or `Other`.
    pub open spec fn from_byte_spec(value: u8) -> Self {
        if value == 0 {
            MailboxStatus::Empty
        } else if value == 1 {
            MailboxStatus::Full
        } else if value == 2 {
            MailboxStatus::DoesNotExist
        } else {
            MailboxStatus::Other(value)
        }
    }

    /// The byte that encodes this value.
    pub open spec fn to_byte_spec(self) -> u8 {
        match self {
            MailboxStatus::Empty => 0,
            MailboxStatus::Full => 1,
            MailboxStatus::DoesNotExist => 2,
            MailboxStatus::Other(value) => value,
        }
    }

    /// Decoding a byte and encoding the result gives back the byte.
    pub proof fn lemma_byte_roundtrip(value: u8)
        ensures
            Self::from_byte_spec(value).to_byte_spec() == value,
    {
    }
}

impl From<u8> for MailboxStatus {
    fn from(value: u8) -> (ret: Self)
        ensures
            ret == MailboxStatus::from_byte_spec(value),
    {
        match value {
            0 => MailboxStatus::Empty,
            1 => MailboxStatus::Full,
            2 => MailboxStatus::DoesNotExist,
            other => MailboxStatus::Other(other),
        }
    }
}

impl vstd::std_specs::convert::FromSpecImpl<u8> for MailboxStatus {
    open spec fn obeys_from_spec() -> bool {
        true
    }

    open spec fn from_spec(v: u8) -> MailboxStatus {
        MailboxStatus::from_byte_spec(v)
    }
}

impl From<MailboxStatus> for u8 {
    fn from(value: MailboxStatus) -> (ret: u8)
        ensures
            ret == value.to_byte_spec(),
    {
        match value {
            MailboxStatus::Empty => 0,
            MailboxStatus::Full => 1,
            MailboxStatus::DoesNotExist => 2,
            MailboxStatus::Other(other) => other,
        }
    }
}

impl vstd::std_specs::convert::FromSpecImpl<MailboxStatus> for u8 {
    open spec fn obeys_from_spec() -> bool {
        true
    }

    open spec fn from_spec(v: MailboxStatus) -> u8 {
        v.to_byte_spec()
    }
}

/// The priority of a postmaster candidate, as a set of flags.
///
/// Only the four low bits carry flags; the others are always clear.
#[derive(Clone, Copy, Debug, PartialEq, Eq, Structural, Hash, PartialOrd, Ord)]
pub struct PostmasterPriority {
    bits: u8,
}

impl PostmasterPriority {
    /// The flag bit: the candidate is the local device.
    pub const LOCAL: u8 = 0x01;

    /// The flag bit: the candidate receives with a good signal strength.
    pub const GOOD_RSSI: u8 = 0x02;

    /// The flag bit: the candidate has a free mailbox place.
    pub const MAILBOX_PLACE: u8 = 0x04;

    /// The flag bit: the candidate is already a postmaster.
    pub const ALREADY_POSTMASTER: u8 = 0x08;

    /// The flags that a byte holds, with the undefined bits dropped.
    pub closed spec fn truncated(b: u8) -> PostmasterPriority {
        PostmasterPriority { bits: b & 0x0F }
    }

    /// The byte that holds the flags.
    pub closed spec fn bits_spec(self) -> u8 {
        self.bits
    }

    /// The flags that a byte holds, with the undefined bits dropped.
    pub fn from_bits_truncate(b: u8) -> (ret: Self)
        ensures
            ret == Self::truncated(b),
    {
        PostmasterPriority { bits: b & 0x0F }
    }

    /// The byte that holds the flags.
    pub fn bits(&self) -> (ret: u8)
        ensures
            ret == self.bits_spec(),
    {
        self.bits
    }

    /// Whether all the flags that `other` holds are set in these flags.
    pub fn contains(&self, other: PostmasterPriority) -> (ret: bool)
        ensures
            ret == (self.bits_spec() & other.bits_spec() == other.bits_spec()),
    {
        self.bits & other.bits == other.bits
    }

    /// Dropping the undefined bits of a byte leaves the bits that the result holds.
    pub proof fn lemma_truncated_bits(b: u8)
        ensures
            Self::truncated(b).bits_spec() == b & 0x0F,
            (b & 0x0F) < 16,
            b < 16 ==> Self::truncated(b).bits_spec() == b,
    {
        assert((b & 0x0F) < 16 && (b < 16 ==> b & 0x0F == b)) by (bit_vector);
    }

    /// Flags whose undefined bits are clear are what their byte holds.
    pub proof fn lemma_bits_truncated(self)
        requires
            self.bits_spec() < 16,
        ensures
            Self::truncated(self.bits_spec()) == self,
    {
        let b = self.bits;
        assert(b < 16 ==> b & 0x0F == b) by (bit_vector);
    }
}

impl From<bool> for OneByteBoolean {
    fn from(v: bool) -> (ret: Self)
        ensures
            ret == (if v { OneByteBoolean::Yes } else { OneByteBoolean::No }),
    {
        if v { OneByteBoolean::Yes } else { OneByteBoolean::No }
    }
}

impl vstd::std_specs::convert::FromSpecImpl<bool> for OneByteBoolean {
    open spec fn obeys_from_spec() -> bool {
        true
    }

    open spec fn from_spec(v: bool) -> OneByteBoolean {
        if v { OneByteBoolean::Yes } else { OneByteBoolean::No }
    }
}

} // verus!
