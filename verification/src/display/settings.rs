//! Settings of the SSD1351 display controller and their byte values.

use vstd::prelude::*;

verus! {

/// The color depth of the display RAM.
#[derive(Clone, Copy, Debug, Eq, Hash, Ord, PartialEq, Structural, PartialOrd)]
pub enum ColorDepth {
    Colors65k,
    Colors262k,
    Colors262kFormat2,
}

impl ColorDepth {
    /// The byte that encodes this value.
    pub open spec fn to_byte_spec(self) -> u8 {
        match self {
            ColorDepth::Colors65k => 0,
            ColorDepth::Colors262k => 2,
            ColorDepth::Colors262kFormat2 => 3,
        }
    }

    /// The value encoded by a byte, if any.
    pub open spec fn from_byte_spec(value: u8) -> Option<Self> {
        if value == 0 {
            Some(ColorDepth::Colors65k)
        } else if value == 2 {
            Some(ColorDepth::Colors262k)
        } else if value == 3 {
            Some(ColorDepth::Colors262kFormat2)
        } else {
            None
        }
    }

    /// Decodes a byte; returns `None` if no variant has that value.
    pub fn from_byte(value: u8) -> (ret: Option<Self>)
        ensures
            ret == ColorDepth::from_byte_spec(value),
    {
        match value {
            0 => Some(ColorDepth::Colors65k),
            2 => Some(ColorDepth::Colors262k),
            3 => Some(ColorDepth::Colors262kFormat2),
            _ => None,
        }
    }

    /// Encoding a value and decoding the byte gives back the value.
    pub proof fn lemma_byte_roundtrip(self)
        ensures
            ColorDepth::from_byte_spec(self.to_byte_spec()) == Some(self),
    {
    }
}

impl From<ColorDepth> for u8 {
    fn from(value: ColorDepth) -> (ret: u8)
        ensures
            ret == value.to_byte_spec(),
    {
        match value {
            ColorDepth::Colors65k => 0,
            ColorDepth::Colors262k => 2,
            ColorDepth::Colors262kFormat2 => 3,
        }
    }
}

impl vstd::std_specs::convert::FromSpecImpl<ColorDepth> for u8 {
    open spec fn obeys_from_spec() -> bool {
        true
    }

    open spec fn from_spec(v: ColorDepth) -> u8 {
        v.to_byte_spec()
    }
}

/// What the display shows.
#[derive(Clone, Copy, Debug, Eq, Hash, Ord, PartialEq, Structural, PartialOrd)]
pub enum DisplayMode {
    AllOff,
    AllOn,
    Normal,
    Inverse,
}

impl DisplayMode {
    /// The byte that encodes this value.
    pub open spec fn to_byte_spec(self) -> u8 {
        match self {
            DisplayMode::AllOff => 0,
            DisplayMode::AllOn => 1,
            DisplayMode::Normal => 2,
            DisplayMode::Inverse => 3,
        }
    }

    /// The value encoded by a byte, if any.
    pub open spec fn from_byte_spec(value: u8) -> Option<Self> {
        if value == 0 {
            Some(DisplayMode::AllOff)
        } else if value == 1 {
            Some(DisplayMode::AllOn)
        } else if value == 2 {
            Some(DisplayMode::Normal)
        } else if value == 3 {
            Some(DisplayMode::Inverse)
        } else {
            None
        }
    }

    /// Decodes a byte; returns `None` if no variant has that value.
    pub fn from_byte(value: u8) -> (ret: Option<Self>)
        ensures
            ret == DisplayMode::from_byte_spec(value),
    {
        match value {
            0 => Some(DisplayMode::AllOff),
            1 => Some(DisplayMode::AllOn),
            2 => Some(DisplayMode::Normal),
            3 => Some(DisplayMode::Inverse),
            _ => None,
        }
    }

    /// Encoding a value and decoding the byte gives back the value.
    pub proof fn lemma_byte_roundtrip(self)
        ensures
            DisplayMode::from_byte_spec(self.to_byte_spec()) == Some(self),
    {
    }
}

impl From<DisplayMode> for u8 {
    fn from(value: DisplayMode) -> (ret: u8)
        ensures
            ret == value.to_byte_spec(),
    {
        match value {
            DisplayMode::AllOff => 0,
            DisplayMode::AllOn => 1,
            DisplayMode::Normal => 2,
            DisplayMode::Inverse => 3,
        }
    }
}

impl vstd::std_specs::convert::FromSpecImpl<DisplayMode> for u8 {
    open spec fn obeys_from_spec() -> bool {
        true
    }

    open spec fn from_spec(v: DisplayMode) -> u8 {
        v.to_byte_spec()
    }
}

impl Default for DisplayMode {
    fn default() -> (ret: Self)
        ensures
            ret == DisplayMode::Normal,
    {
        DisplayMode::Normal
    }
}

/// The interface through which the controller is connected.
#[derive(Clone, Copy, Debug, Eq, Hash, Ord, PartialEq, Structural, PartialOrd)]
pub enum DisplayInterface {
    Parallel8Bit,
    Parallel16Bit,
    Parallel18Bit,
}

impl DisplayInterface {
    /// The byte that encodes this value.
    pub open spec fn to_byte_spec(self) -> u8 {
        match self {
            DisplayInterface::Parallel8Bit => 0,
            DisplayInterface::Parallel16Bit => 1,
            DisplayInterface::Parallel18Bit => 3,
        }
    }

    /// The value encoded by a byte, if any.
    pub open spec fn from_byte_spec(value: u8) -> Option<Self> {
        if value == 0 {
            Some(DisplayInterface::Parallel8Bit)
        } else if value == 1 {
            Some(DisplayInterface::Parallel16Bit)
        } else if value == 3 {
            Some(DisplayInterface::Parallel18Bit)
        } else {
            None
        }
    }

    /// Decodes a byte; returns `None` if no variant has that value.
    pub fn from_byte(value: u8) -> (ret: Option<Self>)
        ensures
            ret == DisplayInterface::from_byte_spec(value),
    {
        match value {
            0 => Some(DisplayInterface::Parallel8Bit),
            1 => Some(DisplayInterface::Parallel16Bit),
            3 => Some(DisplayInterface::Parallel18Bit),
            _ => None,
        }
    }

    /// Encoding a value and decoding the byte gives back the value.
    pub proof fn lemma_byte_roundtrip(self)
        ensures
            DisplayInterface::from_byte_spec(self.to_byte_spec()) == Some(self),
    {
    }
}

impl From<DisplayInterface> for u8 {
    fn from(value: DisplayInterface) -> (ret: u8)
        ensures
            ret == value.to_byte_spec(),
    {
        match value {
            DisplayInterface::Parallel8Bit => 0,
            DisplayInterface::Parallel16Bit => 1,
            DisplayInterface::Parallel18Bit => 3,
        }
    }
}

impl vstd::std_specs::convert::FromSpecImpl<DisplayInterface> for u8 {
    open spec fn obeys_from_spec() -> bool {
        true
    }

    open spec fn from_spec(v: DisplayInterface) -> u8 {
        v.to_byte_spec()
    }
}

impl Default for DisplayInterface {
    fn default() -> (ret: Self)
        ensures
            ret == DisplayInterface::Parallel8Bit,
    {
        DisplayInterface::Parallel8Bit
    }
}

/// The length of the reset phase, in display clocks.
#[derive(Clone, Copy, Debug, Eq, Hash, Ord, PartialEq, Structural, PartialOrd)]
pub enum ResetPeriod {
    Period5,
    Period7,
    Period9,
    Period11,
    Period13,
    Period15,
    Period17,
    Period19,
    Period21,
    Period23,
    Period25,
    Period27,
    Period29,
    Period31,
}

impl ResetPeriod {
    /// The byte that encodes this value.
    pub open spec fn to_byte_spec(self) -> u8 {
        match self {
            ResetPeriod::Period5 => 2,
            ResetPeriod::Period7 => 3,
            ResetPeriod::Period9 => 4,
            ResetPeriod::Period11 => 5,
            ResetPeriod::Period13 => 6,
            ResetPeriod::Period15 => 7,
            ResetPeriod::Period17 => 8,
            ResetPeriod::Period19 => 9,
            ResetPeriod::Period21 => 10,
            ResetPeriod::Period23 => 11,
            ResetPeriod::Period25 => 12,
            ResetPeriod::Period27 => 13,
            ResetPeriod::Period29 => 14,
            ResetPeriod::Period31 => 15,
        }
    }

    /// The value encoded by a byte, if any.
    pub open spec fn from_byte_spec(value: u8) -> Option<Self> {
        if value == 2 {
            Some(ResetPeriod::Period5)
        } else if value == 3 {
            Some(ResetPeriod::Period7)
        } else if value == 4 {
            Some(ResetPeriod::Period9)
        } else if value == 5 {
            Some(ResetPeriod::Period11)
        } else if value == 6 {
            Some(ResetPeriod::Period13)
        } else if value == 7 {
            Some(ResetPeriod::Period15)
        } else if value == 8 {
            Some(ResetPeriod::Period17)
        } else if value == 9 {
            Some(ResetPeriod::Period19)
        } else if value == 10 {
            Some(ResetPeriod::Period21)
        } else if value == 11 {
            Some(ResetPeriod::Period23)
        } else if value == 12 {
            Some(ResetPeriod::Period25)
        } else if value == 13 {
            Some(ResetPeriod::Period27)
        } else if value == 14 {
            Some(ResetPeriod::Period29)
        } else if value == 15 {
            Some(ResetPeriod::Period31)
        } else {
            None
        }
    }

    /// Decodes a byte; returns `None` if no variant has that value.
    pub fn from_byte(value: u8) -> (ret: Option<Self>)
        ensures
            ret == ResetPeriod::from_byte_spec(value),
    {
        match value {
            2 => Some(ResetPeriod::Period5),
            3 => Some(ResetPeriod::Period7),
            4 => Some(ResetPeriod::Period9),
            5 => Some(ResetPeriod::Period11),
            6 => Some(ResetPeriod::Period13),
            7 => Some(ResetPeriod::Period15),
            8 => Some(ResetPeriod::Period17),
            9 => Some(ResetPeriod::Period19),
            10 => Some(ResetPeriod::Period21),
            11 => Some(ResetPeriod::Period23),
            12 => Some(ResetPeriod::Period25),
            13 => Some(ResetPeriod::Period27),
            14 => Some(ResetPeriod::Period29),
            15 => Some(ResetPeriod::Period31),
            _ => None,
        }
    }

    /// Encoding a value and decoding the byte gives back the value.
    pub proof fn lemma_byte_roundtrip(self)
        ensures
            ResetPeriod::from_byte_spec(self.to_byte_spec()) == Some(self),
    {
    }
}

impl From<ResetPeriod> for u8 {
    fn from(value: ResetPeriod) -> (ret: u8)
        ensures
            ret == value.to_byte_spec(),
    {
        match value {
            ResetPeriod::Period5 => 2,
            ResetPeriod::Period7 => 3,
            ResetPeriod::Period9 => 4,
            ResetPeriod::Period11 => 5,
            ResetPeriod::Period13 => 6,
            ResetPeriod::Period15 => 7,
            ResetPeriod::Period17 => 8,
            ResetPeriod::Period19 => 9,
            ResetPeriod::Period21 => 10,
            ResetPeriod::Period23 => 11,
            ResetPeriod::Period25 => 12,
            ResetPeriod::Period27 => 13,
            ResetPeriod::Period29 => 14,
            ResetPeriod::Period31 => 15,
        }
    }
}

impl vstd::std_specs::convert::FromSpecImpl<ResetPeriod> for u8 {
    open spec fn obeys_from_spec() -> bool {
        true
    }

    open spec fn from_spec(v: ResetPeriod) -> u8 {
        v.to_byte_spec()
    }
}

impl Default for ResetPeriod {
    fn default() -> (ret: Self)
        ensures
            ret == ResetPeriod::Period5,
    {
        ResetPeriod::Period5
    }
}

/// The length of the first precharge phase, in display clocks.
#[derive(Clone, Copy, Debug, Eq, Hash, Ord, PartialEq, Structural, PartialOrd)]
pub enum PrechargePeriod {
    Period3,
    Period4,
    Period5,
    Period6,
    Period7,
    Period8,
    Period9,
    Period10,
    Period11,
    Period12,
    Period13,
    Period14,
    Period15,
}

impl PrechargePeriod {
    /// The byte that encodes this value.
    pub open spec fn to_byte_spec(self) -> u8 {
        match self {
            PrechargePeriod::Period3 => 3,
            PrechargePeriod::Period4 => 4,
            PrechargePeriod::Period5 => 5,
            PrechargePeriod::Period6 => 6,
            PrechargePeriod::Period7 => 7,
            PrechargePeriod::Period8 => 8,
            PrechargePeriod::Period9 => 9,
            PrechargePeriod::Period10 => 10,
            PrechargePeriod::Period11 => 11,
            PrechargePeriod::Period12 => 12,
            PrechargePeriod::Period13 => 13,
            PrechargePeriod::Period14 => 14,
            PrechargePeriod::Period15 => 15,
        }
    }

    /// The value encoded by a byte, if any.
    pub open spec fn from_byte_spec(value: u8) -> Option<Self> {
        if value == 3 {
            Some(PrechargePeriod::Period3)
        } else if value == 4 {
            Some(PrechargePeriod::Period4)
        } else if value == 5 {
            Some(PrechargePeriod::Period5)
        } else if value == 6 {
            Some(PrechargePeriod::Period6)
        } else if value == 7 {
            Some(PrechargePeriod::Period7)
        } else if value == 8 {
            Some(PrechargePeriod::Period8)
        } else if value == 9 {
            Some(PrechargePeriod::Period9)
        } else if value == 10 {
            Some(PrechargePeriod::Period10)
        } else if value == 11 {
            Some(PrechargePeriod::Period11)
        } else if value == 12 {
            Some(PrechargePeriod::Period12)
        } else if value == 13 {
            Some(PrechargePeriod::Period13)
        } else if value == 14 {
            Some(PrechargePeriod::Period14)
        } else if value == 15 {
            Some(PrechargePeriod::Period15)
        } else {
            None
        }
    }

    /// Decodes a byte; returns `None` if no variant has that value.
    pub fn from_byte(value: u8) -> (ret: Option<Self>)
        ensures
            ret == PrechargePeriod::from_byte_spec(value),
    {
        match value {
            3 => Some(PrechargePeriod::Period3),
            4 => Some(PrechargePeriod::Period4),
            5 => Some(PrechargePeriod::Period5),
            6 => Some(PrechargePeriod::Period6),
            7 => Some(PrechargePeriod::Period7),
            8 => Some(PrechargePeriod::Period8),
            9 => Some(PrechargePeriod::Period9),
            10 => Some(PrechargePeriod::Period10),
            11 => Some(PrechargePeriod::Period11),
            12 => Some(PrechargePeriod::Period12),
            13 => Some(PrechargePeriod::Period13),
            14 => Some(PrechargePeriod::Period14),
            15 => Some(PrechargePeriod::Period15),
            _ => None,
        }
    }

    /// Encoding a value and decoding the byte gives back the value.
    pub proof fn lemma_byte_roundtrip(self)
        ensures
            PrechargePeriod::from_byte_spec(self.to_byte_spec()) == Some(self),
    {
    }
}

impl From<PrechargePeriod> for u8 {
    fn from(value: PrechargePeriod) -> (ret: u8)
        ensures
            ret == value.to_byte_spec(),
    {
        match value {
            PrechargePeriod::Period3 => 3,
            PrechargePeriod::Period4 => 4,
            PrechargePeriod::Period5 => 5,
            PrechargePeriod::Period6 => 6,
            PrechargePeriod::Period7 => 7,
            PrechargePeriod::Period8 => 8,
            PrechargePeriod::Period9 => 9,
            PrechargePeriod::Period10 => 10,
            PrechargePeriod::Period11 => 11,
            PrechargePeriod::Period12 => 12,
            PrechargePeriod::Period13 => 13,
            PrechargePeriod::Period14 => 14,
            PrechargePeriod::Period15 => 15,
        }
    }
}

impl vstd::std_specs::convert::FromSpecImpl<PrechargePeriod> for u8 {
    open spec fn obeys_from_spec() -> bool {
        true
    }

    open spec fn from_spec(v: PrechargePeriod) -> u8 {
        v.to_byte_spec()
    }
}

impl Default for PrechargePeriod {
    fn default() -> (ret: Self)
        ensures
            ret == PrechargePeriod::Period8,
    {
        PrechargePeriod::Period8
    }
}

/// The divider applied to the display clock.
#[derive(Clone, Copy, Debug, Eq, Hash, Ord, PartialEq, Structural, PartialOrd)]
pub enum Divider {
    DivideBy1,
    DivideBy2,
    DivideBy4,
    DivideBy8,
    DivideBy16,
    DivideBy32,
    DivideBy64,
    DivideBy128,
    DivideBy256,
    DivideBy512,
    DivideBy1024,
}

impl Divider {
    /// The byte that encodes this value.
    pub open spec fn to_byte_spec(self) -> u8 {
        match self {
            Divider::DivideBy1 => 0,
            Divider::DivideBy2 => 1,
            Divider::DivideBy4 => 2,
            Divider::DivideBy8 => 3,
            Divider::DivideBy16 => 4,
            Divider::DivideBy32 => 5,
            Divider::DivideBy64 => 6,
            Divider::DivideBy128 => 7,
            Divider::DivideBy256 => 8,
            Divider::DivideBy512 => 9,
            Divider::DivideBy1024 => 10,
        }
    }

    /// The value encoded by a byte, if any.
    pub open spec fn from_byte_spec(value: u8) -> Option<Self> {
        if value == 0 {
            Some(Divider::DivideBy1)
        } else if value == 1 {
            Some(Divider::DivideBy2)
        } else if value == 2 {
            Some(Divider::DivideBy4)
        } else if value == 3 {
            Some(Divider::DivideBy8)
        } else if value == 4 {
            Some(Divider::DivideBy16)
        } else if value == 5 {
            Some(Divider::DivideBy32)
        } else if value == 6 {
            Some(Divider::DivideBy64)
        } else if value == 7 {
            Some(Divider::DivideBy128)
        } else if value == 8 {
            Some(Divider::DivideBy256)
        } else if value == 9 {
            Some(Divider::DivideBy512)
        } else if value == 10 {
            Some(Divider::DivideBy1024)
        } else {
            None
        }
    }

    /// Decodes a byte; returns `None` if no variant has that value.
    pub fn from_byte(value: u8) -> (ret: Option<Self>)
        ensures
            ret == Divider::from_byte_spec(value),
    {
        match value {
            0 => Some(Divider::DivideBy1),
            1 => Some(Divider::DivideBy2),
            2 => Some(Divider::DivideBy4),
            3 => Some(Divider::DivideBy8),
            4 => Some(Divider::DivideBy16),
            5 => Some(Divider::DivideBy32),
            6 => Some(Divider::DivideBy64),
            7 => Some(Divider::DivideBy128),
            8 => Some(Divider::DivideBy256),
            9 => Some(Divider::DivideBy512),
            10 => Some(Divider::DivideBy1024),
            _ => None,
        }
    }

    /// Encoding a value and decoding the byte gives back the value.
    pub proof fn lemma_byte_roundtrip(self)
        ensures
            Divider::from_byte_spec(self.to_byte_spec()) == Some(self),
    {
    }
}

impl From<Divider> for u8 {
    fn from(value: Divider) -> (ret: u8)
        ensures
            ret == value.to_byte_spec(),
    {
        match value {
            Divider::DivideBy1 => 0,
            Divider::DivideBy2 => 1,
            Divider::DivideBy4 => 2,
            Divider::DivideBy8 => 3,
            Divider::DivideBy16 => 4,
            Divider::DivideBy32 => 5,
            Divider::DivideBy64 => 6,
            Divider::DivideBy128 => 7,
            Divider::DivideBy256 => 8,
            Divider::DivideBy512 => 9,
            Divider::DivideBy1024 => 10,
        }
    }
}

impl vstd::std_specs::convert::FromSpecImpl<Divider> for u8 {
    open spec fn obeys_from_spec() -> bool {
        true
    }

    open spec fn from_spec(v: Divider) -> u8 {
        v.to_byte_spec()
    }
}

impl Default for Divider {
    fn default() -> (ret: Self)
        ensures
            ret == Divider::DivideBy2,
    {
        Divider::DivideBy2
    }
}

/// The state of a general-purpose pin of the controller.
#[derive(Clone, Copy, Debug, Eq, Hash, Ord, PartialEq, Structural, PartialOrd)]
pub enum GpioState {
    HiZInputDisabled,
    HiZInputEnabled,
    OutputLow,
    OutputHigh,
}

impl GpioState {
    /// The byte that encodes this value.
    pub open spec fn to_byte_spec(self) -> u8 {
        match self {
            GpioState::HiZInputDisabled => 0,
            GpioState::HiZInputEnabled => 1,
            GpioState::OutputLow => 2,
            GpioState::OutputHigh => 3,
        }
    }

    /// The value encoded by a byte, if any.
    pub open spec fn from_byte_spec(value: u8) -> Option<Self> {
        if value == 0 {
            Some(GpioState::HiZInputDisabled)
        } else if value == 1 {
            Some(GpioState::HiZInputEnabled)
        } else if value == 2 {
            Some(GpioState::OutputLow)
        } else if value == 3 {
            Some(GpioState::OutputHigh)
        } else {
            None
        }
    }

    /// Decodes a byte; returns `None` if no variant has that value.
    pub fn from_byte(value: u8) -> (ret: Option<Self>)
        ensures
            ret == GpioState::from_byte_spec(value),
    {
        match value {
            0 => Some(GpioState::HiZInputDisabled),
            1 => Some(GpioState::HiZInputEnabled),
            2 => Some(GpioState::OutputLow),
            3 => Some(GpioState::OutputHigh),
            _ => None,
        }
    }

    /// Encoding a value and decoding the byte gives back the value.
    pub proof fn lemma_byte_roundtrip(self)
        ensures
            GpioState::from_byte_spec(self.to_byte_spec()) == Some(self),
    {
    }
}

impl From<GpioState> for u8 {
    fn from(value: GpioState) -> (ret: u8)
        ensures
            ret == value.to_byte_spec(),
    {
        match value {
            GpioState::HiZInputDisabled => 0,
            GpioState::HiZInputEnabled => 1,
            GpioState::OutputLow => 2,
            GpioState::OutputHigh => 3,
        }
    }
}

impl vstd::std_specs::convert::FromSpecImpl<GpioState> for u8 {
    open spec fn obeys_from_spec() -> bool {
        true
    }

    open spec fn from_spec(v: GpioState) -> u8 {
        v.to_byte_spec()
    }
}

impl Default for GpioState {
    fn default() -> (ret: Self)
        ensures
            ret == GpioState::OutputLow,
    {
        GpioState::OutputLow
    }
}

/// The length of the second precharge phase, in display clocks.
#[derive(Clone, Copy, Debug, Eq, Hash, Ord, PartialEq, Structural, PartialOrd)]
pub enum SecondPrechargePeriod {
    Period1,
    Period2,
    Period3,
    Period4,
    Period5,
    Period6,
    Period7,
    Period8,
    Period9,
    Period10,
    Period11,
    Period12,
    Period13,
    Period14,
    Period15,
}

impl SecondPrechargePeriod {
    /// The byte that encodes this value.
    pub open spec fn to_byte_spec(self) -> u8 {
        match self {
            SecondPrechargePeriod::Period1 => 1,
            SecondPrechargePeriod::Period2 => 2,
            SecondPrechargePeriod::Period3 => 3,
            SecondPrechargePeriod::Period4 => 4,
            SecondPrechargePeriod::Period5 => 5,
            SecondPrechargePeriod::Period6 => 6,
            SecondPrechargePeriod::Period7 => 7,
            SecondPrechargePeriod::Period8 => 8,
            SecondPrechargePeriod::Period9 => 9,
            SecondPrechargePeriod::Period10 => 10,
            SecondPrechargePeriod::Period11 => 11,
            SecondPrechargePeriod::Period12 => 12,
            SecondPrechargePeriod::Period13 => 13,
            SecondPrechargePeriod::Period14 => 14,
            SecondPrechargePeriod::Period15 => 15,
        }
    }

    /// The value encoded by a byte, if any.
    pub open spec fn from_byte_spec(value: u8) -> Option<Self> {
        if value == 1 {
            Some(SecondPrechargePeriod::Period1)
        } else if value == 2 {
            Some(SecondPrechargePeriod::Period2)
        } else if value == 3 {
            Some(SecondPrechargePeriod::Period3)
        } else if value == 4 {
            Some(SecondPrechargePeriod::Period4)
        } else if value == 5 {
            Some(SecondPrechargePeriod::Period5)
        } else if value == 6 {
            Some(SecondPrechargePeriod::Period6)
        } else if value == 7 {
            Some(SecondPrechargePeriod::Period7)
        } else if value == 8 {
            Some(SecondPrechargePeriod::Period8)
        } else if value == 9 {
            Some(SecondPrechargePeriod::Period9)
        } else if value == 10 {
            Some(SecondPrechargePeriod::Period10)
        } else if value == 11 {
            Some(SecondPrechargePeriod::Period11)
        } else if value == 12 {
            Some(SecondPrechargePeriod::Period12)
        } else if value == 13 {
            Some(SecondPrechargePeriod::Period13)
        } else if value == 14 {
            Some(SecondPrechargePeriod::Period14)
        } else if value == 15 {
            Some(SecondPrechargePeriod::Period15)
        } else {
            None
        }
    }

    /// Decodes a byte; returns `None` if no variant has that value.
    pub fn from_byte(value: u8) -> (ret: Option<Self>)
        ensures
            ret == SecondPrechargePeriod::from_byte_spec(value),
    {
        match value {
            1 => Some(SecondPrechargePeriod::Period1),
            2 => Some(SecondPrechargePeriod::Period2),
            3 => Some(SecondPrechargePeriod::Period3),
            4 => Some(SecondPrechargePeriod::Period4),
            5 => Some(SecondPrechargePeriod::Period5),
            6 => Some(SecondPrechargePeriod::Period6),
            7 => Some(SecondPrechargePeriod::Period7),
            8 => Some(SecondPrechargePeriod::Period8),
            9 => Some(SecondPrechargePeriod::Period9),
            10 => Some(SecondPrechargePeriod::Period10),
            11 => Some(SecondPrechargePeriod::Period11),
            12 => Some(SecondPrechargePeriod::Period12),
            13 => Some(SecondPrechargePeriod::Period13),
            14 => Some(SecondPrechargePeriod::Period14),
            15 => Some(SecondPrechargePeriod::Period15),
            _ => None,
        }
    }

    /// Encoding a value and decoding the byte gives back the value.
    pub proof fn lemma_byte_roundtrip(self)
        ensures
            SecondPrechargePeriod::from_byte_spec(self.to_byte_spec()) == Some(self),
    {
    }
}

impl From<SecondPrechargePeriod> for u8 {
    fn from(value: SecondPrechargePeriod) -> (ret: u8)
        ensures
            ret == value.to_byte_spec(),
    {
        match value {
            SecondPrechargePeriod::Period1 => 1,
            SecondPrechargePeriod::Period2 => 2,
            SecondPrechargePeriod::Period3 => 3,
            SecondPrechargePeriod::Period4 => 4,
            SecondPrechargePeriod::Period5 => 5,
            SecondPrechargePeriod::Period6 => 6,
            SecondPrechargePeriod::Period7 => 7,
            SecondPrechargePeriod::Period8 => 8,
            SecondPrechargePeriod::Period9 => 9,
            SecondPrechargePeriod::Period10 => 10,
            SecondPrechargePeriod::Period11 => 11,
            SecondPrechargePeriod::Period12 => 12,
            SecondPrechargePeriod::Period13 => 13,
            SecondPrechargePeriod::Period14 => 14,
            SecondPrechargePeriod::Period15 => 15,
        }
    }
}

impl vstd::std_specs::convert::FromSpecImpl<SecondPrechargePeriod> for u8 {
    open spec fn obeys_from_spec() -> bool {
        true
    }

    open spec fn from_spec(v: SecondPrechargePeriod) -> u8 {
        v.to_byte_spec()
    }
}

impl Default for SecondPrechargePeriod {
    fn default() -> (ret: Self)
        ensures
            ret == SecondPrechargePeriod::Period8,
    {
        SecondPrechargePeriod::Period8
    }
}

/// The precharge voltage, relative to the supply voltage.
#[derive(Clone, Copy, Debug, Eq, Hash, Ord, PartialEq, Structural, PartialOrd)]
pub enum PrechargeVoltage {
    VccTimes1By5,
    VccTimes33By155,
    VccTimes7By31,
    VccTimes37By155,
    VccTimes39By155,
    VccTimes41By155,
    VccTimes43By155,
    VccTimes9By31,
    VccTimes47By155,
    VccTimes49By155,
    VccTimes51By155,
    VccTimes53By155,
    VccTimes11By31,
    VccTimes57By155,
    VccTimes59By155,
    VccTimes61By155,
    VccTimes63By155,
    VccTimes13By31,
    VccTimes67By155,
    VccTimes69By155,
    VccTimes71By155,
    VccTimes73By155,
    VccTimes15By31,
    VccTimes77By155,
    VccTimes79By155,
    VccTimes81By155,
    VccTimes83By155,
    VccTimes17By31,
    VccTimes87By155,
    VccTimes89By155,
    VccTimes91By155,
    VccTimes3By5,
}

impl PrechargeVoltage {
    /// The byte that encodes this value.
    pub open spec fn to_byte_spec(self) -> u8 {
        match self {
            PrechargeVoltage::VccTimes1By5 => 0,
            PrechargeVoltage::VccTimes33By155 => 1,
            PrechargeVoltage::VccTimes7By31 => 2,
            PrechargeVoltage::VccTimes37By155 => 3,
            PrechargeVoltage::VccTimes39By155 => 4,
            PrechargeVoltage::VccTimes41By155 => 5,
            PrechargeVoltage::VccTimes43By155 => 6,
            PrechargeVoltage::VccTimes9By31 => 7,
            PrechargeVoltage::VccTimes47By155 => 8,
            PrechargeVoltage::VccTimes49By155 => 9,
            PrechargeVoltage::VccTimes51By155 => 10,
            PrechargeVoltage::VccTimes53By155 => 11,
            PrechargeVoltage::VccTimes11By31 => 12,
            PrechargeVoltage::VccTimes57By155 => 13,
            PrechargeVoltage::VccTimes59By155 => 14,
            PrechargeVoltage::VccTimes61By155 => 15,
            PrechargeVoltage::VccTimes63By155 => 16,
            PrechargeVoltage::VccTimes13By31 => 17,
            PrechargeVoltage::VccTimes67By155 => 18,
            PrechargeVoltage::VccTimes69By155 => 19,
            PrechargeVoltage::VccTimes71By155 => 20,
            PrechargeVoltage::VccTimes73By155 => 21,
            PrechargeVoltage::VccTimes15By31 => 22,
            PrechargeVoltage::VccTimes77By155 => 23,
            PrechargeVoltage::VccTimes79By155 => 24,
            PrechargeVoltage::VccTimes81By155 => 25,
            PrechargeVoltage::VccTimes83By155 => 26,
            PrechargeVoltage::VccTimes17By31 => 27,
            PrechargeVoltage::VccTimes87By155 => 28,
            PrechargeVoltage::VccTimes89By155 => 29,
            PrechargeVoltage::VccTimes91By155 => 30,
            PrechargeVoltage::VccTimes3By5 => 31,
        }
    }

    /// The value encoded by a byte, if any.
    pub open spec fn from_byte_spec(value: u8) -> Option<Self> {
        if value == 0 {
            Some(PrechargeVoltage::VccTimes1By5)
        } else if value == 1 {
            Some(PrechargeVoltage::VccTimes33By155)
        } else if value == 2 {
            Some(PrechargeVoltage::VccTimes7By31)
        } else if value == 3 {
            Some(PrechargeVoltage::VccTimes37By155)
        } else if value == 4 {
            Some(PrechargeVoltage::VccTimes39By155)
        } else if value == 5 {
            Some(PrechargeVoltage::VccTimes41By155)
        } else if value == 6 {
            Some(PrechargeVoltage::VccTimes43By155)
        } else if value == 7 {
            Some(PrechargeVoltage::VccTimes9By31)
        } else if value == 8 {
            Some(PrechargeVoltage::VccTimes47By155)
        } else if value == 9 {
            Some(PrechargeVoltage::VccTimes49By155)
        } else if value == 10 {
            Some(PrechargeVoltage::VccTimes51By155)
        } else if value == 11 {
            Some(PrechargeVoltage::VccTimes53By155)
        } else if value == 12 {
            Some(PrechargeVoltage::VccTimes11By31)
        } else if value == 13 {
            Some(PrechargeVoltage::VccTimes57By155)
        } else if value == 14 {
            Some(PrechargeVoltage::VccTimes59By155)
        } else if value == 15 {
            Some(PrechargeVoltage::VccTimes61By155)
        } else if value == 16 {
            Some(PrechargeVoltage::VccTimes63By155)
        } else if value == 17 {
            Some(PrechargeVoltage::VccTimes13By31)
        } else if value == 18 {
            Some(PrechargeVoltage::VccTimes67By155)
        } else if value == 19 {
            Some(PrechargeVoltage::VccTimes69By155)
        } else if value == 20 {
            Some(PrechargeVoltage::VccTimes71By155)
        } else if value == 21 {
            Some(PrechargeVoltage::VccTimes73By155)
        } else if value == 22 {
            Some(PrechargeVoltage::VccTimes15By31)
        } else if value == 23 {
            Some(PrechargeVoltage::VccTimes77By155)
        } else if value == 24 {
            Some(PrechargeVoltage::VccTimes79By155)
        } else if value == 25 {
            Some(PrechargeVoltage::VccTimes81By155)
        } else if value == 26 {
            Some(PrechargeVoltage::VccTimes83By155)
        } else if value == 27 {
            Some(PrechargeVoltage::VccTimes17By31)
        } else if value == 28 {
            Some(PrechargeVoltage::VccTimes87By155)
        } else if value == 29 {
            Some(PrechargeVoltage::VccTimes89By155)
        } else if value == 30 {
            Some(PrechargeVoltage::VccTimes91By155)
        } else if value == 31 {
            Some(PrechargeVoltage::VccTimes3By5)
        } else {
            None
        }
    }

    /// Decodes a byte; returns `None` if no variant has that value.
    pub fn from_byte(value: u8) -> (ret: Option<Self>)
        ensures
            ret == PrechargeVoltage::from_byte_spec(value),
    {
        match value {
            0 => Some(PrechargeVoltage::VccTimes1By5),
            1 => Some(PrechargeVoltage::VccTimes33By155),
            2 => Some(PrechargeVoltage::VccTimes7By31),
            3 => Some(PrechargeVoltage::VccTimes37By155),
            4 => Some(PrechargeVoltage::VccTimes39By155),
            5 => Some(PrechargeVoltage::VccTimes41By155),
            6 => Some(PrechargeVoltage::VccTimes43By155),
            7 => Some(PrechargeVoltage::VccTimes9By31),
            8 => Some(PrechargeVoltage::VccTimes47By155),
            9 => Some(PrechargeVoltage::VccTimes49By155),
            10 => Some(PrechargeVoltage::VccTimes51By155),
            11 => Some(PrechargeVoltage::VccTimes53By155),
            12 => Some(PrechargeVoltage::VccTimes11By31),
            13 => Some(PrechargeVoltage::VccTimes57By155),
            14 => Some(PrechargeVoltage::VccTimes59By155),
            15 => Some(PrechargeVoltage::VccTimes61By155),
            16 => Some(PrechargeVoltage::VccTimes63By155),
            17 => Some(PrechargeVoltage::VccTimes13By31),
            18 => Some(PrechargeVoltage::VccTimes67By155),
            19 => Some(PrechargeVoltage::VccTimes69By155),
            20 => Some(PrechargeVoltage::VccTimes71By155),
            21 => Some(PrechargeVoltage::VccTimes73By155),
            22 => Some(PrechargeVoltage::VccTimes15By31),
            23 => Some(PrechargeVoltage::VccTimes77By155),
            24 => Some(PrechargeVoltage::VccTimes79By155),
            25 => Some(PrechargeVoltage::VccTimes81By155),
            26 => Some(PrechargeVoltage::VccTimes83By155),
            27 => Some(PrechargeVoltage::VccTimes17By31),
            28 => Some(PrechargeVoltage::VccTimes87By155),
            29 => Some(PrechargeVoltage::VccTimes89By155),
            30 => Some(PrechargeVoltage::VccTimes91By155),
            31 => Some(PrechargeVoltage::VccTimes3By5),
            _ => None,
        }
    }

    /// Encoding a value and decoding the byte gives back the value.
    pub proof fn lemma_byte_roundtrip(self)
        ensures
            PrechargeVoltage::from_byte_spec(self.to_byte_spec()) == Some(self),
    {
    }
}

impl From<PrechargeVoltage> for u8 {
    fn from(value: PrechargeVoltage) -> (ret: u8)
        ensures
            ret == value.to_byte_spec(),
    {
        match value {
            PrechargeVoltage::VccTimes1By5 => 0,
            PrechargeVoltage::VccTimes33By155 => 1,
            PrechargeVoltage::VccTimes7By31 => 2,
            PrechargeVoltage::VccTimes37By155 => 3,
            PrechargeVoltage::VccTimes39By155 => 4,
            PrechargeVoltage::VccTimes41By155 => 5,
            PrechargeVoltage::VccTimes43By155 => 6,
            PrechargeVoltage::VccTimes9By31 => 7,
            PrechargeVoltage::VccTimes47By155 => 8,
            PrechargeVoltage::VccTimes49By155 => 9,
            PrechargeVoltage::VccTimes51By155 => 10,
            PrechargeVoltage::VccTimes53By155 => 11,
            PrechargeVoltage::VccTimes11By31 => 12,
            PrechargeVoltage::VccTimes57By155 => 13,
            PrechargeVoltage::VccTimes59By155 => 14,
            PrechargeVoltage::VccTimes61By155 => 15,
            PrechargeVoltage::VccTimes63By155 => 16,
            PrechargeVoltage::VccTimes13By31 => 17,
            PrechargeVoltage::VccTimes67By155 => 18,
            PrechargeVoltage::VccTimes69By155 => 19,
            PrechargeVoltage::VccTimes71By155 => 20,
            PrechargeVoltage::VccTimes73By155 => 21,
            PrechargeVoltage::VccTimes15By31 => 22,
            PrechargeVoltage::VccTimes77By155 => 23,
            PrechargeVoltage::VccTimes79By155 => 24,
            PrechargeVoltage::VccTimes81By155 => 25,
            PrechargeVoltage::VccTimes83By155 => 26,
            PrechargeVoltage::VccTimes17By31 => 27,
            PrechargeVoltage::VccTimes87By155 => 28,
            PrechargeVoltage::VccTimes89By155 => 29,
            PrechargeVoltage::VccTimes91By155 => 30,
            PrechargeVoltage::VccTimes3By5 => 31,
        }
    }
}

impl vstd::std_specs::convert::FromSpecImpl<PrechargeVoltage> for u8 {
    open spec fn obeys_from_spec() -> bool {
        true
    }

    open spec fn from_spec(v: PrechargeVoltage) -> u8 {
        v.to_byte_spec()
    }
}

impl Default for PrechargeVoltage {
    fn default() -> (ret: Self)
        ensures
            ret == PrechargeVoltage::VccTimes77By155,
    {
        PrechargeVoltage::VccTimes77By155
    }
}

/// The COM deselect voltage, relative to the supply voltage.
#[derive(Clone, Copy, Debug, Eq, Hash, Ord, PartialEq, Structural, PartialOrd)]
pub enum ComDeselectVoltage {
    VccTimes0Point72,
    VccTimes0Point74,
    VccTimes0Point76,
    VccTimes0Point78,
    VccTimes0Point80,
    VccTimes0Point82,
    VccTimes0Point84,
    VccTimes0Point86,
}

impl ComDeselectVoltage {
    /// The byte that encodes this value.
    pub open spec fn to_byte_spec(self) -> u8 {
        match self {
            ComDeselectVoltage::VccTimes0Point72 => 0,
            ComDeselectVoltage::VccTimes0Point74 => 1,
            ComDeselectVoltage::VccTimes0Point76 => 2,
            ComDeselectVoltage::VccTimes0Point78 => 3,
            ComDeselectVoltage::VccTimes0Point80 => 4,
            ComDeselectVoltage::VccTimes0Point82 => 5,
            ComDeselectVoltage::VccTimes0Point84 => 6,
            ComDeselectVoltage::VccTimes0Point86 => 7,
        }
    }

    /// The value encoded by a byte, if any.
    pub open spec fn from_byte_spec(value: u8) -> Option<Self> {
        if value == 0 {
            Some(ComDeselectVoltage::VccTimes0Point72)
        } else if value == 1 {
            Some(ComDeselectVoltage::VccTimes0Point74)
        } else if value == 2 {
            Some(ComDeselectVoltage::VccTimes0Point76)
        } else if value == 3 {
            Some(ComDeselectVoltage::VccTimes0Point78)
        } else if value == 4 {
            Some(ComDeselectVoltage::VccTimes0Point80)
        } else if value == 5 {
            Some(ComDeselectVoltage::VccTimes0Point82)
        } else if value == 6 {
            Some(ComDeselectVoltage::VccTimes0Point84)
        } else if value == 7 {
            Some(ComDeselectVoltage::VccTimes0Point86)
        } else {
            None
        }
    }

    /// Decodes a byte; returns `None` if no variant has that value.
    pub fn from_byte(value: u8) -> (ret: Option<Self>)
        ensures
            ret == ComDeselectVoltage::from_byte_spec(value),
    {
        match value {
            0 => Some(ComDeselectVoltage::VccTimes0Point72),
            1 => Some(ComDeselectVoltage::VccTimes0Point74),
            2 => Some(ComDeselectVoltage::VccTimes0Point76),
            3 => Some(ComDeselectVoltage::VccTimes0Point78),
            4 => Some(ComDeselectVoltage::VccTimes0Point80),
            5 => Some(ComDeselectVoltage::VccTimes0Point82),
            6 => Some(ComDeselectVoltage::VccTimes0Point84),
            7 => Some(ComDeselectVoltage::VccTimes0Point86),
            _ => None,
        }
    }

    /// Encoding a value and decoding the byte gives back the value.
    pub proof fn lemma_byte_roundtrip(self)
        ensures
            ComDeselectVoltage::from_byte_spec(self.to_byte_spec()) == Some(self),
    {
    }
}

impl From<ComDeselectVoltage> for u8 {
    fn from(value: ComDeselectVoltage) -> (ret: u8)
        ensures
            ret == value.to_byte_spec(),
    {
        match value {
            ComDeselectVoltage::VccTimes0Point72 => 0,
            ComDeselectVoltage::VccTimes0Point74 => 1,
            ComDeselectVoltage::VccTimes0Point76 => 2,
            ComDeselectVoltage::VccTimes0Point78 => 3,
            ComDeselectVoltage::VccTimes0Point80 => 4,
            ComDeselectVoltage::VccTimes0Point82 => 5,
            ComDeselectVoltage::VccTimes0Point84 => 6,
            ComDeselectVoltage::VccTimes0Point86 => 7,
        }
    }
}

impl vstd::std_specs::convert::FromSpecImpl<ComDeselectVoltage> for u8 {
    open spec fn obeys_from_spec() -> bool {
        true
    }

    open spec fn from_spec(v: ComDeselectVoltage) -> u8 {
        v.to_byte_spec()
    }
}

impl Default for ComDeselectVoltage {
    fn default() -> (ret: Self)
        ensures
            ret == ComDeselectVoltage::VccTimes0Point82,
    {
        ComDeselectVoltage::VccTimes0Point82
    }
}

/// The contrast applied to all colors.
#[derive(Clone, Copy, Debug, Eq, Hash, Ord, PartialEq, Structural, PartialOrd)]
pub enum GeneralContrast {
    Contrast1By16,
    Contrast2By16,
    Contrast3By16,
    Contrast4By16,
    Contrast5By16,
    Contrast6By16,
    Contrast7By16,
    Contrast8By16,
    Contrast9By16,
    Contrast10By16,
    Contrast11By16,
    Contrast12By16,
    Contrast13By16,
    Contrast14By16,
    Contrast15By16,
    FullContrast,
}

impl GeneralContrast {
    /// The byte that encodes this value.
    pub open spec fn to_byte_spec(self) -> u8 {
        match self {
            GeneralContrast::Contrast1By16 => 0,
            GeneralContrast::Contrast2By16 => 1,
            GeneralContrast::Contrast3By16 => 2,
            GeneralContrast::Contrast4By16 => 3,
            GeneralContrast::Contrast5By16 => 4,
            GeneralContrast::Contrast6By16 => 5,
            GeneralContrast::Contrast7By16 => 6,
            GeneralContrast::Contrast8By16 => 7,
            GeneralContrast::Contrast9By16 => 8,
            GeneralContrast::Contrast10By16 => 9,
            GeneralContrast::Contrast11By16 => 10,
            GeneralContrast::Contrast12By16 => 11,
            GeneralContrast::Contrast13By16 => 12,
            GeneralContrast::Contrast14By16 => 13,
            GeneralContrast::Contrast15By16 => 14,
            GeneralContrast::FullContrast => 15,
        }
    }

    /// The value encoded by a byte, if any.
    pub open spec fn from_byte_spec(value: u8) -> Option<Self> {
        if value == 0 {
            Some(GeneralContrast::Contrast1By16)
        } else if value == 1 {
            Some(GeneralContrast::Contrast2By16)
        } else if value == 2 {
            Some(GeneralContrast::Contrast3By16)
        } else if value == 3 {
            Some(GeneralContrast::Contrast4By16)
        } else if value == 4 {
            Some(GeneralContrast::Contrast5By16)
        } else if value == 5 {
            Some(GeneralContrast::Contrast6By16)
        } else if value == 6 {
            Some(GeneralContrast::Contrast7By16)
        } else if value == 7 {
            Some(GeneralContrast::Contrast8By16)
        } else if value == 8 {
            Some(GeneralContrast::Contrast9By16)
        } else if value == 9 {
            Some(GeneralContrast::Contrast10By16)
        } else if value == 10 {
            Some(GeneralContrast::Contrast11By16)
        } else if value == 11 {
            Some(GeneralContrast::Contrast12By16)
        } else if value == 12 {
            Some(GeneralContrast::Contrast13By16)
        } else if value == 13 {
            Some(GeneralContrast::Contrast14By16)
        } else if value == 14 {
            Some(GeneralContrast::Contrast15By16)
        } else if value == 15 {
            Some(GeneralContrast::FullContrast)
        } else {
            None
        }
    }

    /// Decodes a byte; returns `None` if no variant has that value.
    pub fn from_byte(value: u8) -> (ret: Option<Self>)
        ensures
            ret == GeneralContrast::from_byte_spec(value),
    {
        match value {
            0 => Some(GeneralContrast::Contrast1By16),
            1 => Some(GeneralContrast::Contrast2By16),
            2 => Some(GeneralContrast::Contrast3By16),
            3 => Some(GeneralContrast::Contrast4By16),
            4 => Some(GeneralContrast::Contrast5By16),
            5 => Some(GeneralContrast::Contrast6By16),
            6 => Some(GeneralContrast::Contrast7By16),
            7 => Some(GeneralContrast::Contrast8By16),
            8 => Some(GeneralContrast::Contrast9By16),
            9 => Some(GeneralContrast::Contrast10By16),
            10 => Some(GeneralContrast::Contrast11By16),
            11 => Some(GeneralContrast::Contrast12By16),
            12 => Some(GeneralContrast::Contrast13By16),
            13 => Some(GeneralContrast::Contrast14By16),
            14 => Some(GeneralContrast::Contrast15By16),
            15 => Some(GeneralContrast::FullContrast),
            _ => None,
        }
    }

    /// Encoding a value and decoding the byte gives back the value.
    pub proof fn lemma_byte_roundtrip(self)
        ensures
            GeneralContrast::from_byte_spec(self.to_byte_spec()) == Some(self),
    {
    }
}

impl From<GeneralContrast> for u8 {
    fn from(value: GeneralContrast) -> (ret: u8)
        ensures
            ret == value.to_byte_spec(),
    {
        match value {
            GeneralContrast::Contrast1By16 => 0,
            GeneralContrast::Contrast2By16 => 1,
            GeneralContrast::Contrast3By16 => 2,
            GeneralContrast::Contrast4By16 => 3,
            GeneralContrast::Contrast5By16 => 4,
            GeneralContrast::Contrast6By16 => 5,
            GeneralContrast::Contrast7By16 => 6,
            GeneralContrast::Contrast8By16 => 7,
            GeneralContrast::Contrast9By16 => 8,
            GeneralContrast::Contrast10By16 => 9,
            GeneralContrast::Contrast11By16 => 10,
            GeneralContrast::Contrast12By16 => 11,
            GeneralContrast::Contrast13By16 => 12,
            GeneralContrast::Contrast14By16 => 13,
            GeneralContrast::Contrast15By16 => 14,
            GeneralContrast::FullContrast => 15,
        }
    }
}

impl vstd::std_specs::convert::FromSpecImpl<GeneralContrast> for u8 {
    open spec fn obeys_from_spec() -> bool {
        true
    }

    open spec fn from_spec(v: GeneralContrast) -> u8 {
        v.to_byte_spec()
    }
}

impl Default for GeneralContrast {
    fn default() -> (ret: Self)
        ensures
            ret == GeneralContrast::FullContrast,
    {
        GeneralContrast::FullContrast
    }
}

/// Which commands the controller accepts.
#[derive(Clone, Copy, Debug, Eq, Hash, Ord, PartialEq, Structural, PartialOrd)]
pub enum ProtectionLevel {
    UnlockCommands,
    LockCommands,
    LockAdvancedCommands,
    UnlockAdvancedCommands,
}

impl ProtectionLevel {
    /// The byte that encodes this value.
    pub open spec fn to_byte_spec(self) -> u8 {
        match self {
            ProtectionLevel::UnlockCommands => 18,
            ProtectionLevel::LockCommands => 22,
            ProtectionLevel::LockAdvancedCommands => 176,
            ProtectionLevel::UnlockAdvancedCommands => 177,
        }
    }

    /// The value encoded by a byte, if any.
    pub open spec fn from_byte_spec(value: u8) -> Option<Self> {
        if value == 18 {
            Some(ProtectionLevel::UnlockCommands)
        } else if value == 22 {
            Some(ProtectionLevel::LockCommands)
        } else if value == 176 {
            Some(ProtectionLevel::LockAdvancedCommands)
        } else if value == 177 {
            Some(ProtectionLevel::UnlockAdvancedCommands)
        } else {
            None
        }
    }

    /// Decodes a byte; returns `None` if no variant has that value.
    pub fn from_byte(value: u8) -> (ret: Option<Self>)
        ensures
            ret == ProtectionLevel::from_byte_spec(value),
    {
        match value {
            18 => Some(ProtectionLevel::UnlockCommands),
            22 => Some(ProtectionLevel::LockCommands),
            176 => Some(ProtectionLevel::LockAdvancedCommands),
            177 => Some(ProtectionLevel::UnlockAdvancedCommands),
            _ => None,
        }
    }

    /// Encoding a value and decoding the byte gives back the value.
    pub proof fn lemma_byte_roundtrip(self)
        ensures
            ProtectionLevel::from_byte_spec(self.to_byte_spec()) == Some(self),
    {
    }
}

impl From<ProtectionLevel> for u8 {
    fn from(value: ProtectionLevel) -> (ret: u8)
        ensures
            ret == value.to_byte_spec(),
    {
        match value {
            ProtectionLevel::UnlockCommands => 18,
            ProtectionLevel::LockCommands => 22,
            ProtectionLevel::LockAdvancedCommands => 176,
            ProtectionLevel::UnlockAdvancedCommands => 177,
        }
    }
}

impl vstd::std_specs::convert::FromSpecImpl<ProtectionLevel> for u8 {
    open spec fn obeys_from_spec() -> bool {
        true
    }

    open spec fn from_spec(v: ProtectionLevel) -> u8 {
        v.to_byte_spec()
    }
}

impl Default for ProtectionLevel {
    fn default() -> (ret: Self)
        ensures
            ret == ProtectionLevel::UnlockAdvancedCommands,
    {
        ProtectionLevel::UnlockAdvancedCommands
    }
}

/// The time between scroll steps, in frames.
#[derive(Clone, Copy, Debug, Eq, Hash, Ord, PartialEq, Structural, PartialOrd)]
pub enum ScrollTimeInterval {
    TestMode,
    Normal,
    Slow,
    Slowest,
}

impl ScrollTimeInterval {
    /// The byte that encodes this value.
    pub open spec fn to_byte_spec(self) -> u8 {
        match self {
            ScrollTimeInterval::TestMode => 0,
            ScrollTimeInterval::Normal => 1,
            ScrollTimeInterval::Slow => 2,
            ScrollTimeInterval::Slowest => 3,
        }
    }

    /// The value encoded by a byte, if any.
    pub open spec fn from_byte_spec(value: u8) -> Option<Self> {
        if value == 0 {
            Some(ScrollTimeInterval::TestMode)
        } else if value == 1 {
            Some(ScrollTimeInterval::Normal)
        } else if value == 2 {
            Some(ScrollTimeInterval::Slow)
        } else if value == 3 {
            Some(ScrollTimeInterval::Slowest)
        } else {
            None
        }
    }

    /// Decodes a byte; returns `None` if no variant has that value.
    pub fn from_byte(value: u8) -> (ret: Option<Self>)
        ensures
            ret == ScrollTimeInterval::from_byte_spec(value),
    {
        match value {
            0 => Some(ScrollTimeInterval::TestMode),
            1 => Some(ScrollTimeInterval::Normal),
            2 => Some(ScrollTimeInterval::Slow),
            3 => Some(ScrollTimeInterval::Slowest),
            _ => None,
        }
    }

    /// Encoding a value and decoding the byte gives back the value.
    pub proof fn lemma_byte_roundtrip(self)
        ensures
            ScrollTimeInterval::from_byte_spec(self.to_byte_spec()) == Some(self),
    {
    }
}

impl From<ScrollTimeInterval> for u8 {
    fn from(value: ScrollTimeInterval) -> (ret: u8)
        ensures
            ret == value.to_byte_spec(),
    {
        match value {
            ScrollTimeInterval::TestMode => 0,
            ScrollTimeInterval::Normal => 1,
            ScrollTimeInterval::Slow => 2,
            ScrollTimeInterval::Slowest => 3,
        }
    }
}

impl vstd::std_specs::convert::FromSpecImpl<ScrollTimeInterval> for u8 {
    open spec fn obeys_from_spec() -> bool {
        true
    }

    open spec fn from_spec(v: ScrollTimeInterval) -> u8 {
        v.to_byte_spec()
    }
}

} // verus!
