//! Commands for the PSP27801 OLED display combined with the SSD1351 display controller, and the
//! text rendering that is done with them.

use vstd::prelude::*;
use crate::bit_field::BitField;

pub mod settings;
pub mod text;
pub mod transfer;

use crate::display::settings::{
    ColorDepth, ComDeselectVoltage, DisplayInterface, DisplayMode, Divider, GeneralContrast, GpioState,
    PrechargePeriod, PrechargeVoltage, ProtectionLevel, ResetPeriod, ScrollTimeInterval,
    SecondPrechargePeriod,
};

verus! {

/// The width of the display RAM in pixels.
pub const RAM_WIDTH: usize = 128;

/// The height of the display RAM in pixels.
pub const RAM_HEIGHT: usize = 128;

/// The width of the actual display in pixels.
pub const DISPLAY_WIDTH: usize = 96;

/// The height of the actual display in pixels.
pub const DISPLAY_HEIGHT: usize = 96;

/// The horizontal offset of the window into display RAM that the display actually displays.
pub const DISPLAY_OFFSET_X: usize = (RAM_WIDTH - DISPLAY_WIDTH) / 2;

/// The vertical offset of the window into display RAM that the display actually displays.
pub const DISPLAY_OFFSET_Y: usize = 0;

/// The width of each character in the alphabet.
pub const LETTER_WIDTH: usize = 8;

/// The height of each character in the alphabet.
pub const LETTER_HEIGHT: usize = 12;

/// The maximum amount of letters per line, as allowed by display memory.
pub const MAX_LETTERS_PER_ROW: usize = DISPLAY_WIDTH / LETTER_WIDTH;

/// Number of bytes per pixel.
pub const COLOR_DEPTH: usize = 2;

/// The number of bytes of the alphabet bitmap: 96 characters of 8 by 12 pixels, one bit each.
pub const ALPHABET_BYTES: usize = 1152;

/// The given mask if the flag is set, else zero.
pub open spec fn bit_flag(flag: bool, mask: u8) -> u8 {
    if flag {
        mask
    } else {
        0
    }
}

/// A command to the display controller.
#[derive(Debug, PartialEq, Eq, Hash, PartialOrd, Ord)]
pub enum DisplayCommand<'a> {
    SetColumnAddress { first: u8, last: u8 },
    SetRowAddress { first: u8, last: u8 },
    WriteRam(&'a [u8]),
    ReadRam(&'a mut [u8]),
    SetRemap {
        vertical_increment: bool,
        reverse_columns: bool,
        reverse_colors: bool,
        reverse_com: bool,
        com_split: bool,
        color_depth: ColorDepth,
    },
    SetDisplayStartLine(u8),
    SetDisplayOffset(u8),
    SetDisplayMode(DisplayMode),
    FunctionSelection { internal_vdd: bool, interface: DisplayInterface },
    NopAD,
    SetSleepMode(bool),
    NopB0,
    SetPeriods { reset: ResetPeriod, precharge: PrechargePeriod },
    SetDisplayEnhancement(bool),
    SetFrontClock { divider: Divider, oscillator: u8 },
    SetGpio { gpio0: GpioState, gpio1: GpioState },
    SetSecondPrechargePeriod(SecondPrechargePeriod),
    SetGrayscaleTable([u8; 63]),
    ResetGrayscaleTable,
    SetPrechargeVoltage(PrechargeVoltage),
    SetComDeselectVoltage(ComDeselectVoltage),
    SetContrastPerColor { red_contrast: u8, green_contrast: u8, blue_contrast: u8 },
    SetGeneralContrast(GeneralContrast),
    SetMuxRatio(u8),
    NopD1,
    NopE3,
    SetProtectionLevel(ProtectionLevel),
    SetHorizontalScroll {
        speed_and_direction: u8,
        start_row: u8,
        row_count: u8,
        time_interval: ScrollTimeInterval,
    },
    StopHorizontalScroll,
    StartHorizontalScroll,
}

impl<'a> DisplayCommand<'a> {
    /// The command code sent to the controller for this command.
    pub open spec fn code_spec(&self) -> u8 {
        match self {
            DisplayCommand::SetColumnAddress { .. } => 0x15,
            DisplayCommand::SetRowAddress { .. } => 0x75,
            DisplayCommand::WriteRam(_) => 0x5C,
            DisplayCommand::ReadRam(_) => 0x5D,
            DisplayCommand::SetRemap { .. } => 0xA0,
            DisplayCommand::SetDisplayStartLine(_) => 0xA1,
            DisplayCommand::SetDisplayOffset(_) => 0xA2,
            DisplayCommand::SetDisplayMode(mode) => match mode {
                DisplayMode::AllOff => 0xA4,
                DisplayMode::AllOn => 0xA5,
                DisplayMode::Normal => 0xA6,
                DisplayMode::Inverse => 0xA7,
            },
            DisplayCommand::FunctionSelection { .. } => 0xAB,
            DisplayCommand::NopAD => 0xAD,
            DisplayCommand::SetSleepMode(sleep_on) => if *sleep_on {
                0xAE
            } else {
                0xAF
            },
            DisplayCommand::NopB0 => 0xB0,
            DisplayCommand::SetPeriods { .. } => 0xB1,
            DisplayCommand::SetDisplayEnhancement(_) => 0xB2,
            DisplayCommand::SetFrontClock { .. } => 0xB3,
            DisplayCommand::SetGpio { .. } => 0xB5,
            DisplayCommand::SetSecondPrechargePeriod(_) => 0xB6,
            DisplayCommand::SetGrayscaleTable(_) => 0xB8,
            DisplayCommand::ResetGrayscaleTable => 0xB9,
            DisplayCommand::SetPrechargeVoltage(_) => 0xBB,
            DisplayCommand::SetComDeselectVoltage(_) => 0xBE,
            DisplayCommand::SetContrastPerColor { .. } => 0xC1,
            DisplayCommand::SetGeneralContrast(_) => 0xC7,
            DisplayCommand::SetMuxRatio(_) => 0xCA,
            DisplayCommand::NopD1 => 0xD1,
            DisplayCommand::NopE3 => 0xE3,
            DisplayCommand::SetProtectionLevel(_) => 0xFD,
            DisplayCommand::SetHorizontalScroll { .. } => 0x96,
            DisplayCommand::StopHorizontalScroll => 0x9E,
            DisplayCommand::StartHorizontalScroll => 0x9F,
        }
    }

    /// Whether the data of this command is assembled in the caller's buffer (rather than taken
    /// from the command itself, or empty).
    pub open spec fn writes_buffer(&self) -> bool {
        match self {
            DisplayCommand::WriteRam(_) => false,
            DisplayCommand::ReadRam(_) => false,
            DisplayCommand::SetGrayscaleTable(_) => false,
            _ => self.data_spec().len() > 0,
        }
    }

    /// The data bytes sent to the controller after the command code.
    pub open spec fn data_spec(&self) -> Seq<u8> {
        match self {
            DisplayCommand::SetColumnAddress { first, last } => seq![*first, *last],
            DisplayCommand::SetRowAddress { first, last } => seq![*first, *last],
            DisplayCommand::WriteRam(data) => data@,
            DisplayCommand::ReadRam(data) => data@,
            DisplayCommand::SetRemap {
                vertical_increment,
                reverse_columns,
                reverse_colors,
                reverse_com,
                com_split,
                color_depth,
            } => seq![
                bit_flag(*vertical_increment, 0x01) | bit_flag(*reverse_columns, 0x02) | bit_flag(
                    *reverse_colors,
                    0x04,
                ) | bit_flag(*reverse_com, 0x10) | bit_flag(*com_split, 0x20) | (color_depth.to_byte_spec()
                    << 6u8),
            ],
            DisplayCommand::SetDisplayStartLine(line) => seq![*line],
            DisplayCommand::SetDisplayOffset(offset) => seq![*offset],
            DisplayCommand::FunctionSelection { internal_vdd, interface } => seq![
                bit_flag(*internal_vdd, 0x01) | (interface.to_byte_spec() << 6u8),
            ],
            DisplayCommand::SetPeriods { reset, precharge } => seq![
                reset.to_byte_spec() | (precharge.to_byte_spec() << 4u8),
            ],
            DisplayCommand::SetDisplayEnhancement(enabled) => seq![
                if *enabled {
                    0xA4u8
                } else {
                    0x00u8
                },
                0x00u8,
                0x00u8,
            ],
            DisplayCommand::SetFrontClock { divider, oscillator } => seq![
                divider.to_byte_spec() | (*oscillator << 4u8),
            ],
            DisplayCommand::SetGpio { gpio0, gpio1 } => seq![gpio0.to_byte_spec() | (gpio1.to_byte_spec() << 2u8)],
            DisplayCommand::SetSecondPrechargePeriod(spp) => seq![spp.to_byte_spec()],
            DisplayCommand::SetGrayscaleTable(table) => table@,
            DisplayCommand::SetPrechargeVoltage(pcv) => seq![pcv.to_byte_spec()],
            DisplayCommand::SetComDeselectVoltage(cdv) => seq![cdv.to_byte_spec()],
            DisplayCommand::SetContrastPerColor { red_contrast, green_contrast, blue_contrast } => seq![
                *red_contrast,
                *green_contrast,
                *blue_contrast,
            ],
            DisplayCommand::SetGeneralContrast(contrast) => seq![contrast.to_byte_spec()],
            DisplayCommand::SetMuxRatio(ratio) => seq![*ratio],
            DisplayCommand::SetProtectionLevel(protection) => seq![protection.to_byte_spec()],
            DisplayCommand::SetHorizontalScroll { speed_and_direction, start_row, row_count, time_interval } => seq![
                *speed_and_direction,
                *start_row,
                *row_count,
                0x00u8,
                time_interval.to_byte_spec(),
            ],
            _ => Seq::empty(),
        }
    }

    /// The command code sent to the controller for this command.
    pub fn code(&self) -> (ret: u8)
        ensures
            ret == self.code_spec(),
    {
        match self {
            DisplayCommand::SetColumnAddress { .. } => 0x15,
            DisplayCommand::SetRowAddress { .. } => 0x75,
            DisplayCommand::WriteRam(_) => 0x5C,
            DisplayCommand::ReadRam(_) => 0x5D,
            DisplayCommand::SetRemap { .. } => 0xA0,
            DisplayCommand::SetDisplayStartLine(_) => 0xA1,
            DisplayCommand::SetDisplayOffset(_) => 0xA2,
            DisplayCommand::SetDisplayMode(mode) => match mode {
                DisplayMode::AllOff => 0xA4,
                DisplayMode::AllOn => 0xA5,
                DisplayMode::Normal => 0xA6,
                DisplayMode::Inverse => 0xA7,
            },
            DisplayCommand::FunctionSelection { .. } => 0xAB,
            DisplayCommand::NopAD => 0xAD,
            DisplayCommand::SetSleepMode(sleep_on) => if *sleep_on {
                0xAE
            } else {
                0xAF
            },
            DisplayCommand::NopB0 => 0xB0,
            DisplayCommand::SetPeriods { .. } => 0xB1,
            DisplayCommand::SetDisplayEnhancement(_) => 0xB2,
            DisplayCommand::SetFrontClock { .. } => 0xB3,
            DisplayCommand::SetGpio { .. } => 0xB5,
            DisplayCommand::SetSecondPrechargePeriod(_) => 0xB6,
            DisplayCommand::SetGrayscaleTable(_) => 0xB8,
            DisplayCommand::ResetGrayscaleTable => 0xB9,
            DisplayCommand::SetPrechargeVoltage(_) => 0xBB,
            DisplayCommand::SetComDeselectVoltage(_) => 0xBE,
            DisplayCommand::SetContrastPerColor { .. } => 0xC1,
            DisplayCommand::SetGeneralContrast(_) => 0xC7,
            DisplayCommand::SetMuxRatio(_) => 0xCA,
            DisplayCommand::NopD1 => 0xD1,
            DisplayCommand::NopE3 => 0xE3,
            DisplayCommand::SetProtectionLevel(_) => 0xFD,
            DisplayCommand::SetHorizontalScroll { .. } => 0x96,
            DisplayCommand::StopHorizontalScroll => 0x9E,
            DisplayCommand::StartHorizontalScroll => 0x9F,
        }
    }

    /// Encodes the data of this command. Data that the command computes is assembled at the
    /// start of `buffer`, which must be long enough for it; data that the command carries is
    /// returned directly.
    #[verifier::rlimit(30)]
    pub fn encode_data<'b, 'c>(&'a self, buffer: &'b mut [u8]) -> (ret: &'c [u8]) where 'a: 'c, 'b: 'c
        requires
            self.writes_buffer() ==> old(buffer)@.len() >= self.data_spec().len(),
        ensures
            ret@ == self.data_spec(),
            self.writes_buffer() ==> final(buffer)@ == self.data_spec() + old(buffer)@.subrange(
                self.data_spec().len() as int,
                old(buffer)@.len() as int,
            ),
            !self.writes_buffer() ==> final(buffer)@ == old(buffer)@,
    {
        let n: usize = match self {
            DisplayCommand::SetColumnAddress { first, last } => {
                buffer[0] = *first;
                buffer[1] = *last;
                2
            },
            DisplayCommand::SetRowAddress { first, last } => {
                buffer[0] = *first;
                buffer[1] = *last;
                2
            },
            DisplayCommand::WriteRam(data) => {
                return *data;
            },
            DisplayCommand::ReadRam(data) => {
                return &data;
            },
            DisplayCommand::SetRemap {
                vertical_increment,
                reverse_columns,
                reverse_colors,
                reverse_com,
                com_split,
                color_depth,
            } => {
                buffer[0] = (if *vertical_increment { 0x01u8 } else { 0x00u8 }) | (if *reverse_columns {
                    0x02u8
                } else {
                    0x00u8
                }) | (if *reverse_colors { 0x04u8 } else { 0x00u8 }) | (if *reverse_com {
                    0x10u8
                } else {
                    0x00u8
                }) | (if *com_split { 0x20u8 } else { 0x00u8 }) | (u8::from(*color_depth) << 6u8);
                1
            },
            DisplayCommand::SetDisplayStartLine(line) => {
                buffer[0] = *line;
                1
            },
            DisplayCommand::SetDisplayOffset(offset) => {
                buffer[0] = *offset;
                1
            },
            DisplayCommand::FunctionSelection { internal_vdd, interface } => {
                buffer[0] = (if *internal_vdd { 0x01u8 } else { 0x00u8 }) | (u8::from(*interface) << 6u8);
                1
            },
            DisplayCommand::SetPeriods { reset, precharge } => {
                buffer[0] = u8::from(*reset) | (u8::from(*precharge) << 4u8);
                1
            },
            DisplayCommand::SetDisplayEnhancement(enabled) => {
                buffer[0] = if *enabled { 0xA4 } else { 0x00 };
                buffer[1] = 0x00;
                buffer[2] = 0x00;
                3
            },
            DisplayCommand::SetFrontClock { divider, oscillator } => {
                buffer[0] = u8::from(*divider) | (*oscillator << 4u8);
                1
            },
            DisplayCommand::SetGpio { gpio0, gpio1 } => {
                buffer[0] = u8::from(*gpio0) | (u8::from(*gpio1) << 2u8);
                1
            },
            DisplayCommand::SetSecondPrechargePeriod(spp) => {
                buffer[0] = u8::from(*spp);
                1
            },
            DisplayCommand::SetGrayscaleTable(table) => {
                return table.as_slice();
            },
            DisplayCommand::SetPrechargeVoltage(pcv) => {
                buffer[0] = u8::from(*pcv);
                1
            },
            DisplayCommand::SetComDeselectVoltage(cdv) => {
                buffer[0] = u8::from(*cdv);
                1
            },
            DisplayCommand::SetContrastPerColor { red_contrast, green_contrast, blue_contrast } => {
                buffer[0] = *red_contrast;
                buffer[1] = *green_contrast;
                buffer[2] = *blue_contrast;
                3
            },
            DisplayCommand::SetGeneralContrast(contrast) => {
                buffer[0] = u8::from(*contrast);
                1
            },
            DisplayCommand::SetMuxRatio(ratio) => {
                buffer[0] = *ratio;
                1
            },
            DisplayCommand::SetProtectionLevel(protection) => {
                buffer[0] = u8::from(*protection);
                1
            },
            DisplayCommand::SetHorizontalScroll { speed_and_direction, start_row, row_count, time_interval } => {
                buffer[0] = *speed_and_direction;
                buffer[1] = *start_row;
                buffer[2] = *row_count;
                buffer[3] = 0x00;
                buffer[4] = u8::from(*time_interval);
                5
            },
            _ => 0,
        };
        let ret: &'c [u8] = &buffer[0..n];
        assert(ret@ =~= self.data_spec());
        assert(buffer@ =~= self.data_spec() + old(buffer)@.subrange(n as int, old(buffer)@.len() as int));
        ret
    }
}

/// The display-mode commands take the codes 0xA4 to 0xA7, in the order of the mode numbers
/// (all pixels off, all pixels on, normal, inverse): the code minus 0xA4 is the mode's number,
/// and it reads back as the mode.
pub proof fn lemma_display_mode_code(mode: DisplayMode)
    ensures
        DisplayCommand::SetDisplayMode(mode).code_spec() == 0xA4 + mode.to_byte_spec(),
        DisplayMode::from_byte_spec((DisplayCommand::SetDisplayMode(mode).code_spec() - 0xA4) as u8)
            == Some(mode),
{
}

} // verus!
