//! The transfers that drive the display: each is a command byte (sent while D/C is low) followed
//! by its argument bytes (sent while D/C is high).
//!
//! The functions here decide what is sent and return it; moving the bytes over the bus (chip
//! select, the D/C line and the SPI clock) is left to the caller.

use vstd::prelude::*;
use crate::bit_field::BitField;
use crate::display::{
    DisplayCommand, ALPHABET_BYTES, COLOR_DEPTH, DISPLAY_HEIGHT, DISPLAY_OFFSET_X, DISPLAY_OFFSET_Y,
    DISPLAY_WIDTH, LETTER_HEIGHT, LETTER_WIDTH, MAX_LETTERS_PER_ROW,
};
use crate::display::text::{char_by_index, char_index, str_to_char_indexes};

verus! {

/// The command code that writes pixel data into display RAM.
pub const WRITE_RAM_CODE: u8 = 0x5C;

/// The number of bytes of pixel data of a single letter.
pub const LETTER_BYTES: usize = 192;

/// One transfer to the display controller: a command byte, then its argument bytes.
#[derive(Clone, Debug, PartialEq, Eq)]
pub struct LowLevelCommand {
    pub command: u8,
    pub args: Vec<u8>,
}

impl View for LowLevelCommand {
    type V = (u8, Seq<u8>);

    open spec fn view(&self) -> (u8, Seq<u8>) {
        (self.command, self.args@)
    }
}

/// The command bytes and argument bytes of a list of transfers, in order.
pub open spec fn transfers_view(transfers: Seq<LowLevelCommand>) -> Seq<(u8, Seq<u8>)> {
    transfers.map_values(|t: LowLevelCommand| t@)
}

/// Appending a transfer appends its bytes.
proof fn lemma_transfers_push(transfers: Seq<LowLevelCommand>, t: LowLevelCommand)
    ensures
        transfers_view(transfers.push(t)) == transfers_view(transfers).push(t@),
{
    assert(transfers_view(transfers.push(t)) =~= transfers_view(transfers).push(t@));
}

/// Appending a list of transfers appends their bytes.
proof fn lemma_transfers_add(transfers: Seq<LowLevelCommand>, more: Seq<LowLevelCommand>)
    ensures
        transfers_view(transfers + more) == transfers_view(transfers) + transfers_view(more),
{
    assert(transfers_view(transfers + more) =~= transfers_view(transfers) + transfers_view(more));
}

/// The transfer that sends a command: its code, then its data.
pub open spec fn command_transfer_spec(command: &DisplayCommand) -> (u8, Seq<u8>) {
    (command.code_spec(), command.data_spec())
}

/// Sends a command to the controller: returns the transfer that carries it, its code and then
/// its data. The data that the command computes is assembled in a buffer of six bytes.
pub fn send_command(command: &DisplayCommand) -> (ret: LowLevelCommand)
    requires
        command.writes_buffer() ==> command.data_spec().len() <= 6,
    ensures
        ret@ == command_transfer_spec(command),
{
    let code = command.code();
    let mut buf = [0u8; 6];
    let data = command.encode_data(&mut buf);
    let mut args: Vec<u8> = Vec::new();
    let mut i: usize = 0;
    while i < data.len()
        invariant
            i <= data@.len(),
            args@ == data@.subrange(0, i as int),
        decreases data@.len() - i,
    {
        args.push(data[i]);
        i += 1;
        assert(args@ == data@.subrange(0, i as int));
    }
    assert(data@.subrange(0, data@.len() as int) == data@);
    LowLevelCommand { command: code, args }
}

/// The transfers that select the whole visible area of display RAM: the columns are centered in
/// RAM, the rows start at the top.
pub open spec fn default_dimensions_spec() -> Seq<(u8, Seq<u8>)> {
    seq![
        (0x15u8, seq![DISPLAY_OFFSET_X as u8, (DISPLAY_OFFSET_X + DISPLAY_WIDTH - 1) as u8]),
        (0x75u8, seq![DISPLAY_OFFSET_Y as u8, (DISPLAY_OFFSET_Y + DISPLAY_HEIGHT - 1) as u8]),
    ]
}

/// Selects the whole visible area of display RAM: returns the transfers that do so.
pub fn set_default_dimensions() -> (ret: Vec<LowLevelCommand>)
    ensures
        transfers_view(ret@) == default_dimensions_spec(),
{
    let mut ret: Vec<LowLevelCommand> = Vec::new();
    let columns = send_command(
        &DisplayCommand::SetColumnAddress {
            first: DISPLAY_OFFSET_X as u8,
            last: (DISPLAY_OFFSET_X + DISPLAY_WIDTH - 1) as u8,
        },
    );
    let rows = send_command(
        &DisplayCommand::SetRowAddress {
            first: DISPLAY_OFFSET_Y as u8,
            last: (DISPLAY_OFFSET_Y + DISPLAY_HEIGHT - 1) as u8,
        },
    );
    proof {
        lemma_transfers_push(ret@, columns);
    }
    ret.push(columns);
    proof {
        lemma_transfers_push(ret@, rows);
    }
    ret.push(rows);
    assert(transfers_view(ret@) =~= default_dimensions_spec());
    ret
}

/// The transfers that prepare the display once it has been powered and reset: select the visible
/// area, paint all of it black, and wake the display up.
pub open spec fn init_display_spec() -> Seq<(u8, Seq<u8>)> {
    default_dimensions_spec() + seq![
        (WRITE_RAM_CODE, Seq::new((DISPLAY_WIDTH * DISPLAY_HEIGHT * COLOR_DEPTH) as nat, |k: int| 0u8)),
        (0xAFu8, Seq::<u8>::empty()),
    ]
}

/// Initializes the display once it has been powered and reset: returns the transfers that
/// select the visible area, paint it black and wake the display up.
pub fn init_display() -> (ret: Vec<LowLevelCommand>)
    ensures
        transfers_view(ret@) == init_display_spec(),
{
    let mut ret = set_default_dimensions();
    let black: Vec<u8> = vec![0u8; DISPLAY_WIDTH * DISPLAY_HEIGHT * COLOR_DEPTH];
    let clear = LowLevelCommand { command: WRITE_RAM_CODE, args: black };
    assert(clear@.1 =~= Seq::new((DISPLAY_WIDTH * DISPLAY_HEIGHT * COLOR_DEPTH) as nat, |k: int| 0u8));
    proof {
        lemma_transfers_push(ret@, clear);
    }
    ret.push(clear);
    let wake = send_command(&DisplayCommand::SetSleepMode(false));
    proof {
        lemma_transfers_push(ret@, wake);
    }
    ret.push(wake);
    assert(transfers_view(ret@) =~= init_display_spec());
    ret
}

/// The pixel data of a letter: for each pixel of its glyph, row by row and each row from left to
/// right, the foreground color if the pixel is set and the background color if not.
pub open spec fn glyph_colors(alphabet: Seq<bool>, index: int, fg: Seq<u8>, bg: Seq<u8>) -> Seq<u8> {
    Seq::new(
        LETTER_BYTES as nat,
        |k: int|
            if alphabet[index * 96 + k / 2] {
                fg[k % 2]
            } else {
                bg[k % 2]
            },
    )
}

/// Builds the pixel data of the letter with the given alphabet index.
fn glyph_transfer(alphabet: &BitField<ALPHABET_BYTES>, index: usize, fg: [u8; COLOR_DEPTH], bg: [u8; COLOR_DEPTH]) -> (ret:
    LowLevelCommand)
    requires
        index < 96,
    ensures
        ret@ == (WRITE_RAM_CODE, glyph_colors(alphabet@, index as int, fg@, bg@)),
{
    let glyph = char_by_index(alphabet, index);
    let ghost expected = glyph_colors(alphabet@, index as int, fg@, bg@);
    let mut colors: Vec<u8> = Vec::new();
    let mut row: usize = 0;
    while row < LETTER_HEIGHT
        invariant
            row <= LETTER_HEIGHT,
            index < 96,
            expected == glyph_colors(alphabet@, index as int, fg@, bg@),
            forall|r: int, c: int|
                0 <= r < LETTER_HEIGHT && 0 <= c < LETTER_WIDTH ==> #[trigger] glyph@[r]@[c]
                    == alphabet@[index * 96 + r * 8 + c],
            colors@.len() == 16 * row,
            forall|k: int| 0 <= k < colors@.len() ==> #[trigger] colors@[k] == expected[k],
        decreases LETTER_HEIGHT - row,
    {
        let line = glyph[row];
        let mut col: usize = 0;
        while col < LETTER_WIDTH
            invariant
                col <= LETTER_WIDTH,
                row < LETTER_HEIGHT,
                index < 96,
                expected == glyph_colors(alphabet@, index as int, fg@, bg@),
                line@ == glyph@[row as int]@,
                forall|r: int, c: int|
                    0 <= r < LETTER_HEIGHT && 0 <= c < LETTER_WIDTH ==> #[trigger] glyph@[r]@[c]
                        == alphabet@[index * 96 + r * 8 + c],
                colors@.len() == 16 * row + 2 * col,
                forall|k: int| 0 <= k < colors@.len() ==> #[trigger] colors@[k] == expected[k],
            decreases LETTER_WIDTH - col,
        {
            let color = if line[col] {
                fg
            } else {
                bg
            };
            let ghost n = colors@.len() as int;
            proof {
                let p = 8 * row + col;
                assert(n / 2 == p && (n + 1) / 2 == p && n % 2 == 0 && (n + 1) % 2 == 1);
                assert(line@[col as int] == alphabet@[index * 96 + row * 8 + col]);
            }
            colors.push(color[0]);
            colors.push(color[1]);
            col += 1;
        }
        row += 1;
    }
    assert(colors@ =~= expected);
    LowLevelCommand { command: WRITE_RAM_CODE, args: colors }
}

/// The transfers that paint the letter at the given position of a line: select its columns and
/// rows of display RAM, then write its pixel data.
pub open spec fn letter_transfers(
    x: u32,
    y: u32,
    i: int,
    index: int,
    fg: Seq<u8>,
    bg: Seq<u8>,
    alphabet: Seq<bool>,
) -> Seq<(u8, Seq<u8>)> {
    let first_col = x + i * LETTER_WIDTH;
    seq![
        (0x15u8, seq![(DISPLAY_OFFSET_X + first_col) as u8, (DISPLAY_OFFSET_X + first_col + LETTER_WIDTH - 1) as u8]),
        (0x75u8, seq![(DISPLAY_OFFSET_Y + y) as u8, (DISPLAY_OFFSET_Y + y + LETTER_HEIGHT - 1) as u8]),
        (WRITE_RAM_CODE, glyph_colors(alphabet, index, fg, bg)),
    ]
}

/// The transfers that paint the first `n` letters of a line of text.
pub open spec fn letters_transfers(
    x: u32,
    y: u32,
    text: Seq<char>,
    fg: Seq<u8>,
    bg: Seq<u8>,
    alphabet: Seq<bool>,
    n: nat,
) -> Seq<(u8, Seq<u8>)>
    decreases n,
{
    if n == 0 {
        Seq::empty()
    } else {
        letters_transfers(x, y, text, fg, bg, alphabet, (n - 1) as nat) + letter_transfers(
            x,
            y,
            n - 1,
            char_index(text[n - 1]) as int,
            fg,
            bg,
            alphabet,
        )
    }
}

/// The number of letters of a line that are painted: those of the first characters (as many as
/// fit on a line) whose first column is still on the display.
pub open spec fn drawn_letters(x: u32, char_count: nat) -> nat {
    if x > DISPLAY_WIDTH {
        0
    } else {
        let fitting = ((DISPLAY_WIDTH - x) / (LETTER_WIDTH as int) + 1) as nat;
        if char_count < fitting {
            char_count
        } else {
            fitting
        }
    }
}

/// The transfers that write a line of text at the given position, then select the whole visible
/// area again; nothing is sent if the line starts below the display.
pub open spec fn write_line_spec(
    x: u32,
    y: u32,
    fg: Seq<u8>,
    bg: Seq<u8>,
    text: Seq<char>,
    alphabet: Seq<bool>,
) -> Seq<(u8, Seq<u8>)> {
    if y > DISPLAY_HEIGHT {
        Seq::empty()
    } else {
        let char_count = if text.len() < MAX_LETTERS_PER_ROW {
            text.len()
        } else {
            MAX_LETTERS_PER_ROW as nat
        };
        letters_transfers(x, y, text, fg, bg, alphabet, drawn_letters(x, char_count))
            + default_dimensions_spec()
    }
}

/// Writes a line of text at the given pixel position in the given colors, using the given
/// alphabet: returns the transfers that do so.
pub fn write_line(
    x: u32,
    y: u32,
    fg_color: [u8; COLOR_DEPTH],
    bg_color: [u8; COLOR_DEPTH],
    text: &str,
    alphabet: &BitField<ALPHABET_BYTES>,
) -> (ret: Vec<LowLevelCommand>)
    ensures
        transfers_view(ret@) == write_line_spec(x, y, fg_color@, bg_color@, text@, alphabet@),
{
    let (char_indexes, char_count) = str_to_char_indexes(text);
    let mut ret: Vec<LowLevelCommand> = Vec::new();
    if y as usize > DISPLAY_HEIGHT {
        assert(transfers_view(ret@) =~= Seq::<(u8, Seq<u8>)>::empty());
        return ret;
    }
    let mut i: usize = 0;
    while i < char_count
        invariant_except_break
            i <= char_count,
            char_count <= MAX_LETTERS_PER_ROW,
            char_count == if text@.len() < MAX_LETTERS_PER_ROW { text@.len() } else { MAX_LETTERS_PER_ROW as nat },
            forall|j: int| 0 <= j < char_count ==> #[trigger] char_indexes@[j] == char_index(text@[j]),
            y <= DISPLAY_HEIGHT,
            i == 0 || x + (i - 1) * 8 <= DISPLAY_WIDTH,
            transfers_view(ret@) == letters_transfers(x, y, text@, fg_color@, bg_color@, alphabet@, i as nat),
        ensures
            i == drawn_letters(x, char_count as nat),
            transfers_view(ret@) == letters_transfers(x, y, text@, fg_color@, bg_color@, alphabet@, i as nat),
        decreases char_count - i,
    {
        let first_col: u32 = x + (i * LETTER_WIDTH) as u32;
        if first_col as usize > DISPLAY_WIDTH {
            break;
        }
        let index = char_indexes[i];
        proof {
            assert(index == char_index(text@[i as int]));
        }
        let columns = send_command(
            &DisplayCommand::SetColumnAddress {
                first: (DISPLAY_OFFSET_X + first_col as usize) as u8,
                last: (DISPLAY_OFFSET_X + first_col as usize + LETTER_WIDTH - 1) as u8,
            },
        );
        let rows = send_command(
            &DisplayCommand::SetRowAddress {
                first: (DISPLAY_OFFSET_Y + y as usize) as u8,
                last: (DISPLAY_OFFSET_Y + y as usize + LETTER_HEIGHT - 1) as u8,
            },
        );
        let pixels = glyph_transfer(alphabet, index, fg_color, bg_color);
        let ghost before = transfers_view(ret@);
        proof {
            lemma_transfers_push(ret@, columns);
        }
        ret.push(columns);
        proof {
            lemma_transfers_push(ret@, rows);
        }
        ret.push(rows);
        proof {
            lemma_transfers_push(ret@, pixels);
        }
        ret.push(pixels);
        proof {
            let letter = letter_transfers(x, y, i as int, index as int, fg_color@, bg_color@, alphabet@);
            assert(transfers_view(ret@) =~= before + letter);
        }
        i += 1;
    }
    let mut dims = set_default_dimensions();
    proof {
        lemma_transfers_add(ret@, dims@);
    }
    ret.append(&mut dims);
    ret
}

} // verus!
