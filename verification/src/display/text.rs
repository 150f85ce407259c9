//! Rendering text with the built-in alphabet.

use vstd::prelude::*;
use crate::bit_field::BitField;
use crate::display::{ALPHABET_BYTES, LETTER_HEIGHT, LETTER_WIDTH, MAX_LETTERS_PER_ROW};

verus! {

/// The index into the alphabet of the glyph that shows a character: printable ASCII characters
/// from the space onwards, then the degree sign; every other character shows as a question mark.
pub open spec fn char_index(c: char) -> usize {
    if c == '\u{B0}' {
        0x5F
    } else if '\u{20}' <= c && c <= '\u{7E}' {
        (c as u32 - 0x20) as usize
    } else {
        0x1Fusize
    }
}

/// Converts the characters of a line of text into alphabet indexes.
///
/// Returns the indexes of the first characters (as many as fit on a line; the remaining entries
/// are zero) and the number of those characters.
pub fn str_to_char_indexes(text: &str) -> (ret: ([usize; MAX_LETTERS_PER_ROW], usize))
    ensures
        ret.1 == if text@.len() < MAX_LETTERS_PER_ROW { text@.len() } else { MAX_LETTERS_PER_ROW as nat },
        forall|i: int| 0 <= i < ret.1 ==> #[trigger] ret.0@[i] == char_index(text@[i]),
        forall|i: int| ret.1 <= i < MAX_LETTERS_PER_ROW ==> #[trigger] ret.0@[i] == 0,
{
    let mut ret = [0usize; MAX_LETTERS_PER_ROW];
    let len = text.unicode_len();
    let count = if len < MAX_LETTERS_PER_ROW { len } else { MAX_LETTERS_PER_ROW };
    let mut i: usize = 0;
    while i < count
        invariant
            i <= count,
            count <= MAX_LETTERS_PER_ROW,
            count <= len,
            len == text@.len(),
            forall|j: int| 0 <= j < i ==> #[trigger] ret@[j] == char_index(text@[j]),
            forall|j: int| i <= j < MAX_LETTERS_PER_ROW ==> #[trigger] ret@[j] == 0,
        decreases count - i,
    {
        let c = text.get_char(i);
        if c == '\u{B0}' {
            ret[i] = 0x5F;
        } else if c >= '\u{20}' && c <= '\u{7E}' {
            ret[i] = (c as u32 - 0x20) as usize;
        } else {
            ret[i] = 0x3F - 0x20;
        }
        i += 1;
    }
    (ret, count)
}

/// The pixels of a glyph of the alphabet: row by row, each row from left to right, the bit at
/// `index * 96 + row * 8 + col` of the alphabet.
pub fn char_by_index(alphabet: &BitField<ALPHABET_BYTES>, index: usize) -> (ret: [[bool; LETTER_WIDTH];
    LETTER_HEIGHT])
    requires
        index < 96,
    ensures
        forall|row: int, col: int|
            0 <= row < LETTER_HEIGHT && 0 <= col < LETTER_WIDTH ==> #[trigger] ret@[row]@[col]
                == alphabet@[index * 96 + row * 8 + col],
{
    proof { alphabet.lemma_len(); }
    let mut ret = [[false; LETTER_WIDTH]; LETTER_HEIGHT];
    let mut i = index * LETTER_WIDTH * LETTER_HEIGHT;
    let mut row: usize = 0;
    while row < LETTER_HEIGHT
        invariant
            row <= LETTER_HEIGHT,
            index < 96,
            alphabet@.len() == ALPHABET_BYTES * 8,
            i == index * 96 + row * 8,
            forall|r: int, c: int|
                0 <= r < row && 0 <= c < LETTER_WIDTH ==> #[trigger] ret@[r]@[c] == alphabet@[index * 96 + r * 8 + c],
        decreases LETTER_HEIGHT - row,
    {
        let mut line = [false; LETTER_WIDTH];
        let mut col: usize = 0;
        while col < LETTER_WIDTH
            invariant
                col <= LETTER_WIDTH,
                row < LETTER_HEIGHT,
                index < 96,
                alphabet@.len() == ALPHABET_BYTES * 8,
                i == index * 96 + row * 8 + col,
                forall|c: int| 0 <= c < col ==> #[trigger] line@[c] == alphabet@[index * 96 + row * 8 + c],
                forall|c: int| col <= c < LETTER_WIDTH ==> !#[trigger] line@[c],
            decreases LETTER_WIDTH - col,
        {
            if alphabet.is_bit_set(i) {
                line[col] = true;
            }
            i += 1;
            col += 1;
        }
        ret[row] = line;
        row += 1;
    }
    ret
}

} // verus!
