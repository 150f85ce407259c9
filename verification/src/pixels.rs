//! Converting images for the display: RGB pixels into the display's color formats, and
//! black-and-white images into bit fields of glyph cells.

use vstd::prelude::*;
use vstd::string::StringSliceAdditionalSpecFns;
use crate::dynamic_bit_field::DynamicBitField;

verus! {

/// The pixel formats that RGB images can be converted into.
#[derive(Clone, Copy, Debug, PartialEq, Eq, Structural, Hash, PartialOrd, Ord)]
pub enum ImageMode {
    /// Five bits of red, six bits of green and five bits of blue, in two big-endian bytes.
    RGB565,
    /// Six bits of each color, one byte each.
    RGB666,
}

impl Default for ImageMode {
    fn default() -> (ret: Self)
        ensures
            ret == ImageMode::RGB565,
    {
        ImageMode::RGB565
    }
}

/// The ASCII bytes of "rgb565".
pub open spec fn rgb565_name() -> Seq<u8> {
    seq![0x72u8, 0x67, 0x62, 0x35, 0x36, 0x35]
}

/// The ASCII bytes of "rgb666".
pub open spec fn rgb666_name() -> Seq<u8> {
    seq![0x72u8, 0x67, 0x62, 0x36, 0x36, 0x36]
}

/// Whether the bytes of `s` are those of `name`.
fn bytes_equal(s: &[u8], name: &[u8]) -> (ret: bool)
    ensures
        ret == (s@ == name@),
{
    if s.len() != name.len() {
        return false;
    }
    let mut i: usize = 0;
    while i < s.len()
        invariant
            s@.len() == name@.len(),
            i <= s@.len(),
            forall|j: int| 0 <= j < i ==> s@[j] == name@[j],
        decreases s@.len() - i,
    {
        if s[i] != name[i] {
            return false;
        }
        i += 1;
    }
    assert(s@ =~= name@);
    true
}

impl ImageMode {
    /// Reads the name of a pixel format: "rgb565" or "rgb666".
    pub fn from_str(s: &str) -> (ret: Result<ImageMode, &'static str>)
        ensures
            s.spec_bytes() == rgb565_name() ==> ret == Ok::<ImageMode, &'static str>(ImageMode::RGB565),
            s.spec_bytes() == rgb666_name() ==> ret == Ok::<ImageMode, &'static str>(ImageMode::RGB666),
            s.spec_bytes() != rgb565_name() && s.spec_bytes() != rgb666_name() ==> (ret matches Err(e)
                && e@ == "unknown image mode"@),
    {
        let bytes = s.as_bytes();
        let rgb565: [u8; 6] = [0x72, 0x67, 0x62, 0x35, 0x36, 0x35];
        let rgb666: [u8; 6] = [0x72, 0x67, 0x62, 0x36, 0x36, 0x36];
        assert(rgb565@ =~= rgb565_name());
        assert(rgb666@ =~= rgb666_name());
        if bytes_equal(bytes, &rgb565) {
            Ok(ImageMode::RGB565)
        } else if bytes_equal(bytes, &rgb666) {
            Ok(ImageMode::RGB666)
        } else {
            Err("unknown image mode")
        }
    }
}

/// The two bytes of a pixel in five-six-five format: the top five bits of red, the top six bits
/// of green and the top five bits of blue, packed into a big-endian 16-bit value.
pub open spec fn rgb565_bytes(r: u8, g: u8, b: u8) -> Seq<u8> {
    let value = (r / 8) as int * 2048 + (g / 4) as int * 32 + (b / 8) as int;
    seq![(value / 256) as u8, (value % 256) as u8]
}

/// The three bytes of a pixel in six-six-six format: the top six bits of each color.
pub open spec fn rgb666_bytes(r: u8, g: u8, b: u8) -> Seq<u8> {
    seq![r / 4, g / 4, b / 4]
}

/// The bytes of one pixel in the given format.
pub open spec fn pixel_bytes(mode: ImageMode, r: u8, g: u8, b: u8) -> Seq<u8> {
    match mode {
        ImageMode::RGB565 => rgb565_bytes(r, g, b),
        ImageMode::RGB666 => rgb666_bytes(r, g, b),
    }
}

/// The bytes of the first `n` pixels of an RGB image in the given format.
pub open spec fn converted_pixels(rgb: Seq<u8>, mode: ImageMode, n: nat) -> Seq<u8>
    decreases n,
{
    if n == 0 {
        Seq::empty()
    } else {
        let p = 3 * (n - 1);
        converted_pixels(rgb, mode, (n - 1) as nat) + pixel_bytes(mode, rgb[p], rgb[p + 1], rgb[p + 2])
    }
}

/// Returns the bytes of one pixel in five-six-five format.
fn rgb565_of(r: u8, g: u8, b: u8) -> (ret: [u8; 2])
    ensures
        ret@ == rgb565_bytes(r, g, b),
{
    let new_r = r >> 3u8;
    let new_g = g >> 2u8;
    let new_b = b >> 3u8;
    let rgb_565: u16 = ((new_r as u16) << 11u16) | ((new_g as u16) << 5u16) | (new_b as u16);
    let hi = (rgb_565 >> 8u16) as u8;
    let lo = (rgb_565 & 0xFFu16) as u8;
    assert(hi == ((r / 8) as int * 2048 + (g / 4) as int * 32 + (b / 8) as int) / 256
        && lo == ((r / 8) as int * 2048 + (g / 4) as int * 32 + (b / 8) as int) % 256) by (bit_vector)
        requires
            new_r == r >> 3u8,
            new_g == g >> 2u8,
            new_b == b >> 3u8,
            rgb_565 == ((new_r as u16) << 11u16) | ((new_g as u16) << 5u16) | (new_b as u16),
            hi == (rgb_565 >> 8u16) as u8,
            lo == (rgb_565 & 0xFFu16) as u8,
    ;
    let ret = [hi, lo];
    assert(ret@ =~= rgb565_bytes(r, g, b));
    ret
}

/// Converts the pixels of an RGB image (three bytes per pixel, red first) into the given format.
pub fn convert_pixels(rgb: &[u8], mode: ImageMode) -> (ret: Vec<u8>)
    requires
        rgb@.len() % 3 == 0,
    ensures
        ret@ == converted_pixels(rgb@, mode, rgb@.len() / 3),
{
    let mut out: Vec<u8> = Vec::new();
    let n = rgb.len();
    let count = n / 3;
    let mut i: usize = 0;
    while i < count
        invariant
            n == rgb@.len(),
            count == rgb@.len() / 3,
            rgb@.len() % 3 == 0,
            i <= count,
            out@ == converted_pixels(rgb@, mode, i as nat),
        decreases count - i,
    {
        assert(3 * i + 2 < n) by (nonlinear_arith)
            requires
                i < count,
                count == n / 3,
                n % 3 == 0,
        ;
        let r = rgb[3 * i];
        let g = rgb[3 * i + 1];
        let b = rgb[3 * i + 2];
        let ghost before = out@;
        match mode {
            ImageMode::RGB565 => {
                let bytes = rgb565_of(r, g, b);
                out.push(bytes[0]);
                out.push(bytes[1]);
            },
            ImageMode::RGB666 => {
                out.push(r >> 2u8);
                out.push(g >> 2u8);
                out.push(b >> 2u8);
                assert(r >> 2u8 == r / 4 && g >> 2u8 == g / 4 && b >> 2u8 == b / 4) by (bit_vector);
            },
        }
        assert(out@ =~= before + pixel_bytes(mode, r, g, b));
        i += 1;
    }
    out
}

/// Whether the palette of a two-color image maps index one to white: `Some(true)` if its first
/// entry is white and its second black, `Some(false)` if the other way round, `None` otherwise.
pub open spec fn palette_one_is_white(palette: Seq<u8>) -> Option<bool> {
    if palette[0] == 0xFF && palette[1] == 0xFF && palette[2] == 0xFF && palette[3] == 0x00
        && palette[4] == 0x00 && palette[5] == 0x00 {
        Some(true)
    } else if palette[0] == 0x00 && palette[1] == 0x00 && palette[2] == 0x00 && palette[3] == 0xFF
        && palette[4] == 0xFF && palette[5] == 0xFF {
        Some(false)
    } else {
        None
    }
}

/// Determines which palette index is white in the six-byte palette of a two-color image.
pub fn one_is_white(palette: &[u8]) -> (ret: Option<bool>)
    requires
        palette@.len() == 6,
    ensures
        ret == palette_one_is_white(palette@),
{
    if palette[0] == 0xFF && palette[1] == 0xFF && palette[2] == 0xFF && palette[3] == 0x00
        && palette[4] == 0x00 && palette[5] == 0x00 {
        Some(true)
    } else if palette[0] == 0x00 && palette[1] == 0x00 && palette[2] == 0x00 && palette[3] == 0xFF
        && palette[4] == 0xFF && palette[5] == 0xFF {
        Some(false)
    } else {
        None
    }
}

/// The pixels of a row of a one-bit image, eight per byte from the most significant bit: a
/// pixel is set if its bit is clear and the palette's second entry is white, or if its bit is
/// set and the second entry is black.
pub open spec fn row_pixels(row: Seq<u8>, one_is_white: bool) -> Seq<bool> {
    Seq::new(
        8 * row.len(),
        |k: int| (row[k / 8] & (1u8 << ((7 - k % 8) as u8)) == 0) == one_is_white,
    )
}

/// Appends the pixels of a row of a one-bit image to `field` (see [row_pixels]).
pub fn push_row_pixels(field: &mut DynamicBitField, row: &[u8], one_is_white: bool)
    requires
        old(field).wf(),
        old(field)@.len() + 8 * row@.len() < usize::MAX,
    ensures
        final(field).wf(),
        final(field)@ == old(field)@ + row_pixels(row@, one_is_white),
{
    let ghost start = field@;
    let mut k: usize = 0;
    while k < row.len()
        invariant
            k <= row@.len(),
            field.wf(),
            start.len() + 8 * row@.len() < usize::MAX,
            field@ == start + row_pixels(row@, one_is_white).subrange(0, 8 * k),
        decreases row@.len() - k,
    {
        let b = row[k];
        let mut i: u8 = 0;
        while i < 8
            invariant
                k < row@.len(),
                i <= 8,
                b == row@[k as int],
                field.wf(),
                start.len() + 8 * row@.len() < usize::MAX,
                field@ == start + row_pixels(row@, one_is_white).subrange(0, 8 * k + i),
            decreases 8 - i,
        {
            let shift: u8 = 7 - i;
            let mut bit_is_set = b & (1u8 << shift) == 0;
            if !one_is_white {
                bit_is_set = !bit_is_set;
            }
            proof {
                let n = 8 * k + i;
                assert(n / 8 == k && n % 8 == i);
                assert(bit_is_set == row_pixels(row@, one_is_white)[n as int]);
            }
            field.push(bit_is_set);
            i += 1;
            assert(field@ =~= start + row_pixels(row@, one_is_white).subrange(0, 8 * k + i));
        }
        k += 1;
    }
    assert(row_pixels(row@, one_is_white).subrange(0, 8 * row@.len() as int) =~= row_pixels(row@, one_is_white));
}

/// The index, in the bits of a whole image, of pixel `(r2, c2)` of the cell in cell row `r` and
/// cell column `c`.
pub open spec fn cell_pixel(image_width: int, cell_width: int, cell_height: int, r: int, c: int, r2: int, c2: int) -> int {
    r * cell_height * image_width + c * cell_width + r2 * image_width + c2
}

/// The pixel at index `i` of the bits of an image; clear beyond them.
pub open spec fn pixel_at(bits: Seq<bool>, i: int) -> bool {
    0 <= i < bits.len() && bits[i]
}

/// The pixels of the first `rows` rows of the cell in cell row `r` and cell column `c`, row by
/// row, each row from left to right.
pub open spec fn cell_rows(
    bits: Seq<bool>,
    image_width: int,
    cell_width: int,
    cell_height: int,
    r: int,
    c: int,
    rows: nat,
) -> Seq<bool>
    decreases rows,
{
    if rows == 0 {
        Seq::empty()
    } else {
        cell_rows(bits, image_width, cell_width, cell_height, r, c, (rows - 1) as nat) + Seq::new(
            cell_width as nat,
            |c2: int| pixel_at(bits, cell_pixel(image_width, cell_width, cell_height, r, c, rows - 1, c2)),
        )
    }
}

/// The cell row and cell column of the cell that comes `n`th in the output: cells go down each
/// column of cells first if `column_major` is set, else along each row of cells first.
pub open spec fn cell_position(n: int, cells_over_width: int, cells_over_height: int, column_major: bool) -> (int, int) {
    if column_major {
        (n % cells_over_height, n / cells_over_height)
    } else {
        (n / cells_over_width, n % cells_over_width)
    }
}

/// The pixels of the first `n` cells of an image, cell by cell in output order.
pub open spec fn arranged_cells(
    bits: Seq<bool>,
    image_width: int,
    cell_width: int,
    cell_height: int,
    cells_over_width: int,
    cells_over_height: int,
    column_major: bool,
    n: nat,
) -> Seq<bool>
    decreases n,
{
    if n == 0 {
        Seq::empty()
    } else {
        let (r, c) = cell_position(n - 1, cells_over_width, cells_over_height, column_major);
        arranged_cells(bits, image_width, cell_width, cell_height, cells_over_width, cells_over_height, column_major, (n - 1) as nat)
            + cell_rows(bits, image_width, cell_width, cell_height, r, c, cell_height as nat)
    }
}

/// Appends the pixels of one cell of the image in `input` to `output`, row by row.
fn append_cell(
    row_index: u32,
    column_index: u32,
    cell_width: u32,
    cell_height: u32,
    image_width: u32,
    input: &DynamicBitField,
    output: &mut DynamicBitField,
)
    requires
        input.wf(),
        old(output).wf(),
        cell_width > 0,
        (row_index + 1) * cell_height * image_width <= u32::MAX,
        (column_index + 1) * cell_width <= image_width,
        old(output)@.len() + cell_width * cell_height < usize::MAX,
    ensures
        final(output).wf(),
        final(output)@.len() == old(output)@.len() + cell_width * cell_height,
        final(output)@ == old(output)@ + cell_rows(
            input@,
            image_width as int,
            cell_width as int,
            cell_height as int,
            row_index as int,
            column_index as int,
            cell_height as nat,
        ),
{
    let ghost start = output@;
    let ghost bits = input@;
    assert(row_index * cell_height <= row_index * cell_height * image_width
        && row_index * cell_height * image_width + column_index * cell_width <= u32::MAX) by (nonlinear_arith)
        requires
            cell_width > 0,
            (row_index + 1) * cell_height * image_width <= u32::MAX,
            (column_index + 1) * cell_width <= image_width,
    ;
    let cell_start: u32 = row_index * cell_height * image_width + column_index * cell_width;
    let mut r2: u32 = 0;
    while r2 < cell_height
        invariant
            r2 <= cell_height,
            input.wf(),
            input@ == bits,
            output.wf(),
            (row_index + 1) * cell_height * image_width <= u32::MAX,
            (column_index + 1) * cell_width <= image_width,
            cell_start == row_index * cell_height * image_width + column_index * cell_width,
            cell_width > 0,
            start.len() + cell_width * cell_height < usize::MAX,
            output@ == start + cell_rows(bits, image_width as int, cell_width as int, cell_height as int, row_index as int, column_index as int, r2 as nat),
            output@.len() == start.len() + cell_width * r2,
        decreases cell_height - r2,
    {
        assert(cell_start + r2 * image_width + cell_width <= u32::MAX) by (nonlinear_arith)
            requires
                (row_index + 1) * cell_height * image_width <= u32::MAX,
                (column_index + 1) * cell_width <= image_width,
                cell_start == row_index * cell_height * image_width + column_index * cell_width,
                r2 < cell_height,
        ;
        let row_start: u32 = cell_start + r2 * image_width;
        let ghost before = output@;
        let ghost row = Seq::new(
            cell_width as nat,
            |c2: int| pixel_at(bits, cell_pixel(image_width as int, cell_width as int, cell_height as int, row_index as int, column_index as int, r2 as int, c2)),
        );
        let mut c2: u32 = 0;
        while c2 < cell_width
            invariant
                c2 <= cell_width,
                r2 < cell_height,
                input.wf(),
                input@ == bits,
                output.wf(),
                row_start as int + cell_width <= u32::MAX,
                row_start == cell_start + r2 * image_width,
                cell_start == row_index * cell_height * image_width + column_index * cell_width,
                before.len() == start.len() + cell_width * r2,
                start.len() + cell_width * cell_height < usize::MAX,
                row == Seq::new(
                    cell_width as nat,
                    |c2: int| pixel_at(bits, cell_pixel(image_width as int, cell_width as int, cell_height as int, row_index as int, column_index as int, r2 as int, c2)),
                ),
                output@ == before + row.subrange(0, c2 as int),
            decreases cell_width - c2,
        {
            proof {
                assert(before.len() + c2 < start.len() + cell_width * cell_height) by (nonlinear_arith)
                    requires
                        before.len() == start.len() + cell_width * r2,
                        c2 < cell_width,
                        r2 < cell_height,
                ;
            }
            let pixel_index = (row_start + c2) as usize;
            let pixel = input.is_bit_set(pixel_index);
            proof {
                assert(pixel_index == cell_pixel(image_width as int, cell_width as int, cell_height as int, row_index as int, column_index as int, r2 as int, c2 as int));
                assert(pixel == row[c2 as int]);
            }
            output.push(pixel);
            c2 += 1;
            assert(output@ =~= before + row.subrange(0, c2 as int));
        }
        assert(row.subrange(0, cell_width as int) =~= row);
        r2 += 1;
        proof {
            assert(output@ =~= start + cell_rows(bits, image_width as int, cell_width as int, cell_height as int, row_index as int, column_index as int, r2 as nat));
            assert(cell_width * r2 == cell_width * (r2 - 1) + cell_width) by (nonlinear_arith);
        }
    }
}

/// Rearranges the pixels of a black-and-white image into cells of the given size: the pixels of
/// each cell follow each other, row by row, and the cells follow each other in the order that
/// `column_major` chooses (see [cell_position]). The result is backed by as many zero bytes as
/// the image, at least.
pub fn arrange_cells(
    input: &DynamicBitField,
    image_width: u32,
    image_height: u32,
    cell_width: u32,
    cell_height: u32,
    column_major: bool,
) -> (ret: DynamicBitField)
    requires
        input.wf(),
        cell_width > 0,
        cell_height > 0,
        image_width % cell_width == 0,
        image_height % cell_height == 0,
        image_width * image_height < u32::MAX,
    ensures
        ret.wf(),
        ret@ == arranged_cells(
            input@,
            image_width as int,
            cell_width as int,
            cell_height as int,
            (image_width / cell_width) as int,
            (image_height / cell_height) as int,
            column_major,
            ((image_width / cell_width) * (image_height / cell_height)) as nat,
        ),
{
    let cells_over_width = image_width / cell_width;
    let cells_over_height = image_height / cell_height;
    let ghost bits = input@;
    let ghost cw = cell_width as int;
    let ghost ch = cell_height as int;
    let ghost w = image_width as int;
    let ghost nw = cells_over_width as int;
    let ghost nh = cells_over_height as int;
    proof {
        vstd::arithmetic::div_mod::lemma_fundamental_div_mod(image_width as int, cw);
        vstd::arithmetic::div_mod::lemma_fundamental_div_mod(image_height as int, ch);
        assert(image_width == nw * cw && image_height == nh * ch) by (nonlinear_arith)
            requires
                image_width == cw * nw,
                image_height == ch * nh,
        ;
    }
    let mut output = DynamicBitField::with_capacity_bytes(input.size_bytes());
    let (outer_count, inner_count) = if column_major {
        (cells_over_width, cells_over_height)
    } else {
        (cells_over_height, cells_over_width)
    };
    let mut outer: u32 = 0;
    assert(outer * inner_count * cw * ch == 0) by (nonlinear_arith)
        requires
            outer == 0,
    ;
    assert(arranged_cells(bits, w, cw, ch, nw, nh, column_major, 0) =~= Seq::<bool>::empty());
    while outer < outer_count
        invariant
            outer <= outer_count,
            cw == cell_width,
            ch == cell_height,
            w == image_width,
            input.wf(),
            input@ == bits,
            output.wf(),
            cell_width > 0,
            cell_height > 0,
            image_width == nw * cw,
            image_height == nh * ch,
            cells_over_width == nw,
            cells_over_height == nh,
            image_width * image_height < u32::MAX,
            outer_count == if column_major { nw } else { nh },
            inner_count == if column_major { nh } else { nw },
            output@ == arranged_cells(bits, w, cw, ch, nw, nh, column_major, (outer * inner_count) as nat),
            output@.len() == outer * inner_count * cw * ch,
        decreases outer_count - outer,
    {
        let mut inner: u32 = 0;
        while inner < inner_count
            invariant
                outer < outer_count,
                cw == cell_width,
                ch == cell_height,
                w == image_width,
                inner <= inner_count,
                input.wf(),
                input@ == bits,
                output.wf(),
                cell_width > 0,
                cell_height > 0,
                image_width == nw * cw,
                image_height == nh * ch,
                cells_over_width == nw,
                cells_over_height == nh,
                image_width * image_height < u32::MAX,
                outer_count == if column_major { nw } else { nh },
                inner_count == if column_major { nh } else { nw },
                output@ == arranged_cells(bits, w, cw, ch, nw, nh, column_major, (outer * inner_count + inner) as nat),
                output@.len() == (outer * inner_count + inner) * cw * ch,
            decreases inner_count - inner,
        {
            let (r, c) = if column_major {
                (inner, outer)
            } else {
                (outer, inner)
            };
            let ghost n = outer * inner_count + inner;
            proof {
                vstd::arithmetic::div_mod::lemma_fundamental_div_mod_converse(n, inner_count as int, outer as int, inner as int);
                assert(cell_position(n, nw, nh, column_major) == (r as int, c as int));
                assert((r + 1) * cell_height * image_width <= u32::MAX && (c + 1) * cell_width <= image_width) by (nonlinear_arith)
                    requires
                        r < nh,
                        c < nw,
                        image_width == nw * cw,
                        image_height == nh * ch,
                        cell_height == ch,
                        cell_width == cw,
                        cw > 0,
                        ch > 0,
                        image_width * image_height < u32::MAX,
                ;
                assert(output@.len() + cw * ch <= (outer_count * inner_count) * cw * ch) by (nonlinear_arith)
                    requires
                        output@.len() == (outer * inner_count + inner) * cw * ch,
                        outer < outer_count,
                        inner < inner_count,
                        cw > 0,
                        ch > 0,
                ;
                assert((outer_count * inner_count) * cw * ch == image_width * image_height) by (nonlinear_arith)
                    requires
                        image_width == nw * cw,
                        image_height == nh * ch,
                        outer_count * inner_count == nw * nh,
                ;
            }
            append_cell(r, c, cell_width, cell_height, image_width, input, &mut output);
            inner += 1;
            proof {
                assert((outer * inner_count + inner) * cw * ch == (n * cw * ch) + cw * ch) by (nonlinear_arith)
                    requires
                        n == outer * inner_count + inner - 1,
                ;
            }
        }
        outer += 1;
        assert(outer * inner_count == (outer - 1) * inner_count + inner_count) by (nonlinear_arith);
    }
    proof {
        assert(outer_count * inner_count == nw * nh) by (nonlinear_arith)
            requires
                outer_count == if column_major { nw } else { nh },
                inner_count == if column_major { nh } else { nw },
        ;
    }
    output
}

} // verus!
