use buildingblocks::name_filters::{hex, pascal_case, pascal_case_word_start, pascal_fallback, snake_case};
use buildingblocks::usart::{peripheral_clock_write, take_receive_buffer, usart_clock_divider, ClockWrite};
use buildingblocks::ring_buffer::RingBuffer;
use buildingblocks::dynamic_bit_field::DynamicBitField;
use buildingblocks::numbers::{
    parse_hex_u8, u32_from_str, u32_from_str_radix, u8_from_hex, u8_from_hex_0x, u8_from_str_radix,
};
use buildingblocks::pixels::{arrange_cells, convert_pixels, one_is_white, push_row_pixels, ImageMode};
use buildingblocks::wide_strings::{decode_wide_string_sequence, guid_to_string, string_to_utf16_nul, Guid};

fn bits_of(field: &DynamicBitField) -> Vec<bool> {
    let mut bits = Vec::new();
    let mut iter = field.iter();
    while let Some(bit) = iter.next() {
        bits.push(bit);
    }
    bits
}

#[test]
fn test_u32_from_str() {
    assert_eq!(u32_from_str("0x400E0800"), Some(0x400E_0800));
    assert_eq!(u32_from_str("0b101"), Some(5));
    assert_eq!(u32_from_str("0o17"), Some(15));
    assert_eq!(u32_from_str("42"), Some(42));
    assert_eq!(u32_from_str("+42"), Some(42));
    assert_eq!(u32_from_str("4294967295"), Some(u32::MAX));
    assert_eq!(u32_from_str("4294967296"), None);
    assert_eq!(u32_from_str("0xFFFFFFFFF"), None);
    assert_eq!(u32_from_str("0x"), None);
    assert_eq!(u32_from_str(""), None);
    assert_eq!(u32_from_str("-1"), None);
    assert_eq!(u32_from_str("12a"), None);
    assert_eq!(u32_from_str("0b102"), None);
}

#[test]
fn test_from_str_radix_matches_std() {
    let samples: [&str; 10] = ["0", "+7", "z", "Zz", "ff", "100", "256", "+", "", "1_0"];
    for s in samples {
        for radix in [2u32, 8, 10, 16, 36] {
            assert_eq!(u32_from_str_radix(s.as_bytes(), radix), u32::from_str_radix(s, radix).ok());
            assert_eq!(u8_from_str_radix(s.as_bytes(), radix), u8::from_str_radix(s, radix).ok());
        }
    }
}

#[test]
fn test_hex_bytes() {
    assert_eq!(parse_hex_u8("ff"), Some(0xFF));
    assert_eq!(parse_hex_u8("100"), None);
    assert_eq!(parse_hex_u8("0x10"), None);
    assert_eq!(u8_from_hex("7F"), 0x7F);
    assert_eq!(u8_from_hex_0x("0x1A"), 0x1A);
}

#[test]
fn test_usart_clock_divider() {
    assert_eq!(usart_clock_divider(84_000_000, 57_600), 91);
    assert_eq!(usart_clock_divider(84_000_000, 9_600), 546);
}

#[test]
fn test_image_mode_names() {
    assert_eq!(ImageMode::from_str("rgb565"), Ok(ImageMode::RGB565));
    assert_eq!(ImageMode::from_str("rgb666"), Ok(ImageMode::RGB666));
    assert_eq!(ImageMode::from_str("RGB565"), Err("unknown image mode"));
    assert_eq!(ImageMode::default(), ImageMode::RGB565);
}

#[test]
fn test_convert_pixels() {
    let rgb = [0xFF, 0xFF, 0xFF, 0x12, 0x34, 0x56];
    assert_eq!(convert_pixels(&rgb, ImageMode::RGB565), vec![0xFF, 0xFF, 0x11, 0xAA]);
    assert_eq!(convert_pixels(&rgb, ImageMode::RGB666), vec![0x3F, 0x3F, 0x3F, 0x04, 0x0D, 0x15]);
    assert_eq!(convert_pixels(&[], ImageMode::RGB565), Vec::<u8>::new());
}

#[test]
fn test_palette_and_rows() {
    assert_eq!(one_is_white(&[0xFF, 0xFF, 0xFF, 0x00, 0x00, 0x00]), Some(true));
    assert_eq!(one_is_white(&[0x00, 0x00, 0x00, 0xFF, 0xFF, 0xFF]), Some(false));
    assert_eq!(one_is_white(&[0xFF, 0x00, 0xFF, 0x00, 0x00, 0x00]), None);

    let mut field = DynamicBitField::new();
    push_row_pixels(&mut field, &[0x81], true);
    assert_eq!(bits_of(&field), vec![false, true, true, true, true, true, true, false]);
    push_row_pixels(&mut field, &[0x40], false);
    assert_eq!(field.len_bits(), 16);
    assert_eq!(&bits_of(&field)[8..16], &[false, true, false, false, false, false, false, false]);
}

#[test]
fn test_arrange_cells() {
    // a 4x4 image whose pixels with an index divisible by three are set
    let mut image = DynamicBitField::new();
    for i in 0..16 {
        image.push(i % 3 == 0);
    }
    let pixel = |i: usize| i % 3 == 0;

    let row_major = arrange_cells(&image, 4, 4, 2, 2, false);
    let order: Vec<usize> = vec![0, 1, 4, 5, 2, 3, 6, 7, 8, 9, 12, 13, 10, 11, 14, 15];
    let expected: Vec<bool> = order.iter().map(|i| pixel(*i)).collect();
    assert_eq!(bits_of(&row_major), expected);
    assert_eq!(row_major.size_bytes(), 2);

    let column_major = arrange_cells(&image, 4, 4, 2, 2, true);
    let order: Vec<usize> = vec![0, 1, 4, 5, 8, 9, 12, 13, 2, 3, 6, 7, 10, 11, 14, 15];
    let expected: Vec<bool> = order.iter().map(|i| pixel(*i)).collect();
    assert_eq!(bits_of(&column_major), expected);

    // a 4x2 image cut into cells one pixel wide and two high
    let narrow = arrange_cells(&image, 4, 2, 1, 2, false);
    let order: Vec<usize> = vec![0, 4, 1, 5, 2, 6, 3, 7];
    let expected: Vec<bool> = order.iter().map(|i| pixel(*i)).collect();
    assert_eq!(bits_of(&narrow), expected);
}

#[test]
fn test_wide_strings() {
    assert_eq!(string_to_utf16_nul("A\u{20AC}\u{1F600}"), vec![0x41, 0x20AC, 0xD83D, 0xDE00, 0]);
    assert_eq!(string_to_utf16_nul(""), vec![0]);

    let units = [0x41, 0x42, 0, 0x43, 0, 0, 0x44, 0];
    assert_eq!(decode_wide_string_sequence(&units), vec!["AB".to_string(), "C".to_string()]);
    assert_eq!(decode_wide_string_sequence(&[0x41]), vec!["A".to_string()]);
    assert_eq!(decode_wide_string_sequence(&[0xD83D, 0xDE00, 0]), vec!["\u{1F600}".to_string()]);
    assert!(decode_wide_string_sequence(&[]).is_empty());
    assert!(decode_wide_string_sequence(&[0, 0x41, 0]).is_empty());

    let guid = Guid { data1: 0x1234_5678, data2: 0x9ABC, data3: 0xDEF0, data4: [1, 2, 3, 4, 5, 6, 7, 0xAB] };
    assert_eq!(guid_to_string(&guid), "12345678-9ABC-DEF0-0102-0304050607AB");
}

#[test]
fn test_terminated_string_reads_back() {
    let units = string_to_utf16_nul("h\u{E9}llo \u{1D11E}");
    assert_eq!(decode_wide_string_sequence(&units), vec!["h\u{E9}llo \u{1D11E}".to_string()]);
}

#[test]
fn test_peripheral_clock_write() {
    // USART3 is peripheral 20, in the first bank
    assert_eq!(peripheral_clock_write(20, 0, 0, true), Some(ClockWrite { second_bank: false, mask: 1 << 20 }));
    assert_eq!(peripheral_clock_write(20, 1 << 20, 0, true), None);
    assert_eq!(peripheral_clock_write(20, 1 << 20, 0, false), Some(ClockWrite { second_bank: false, mask: 1 << 20 }));
    assert_eq!(peripheral_clock_write(20, 0, 0, false), None);
    // the second bank holds peripherals 32 to 63
    assert_eq!(peripheral_clock_write(37, 0, 0, true), Some(ClockWrite { second_bank: true, mask: 1 << 5 }));
    assert_eq!(peripheral_clock_write(37, 0, 1 << 5, true), None);
    assert_eq!(peripheral_clock_write(64, 0, 0, true), None);
}

#[test]
fn test_take_receive_buffer() {
    let mut ring: RingBuffer<u8, 4> = RingBuffer::new();
    assert_eq!(take_receive_buffer(&mut ring).len(), 0);
    for b in [1u8, 2, 3, 4, 5] {
        ring.force_push(b);
    }
    let taken = take_receive_buffer(&mut ring);
    assert_eq!(taken.as_slice(), &[2, 3, 4, 5]);
    assert_eq!(ring.len(), 0);
}

#[test]
fn test_pascal_case_names() {
    assert_eq!(pascal_case("hello world"), "HelloWorld");
    assert_eq!(pascal_case("Temperature (°C)"), "TemperatureDegreesC");
    assert_eq!(pascal_case("set point < 5 m²"), "SetPointLessThan5M2");
    assert_eq!(pascal_case("a > b"), "AMoreThanB");
    assert_eq!(pascal_case("\u{3BC}s"), "MuS");
    assert_eq!(pascal_case("CO2 \u{B5}g/m³"), "Co2GM");
    assert_eq!(pascal_case("already_known ID"), "Already_knownId");
    assert_eq!(pascal_case(""), "");
}

#[test]
fn test_pascal_case_word_start_names() {
    assert_eq!(pascal_case_word_start("2-way valve"), "_2WayValve");
    assert_eq!(pascal_case_word_start("two-way valve"), "TwoWayValve");
    assert_eq!(pascal_case_word_start("\u{2026}"), "");
}

#[test]
fn test_snake_case_names() {
    assert_eq!(snake_case("Temperature (°C)"), "temperature_degrees_c");
    assert_eq!(snake_case("  set   point\t< 5 m²"), "set_point_less_than_5_m2");
    assert_eq!(snake_case("2-way valve"), "2_way_valve");
}

#[test]
fn test_hex_filter() {
    assert_eq!(hex(&0x0A), "0A");
    assert_eq!(hex(&0xF5), "F5");
    assert_eq!(hex(&0x00), "00");
}

#[test]
fn test_pascal_fallback_names() {
    assert_eq!(pascal_fallback("Name", "1"), "Name");
    assert_eq!(pascal_fallback("", "12"), "Value12");
    assert_eq!(pascal_fallback("", "on/off"), "ValueOnOff");
}
