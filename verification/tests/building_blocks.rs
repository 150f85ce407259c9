use buildingblocks::crc8::{crc8_ccitt, crc8_ccitt_byte, make_crc8_ccitt_lut};
use buildingblocks::dynamic_bit_field::DynamicBitField;
use buildingblocks::hex::{hex_dump, nibble_to_hex, parse_eep, unhex_byte, unhex_bytes, unhex_nibble};
use buildingblocks::max_array::MaxArray;
use buildingblocks::ring_buffer::RingBuffer;

#[test]
fn test_crc_of_message_with_its_crc_is_zero() {
    let message = b"hello, world\n";
    let crc = crc8_ccitt(message);
    let mut with_crc = message.to_vec();
    with_crc.push(crc);
    assert_eq!(crc8_ccitt(&with_crc), 0);
}

#[test]
fn test_crc_table() {
    let lut = make_crc8_ccitt_lut();
    assert_eq!(lut[0], 0x00);
    assert_eq!(lut[1], 0x07);
    assert_eq!(lut[0x80], 0x89);
    assert_eq!(crc8_ccitt_byte(0x01), 0x07);
    assert_eq!(crc8_ccitt(&[0x00, 0x01, 0x00, 0x02]), 0x65);
}

#[test]
fn test_hex_nibbles() {
    assert_eq!(unhex_nibble(b'0'), Some(0));
    assert_eq!(unhex_nibble(b'9'), Some(9));
    assert_eq!(unhex_nibble(b'A'), Some(10));
    assert_eq!(unhex_nibble(b'f'), Some(15));
    assert_eq!(unhex_nibble(b'g'), None);
    assert_eq!(unhex_nibble(b'-'), None);
    assert_eq!(unhex_byte(b"7A"), 0x7A);
    assert_eq!(nibble_to_hex(0), b'0');
    assert_eq!(nibble_to_hex(11), b'B');
    assert_eq!(nibble_to_hex(16), 0);
}

#[test]
fn test_unhex_bytes() {
    assert_eq!(unhex_bytes(b"55000100026500"), Some(vec![0x55, 0x00, 0x01, 0x00, 0x02, 0x65, 0x00]));
    assert_eq!(unhex_bytes(b"5500a"), None);
    assert_eq!(unhex_bytes(b""), Some(vec![]));
}

#[test]
fn test_parse_eep() {
    assert_eq!(parse_eep(b"A5-02-05"), Some((0xA5, 0x02, 0x05)));
    assert_eq!(parse_eep(b"f6-02-01"), Some((0xF6, 0x02, 0x01)));
    assert_eq!(parse_eep(b"A5-02-5"), None);
    assert_eq!(parse_eep(b"A5:02:05"), None);
    assert_eq!(parse_eep(b"A5-0X-05"), None);
}

#[test]
fn test_hex_dump_decodes_back() {
    let bytes = [0x55, 0x00, 0xA7, 0x3F];
    let mut hex: MaxArray<u8, 16> = MaxArray::new();
    hex_dump(&bytes, &mut hex);
    assert_eq!(hex.as_slice(), b"5500A73F");
    assert_eq!(unhex_bytes(hex.as_slice()), Some(bytes.to_vec()));
}

#[test]
fn test_hex_dump_stops_when_full() {
    let mut hex: MaxArray<u8, 5> = MaxArray::new();
    hex.push(b'>').unwrap();
    hex_dump(&[0x12, 0x34, 0x56], &mut hex);
    assert_eq!(hex.as_slice(), b">1234");
}

#[test]
fn test_max_array_fill_from() {
    let mut array: MaxArray<u8, 4> = MaxArray::from_iter_or_panic(&[9, 9, 9]);
    assert!(array.fill_from(&[1, 2]));
    assert_eq!(array.as_slice(), &[1, 2]);
    assert!(!array.fill_from(&[1, 2, 3, 4, 5]));
    assert_eq!(array.as_slice(), &[1, 2, 3, 4]);
    assert!(array.fill_from(&[]));
    assert_eq!(array.len(), 0);
}

#[test]
fn test_max_array_push_pop() {
    let mut array: MaxArray<u8, 2> = MaxArray::new();
    assert_eq!(array.push(1), Ok(()));
    assert_eq!(array.push(2), Ok(()));
    assert_eq!(array.push(3), Err(3));
    assert!(!array.can_fit(1));
    assert_eq!(array.get(1), Some(&2));
    assert_eq!(array.get(2), None);
    let mut out = [0u8; 3];
    assert_eq!(array.copy_into(&mut out), 2);
    assert_eq!(out, [1, 2, 0]);
    assert_eq!(array.pop(), Some(2));
    assert_eq!(array.pop(), Some(1));
    assert_eq!(array.pop(), None);
}

#[test]
fn test_ring_buffer_peek_and_fifo_order() {
    let mut rb: RingBuffer<u8, 3> = RingBuffer::new();
    assert_eq!(rb.peek_at(0), None);
    for b in [1u8, 2, 3] {
        assert!(rb.push(b));
    }
    assert_eq!(rb.peek_at(0), Some(1));
    assert_eq!(rb.peek_at(2), Some(3));
    assert_eq!(rb.peek_at(3), None);
    rb.force_push(4);
    assert_eq!(rb.pop(), Some(2));
    assert_eq!(rb.pop(), Some(3));
    assert_eq!(rb.pop(), Some(4));
    assert_eq!(rb.pop(), None);
}

#[test]
fn test_dynamic_bit_field() {
    let mut field = DynamicBitField::new();
    assert_eq!(field.len_bits(), 0);
    field.push(true);
    field.push(false);
    field.push(true);
    assert_eq!(field.len_bits(), 3);
    assert_eq!(field.size_bytes(), 1);
    assert_eq!(field.as_bytes(), &[0x05]);
    assert!(field.is_bit_set(2));
    field.clear_bit(2);
    assert!(!field.is_bit_set(2));
    field.set_bit(1);
    assert_eq!(field.as_bytes(), &[0x03]);

    let mut bits = Vec::new();
    let mut iter = field.iter();
    while let Some(bit) = iter.next() {
        bits.push(bit);
    }
    assert_eq!(bits, vec![true, true, false]);

    for _ in 0..6 {
        field.push(true);
    }
    assert_eq!(field.len_bits(), 9);
    assert_eq!(field.size_bytes(), 2);
    assert_eq!(field.as_bytes(), &[0xFB, 0x01]);
}
