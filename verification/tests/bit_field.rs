use buildingblocks::bit_field::BitField;

fn collect_bits<const N: usize>(field: &BitField<N>) -> Vec<bool> {
    let mut bits = Vec::new();
    let mut iter = field.bit_iter();
    while let Some(bit) = iter.next() {
        bits.push(bit);
    }
    bits
}

#[test]
fn test_empty_bit_field() {
    let mut empty = BitField::from_bytes([]);
    assert_eq!(empty.len_bits(), 0);
    assert_eq!(empty.size_bytes(), 0);
    assert_eq!(empty.as_bytes(), &[]);

    // filling beyond the length does nothing
    empty.fill_with_bits(&[true, true, true]);
    assert_eq!(empty.len_bits(), 0);
    assert_eq!(empty.size_bytes(), 0);
    assert_eq!(empty.as_bytes(), &[]);

    empty.fill_with_bytes(&[0xFF, 0xFF, 0xFF]);
    assert_eq!(empty.len_bits(), 0);
    assert_eq!(empty.size_bytes(), 0);
    assert_eq!(empty.as_bytes(), &[]);
}

#[test]
fn test_single_byte_bit_field() {
    let mut one_byte = BitField::from_bytes([0x00]);
    assert_eq!(one_byte.len_bits(), 8);
    assert_eq!(one_byte.size_bytes(), 1);
    assert_eq!(one_byte.as_bytes(), &[0x00]);

    one_byte.fill_with_bits(&[true, true, true]);
    assert_eq!(one_byte.len_bits(), 8);
    assert_eq!(one_byte.size_bytes(), 1);
    assert_eq!(one_byte.as_bytes(), &[0x07]);
    assert_eq!(one_byte.is_bit_set(0), true);
    assert_eq!(one_byte.is_bit_set(1), true);
    assert_eq!(one_byte.is_bit_set(2), true);
    assert_eq!(one_byte.is_bit_set(3), false);
    assert_eq!(one_byte.is_bit_set(4), false);
    assert_eq!(one_byte.is_bit_set(5), false);
    assert_eq!(one_byte.is_bit_set(6), false);
    assert_eq!(one_byte.is_bit_set(7), false);
    let one_byte_vec: Vec<bool> = collect_bits(&one_byte);
    assert_eq!(
        &one_byte_vec,
        &[true, true, true, false, false, false, false, false],
    );

    one_byte.fill_with_bytes(&[0xFF, 0xFF, 0xFF]);
    assert_eq!(one_byte.len_bits(), 8);
    assert_eq!(one_byte.size_bytes(), 1);
    assert_eq!(one_byte.as_bytes(), &[0xFF]);
    assert_eq!(one_byte.is_bit_set(0), true);
    assert_eq!(one_byte.is_bit_set(1), true);
    assert_eq!(one_byte.is_bit_set(2), true);
    assert_eq!(one_byte.is_bit_set(3), true);
    assert_eq!(one_byte.is_bit_set(4), true);
    assert_eq!(one_byte.is_bit_set(5), true);
    assert_eq!(one_byte.is_bit_set(6), true);
    assert_eq!(one_byte.is_bit_set(7), true);
    let one_byte_vec: Vec<bool> = collect_bits(&one_byte);
    assert_eq!(
        &one_byte_vec,
        &[true, true, true, true, true, true, true, true],
    );

    one_byte.clear_bit(0);
    assert_eq!(one_byte.len_bits(), 8);
    assert_eq!(one_byte.size_bytes(), 1);
    assert_eq!(one_byte.as_bytes(), &[0xFE]);
    assert_eq!(one_byte.is_bit_set(0), false);
    assert_eq!(one_byte.is_bit_set(1), true);
    assert_eq!(one_byte.is_bit_set(2), true);
    assert_eq!(one_byte.is_bit_set(3), true);
    assert_eq!(one_byte.is_bit_set(4), true);
    assert_eq!(one_byte.is_bit_set(5), true);
    assert_eq!(one_byte.is_bit_set(6), true);
    assert_eq!(one_byte.is_bit_set(7), true);
    let one_byte_vec: Vec<bool> = collect_bits(&one_byte);
    assert_eq!(
        &one_byte_vec,
        &[false, true, true, true, true, true, true, true],
    );

    one_byte.clear_bit(5);
    assert_eq!(one_byte.len_bits(), 8);
    assert_eq!(one_byte.size_bytes(), 1);
    assert_eq!(one_byte.as_bytes(), &[0xDE]);
    assert_eq!(one_byte.is_bit_set(0), false);
    assert_eq!(one_byte.is_bit_set(1), true);
    assert_eq!(one_byte.is_bit_set(2), true);
    assert_eq!(one_byte.is_bit_set(3), true);
    assert_eq!(one_byte.is_bit_set(4), true);
    assert_eq!(one_byte.is_bit_set(5), false);
    assert_eq!(one_byte.is_bit_set(6), true);
    assert_eq!(one_byte.is_bit_set(7), true);
    let one_byte_vec: Vec<bool> = collect_bits(&one_byte);
    assert_eq!(
        &one_byte_vec,
        &[false, true, true, true, true, false, true, true],
    );
}

#[test]
fn test_two_byte_bit_field() {
    let mut two_bytes = BitField::from_bytes([0x00, 0x00]);
    assert_eq!(two_bytes.len_bits(), 16);
    assert_eq!(two_bytes.size_bytes(), 2);
    assert_eq!(two_bytes.as_bytes(), &[0x00, 0x00]);
    assert_eq!(two_bytes.is_bit_set(0), false);
    assert_eq!(two_bytes.is_bit_set(1), false);
    assert_eq!(two_bytes.is_bit_set(2), false);
    assert_eq!(two_bytes.is_bit_set(3), false);
    assert_eq!(two_bytes.is_bit_set(4), false);
    assert_eq!(two_bytes.is_bit_set(5), false);
    assert_eq!(two_bytes.is_bit_set(6), false);
    assert_eq!(two_bytes.is_bit_set(7), false);
    assert_eq!(two_bytes.is_bit_set(8), false);
    assert_eq!(two_bytes.is_bit_set(9), false);
    assert_eq!(two_bytes.is_bit_set(10), false);
    assert_eq!(two_bytes.is_bit_set(11), false);
    assert_eq!(two_bytes.is_bit_set(12), false);
    assert_eq!(two_bytes.is_bit_set(13), false);
    assert_eq!(two_bytes.is_bit_set(14), false);
    assert_eq!(two_bytes.is_bit_set(15), false);
    let two_byte_vec: Vec<bool> = collect_bits(&two_bytes);
    assert_eq!(
        &two_byte_vec,
        &[
            false, false, false, false, false, false, false, false,
            false, false, false, false, false, false, false, false,
        ],
    );

    two_bytes.fill_with_bits(&[true, true, true]);
    assert_eq!(two_bytes.len_bits(), 16);
    assert_eq!(two_bytes.size_bytes(), 2);
    assert_eq!(two_bytes.as_bytes(), &[0x07, 0x00]);
    assert_eq!(two_bytes.is_bit_set(0), true);
    assert_eq!(two_bytes.is_bit_set(1), true);
    assert_eq!(two_bytes.is_bit_set(2), true);
    assert_eq!(two_bytes.is_bit_set(3), false);
    assert_eq!(two_bytes.is_bit_set(4), false);
    assert_eq!(two_bytes.is_bit_set(5), false);
    assert_eq!(two_bytes.is_bit_set(6), false);
    assert_eq!(two_bytes.is_bit_set(7), false);
    assert_eq!(two_bytes.is_bit_set(8), false);
    assert_eq!(two_bytes.is_bit_set(9), false);
    assert_eq!(two_bytes.is_bit_set(10), false);
    assert_eq!(two_bytes.is_bit_set(11), false);
    assert_eq!(two_bytes.is_bit_set(12), false);
    assert_eq!(two_bytes.is_bit_set(13), false);
    assert_eq!(two_bytes.is_bit_set(14), false);
    assert_eq!(two_bytes.is_bit_set(15), false);
    let two_byte_vec: Vec<bool> = collect_bits(&two_bytes);
    assert_eq!(
        &two_byte_vec,
        &[
            true, true, true, false, false, false, false, false,
            false, false, false, false, false, false, false, false,
        ],
    );

    two_bytes.fill_with_bytes(&[0xFF, 0xFF, 0xFF]);
    assert_eq!(two_bytes.len_bits(), 16);
    assert_eq!(two_bytes.size_bytes(), 2);
    assert_eq!(two_bytes.as_bytes(), &[0xFF, 0xFF]);
    assert_eq!(two_bytes.is_bit_set(0), true);
    assert_eq!(two_bytes.is_bit_set(1), true);
    assert_eq!(two_bytes.is_bit_set(2), true);
    assert_eq!(two_bytes.is_bit_set(3), true);
    assert_eq!(two_bytes.is_bit_set(4), true);
    assert_eq!(two_bytes.is_bit_set(5), true);
    assert_eq!(two_bytes.is_bit_set(6), true);
    assert_eq!(two_bytes.is_bit_set(7), true);
    assert_eq!(two_bytes.is_bit_set(8), true);
    assert_eq!(two_bytes.is_bit_set(9), true);
    assert_eq!(two_bytes.is_bit_set(10), true);
    assert_eq!(two_bytes.is_bit_set(11), true);
    assert_eq!(two_bytes.is_bit_set(12), true);
    assert_eq!(two_bytes.is_bit_set(13), true);
    assert_eq!(two_bytes.is_bit_set(14), true);
    assert_eq!(two_bytes.is_bit_set(15), true);
    let two_byte_vec: Vec<bool> = collect_bits(&two_bytes);
    assert_eq!(
        &two_byte_vec,
        &[
            true, true, true, true, true, true, true, true,
            true, true, true, true, true, true, true, true,
        ],
    );

    two_bytes.clear_bit(0);
    assert_eq!(two_bytes.len_bits(), 16);
    assert_eq!(two_bytes.size_bytes(), 2);
    assert_eq!(two_bytes.as_bytes(), &[0xFE, 0xFF]);
    assert_eq!(two_bytes.is_bit_set(0), false);
    assert_eq!(two_bytes.is_bit_set(1), true);
    assert_eq!(two_bytes.is_bit_set(2), true);
    assert_eq!(two_bytes.is_bit_set(3), true);
    assert_eq!(two_bytes.is_bit_set(4), true);
    assert_eq!(two_bytes.is_bit_set(5), true);
    assert_eq!(two_bytes.is_bit_set(6), true);
    assert_eq!(two_bytes.is_bit_set(7), true);
    assert_eq!(two_bytes.is_bit_set(8), true);
    assert_eq!(two_bytes.is_bit_set(9), true);
    assert_eq!(two_bytes.is_bit_set(10), true);
    assert_eq!(two_bytes.is_bit_set(11), true);
    assert_eq!(two_bytes.is_bit_set(12), true);
    assert_eq!(two_bytes.is_bit_set(13), true);
    assert_eq!(two_bytes.is_bit_set(14), true);
    assert_eq!(two_bytes.is_bit_set(15), true);
    let two_byte_vec: Vec<bool> = collect_bits(&two_bytes);
    assert_eq!(
        &two_byte_vec,
        &[
            false, true, true, true, true, true, true, true,
            true, true, true, true, true, true, true, true,
        ],
    );

    two_bytes.clear_bit(5);
    assert_eq!(two_bytes.len_bits(), 16);
    assert_eq!(two_bytes.size_bytes(), 2);
    assert_eq!(two_bytes.as_bytes(), &[0xDE, 0xFF]);
    assert_eq!(two_bytes.is_bit_set(0), false);
    assert_eq!(two_bytes.is_bit_set(1), true);
    assert_eq!(two_bytes.is_bit_set(2), true);
    assert_eq!(two_bytes.is_bit_set(3), true);
    assert_eq!(two_bytes.is_bit_set(4), true);
    assert_eq!(two_bytes.is_bit_set(5), false);
    assert_eq!(two_bytes.is_bit_set(6), true);
    assert_eq!(two_bytes.is_bit_set(7), true);
    assert_eq!(two_bytes.is_bit_set(8), true);
    assert_eq!(two_bytes.is_bit_set(9), true);
    assert_eq!(two_bytes.is_bit_set(10), true);
    assert_eq!(two_bytes.is_bit_set(11), true);
    assert_eq!(two_bytes.is_bit_set(12), true);
    assert_eq!(two_bytes.is_bit_set(13), true);
    assert_eq!(two_bytes.is_bit_set(14), true);
    assert_eq!(two_bytes.is_bit_set(15), true);
    let two_byte_vec: Vec<bool> = collect_bits(&two_bytes);
    assert_eq!(
        &two_byte_vec,
        &[
            false, true, true, true, true, false, true, true,
            true, true, true, true, true, true, true, true,
        ],
    );

    two_bytes.clear_bit(14);
    assert_eq!(two_bytes.len_bits(), 16);
    assert_eq!(two_bytes.size_bytes(), 2);
    assert_eq!(two_bytes.as_bytes(), &[0xDE, 0xBF]);
    assert_eq!(two_bytes.is_bit_set(0), false);
    assert_eq!(two_bytes.is_bit_set(1), true);
    assert_eq!(two_bytes.is_bit_set(2), true);
    assert_eq!(two_bytes.is_bit_set(3), true);
    assert_eq!(two_bytes.is_bit_set(4), true);
    assert_eq!(two_bytes.is_bit_set(5), false);
    assert_eq!(two_bytes.is_bit_set(6), true);
    assert_eq!(two_bytes.is_bit_set(7), true);
    assert_eq!(two_bytes.is_bit_set(8), true);
    assert_eq!(two_bytes.is_bit_set(9), true);
    assert_eq!(two_bytes.is_bit_set(10), true);
    assert_eq!(two_bytes.is_bit_set(11), true);
    assert_eq!(two_bytes.is_bit_set(12), true);
    assert_eq!(two_bytes.is_bit_set(13), true);
    assert_eq!(two_bytes.is_bit_set(14), false);
    assert_eq!(two_bytes.is_bit_set(15), true);
    let two_byte_vec: Vec<bool> = collect_bits(&two_bytes);
    assert_eq!(
        &two_byte_vec,
        &[
            false, true, true, true, true, false, true, true,
            true, true, true, true, true, true, false, true,
        ],
    );
}
