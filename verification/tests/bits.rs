use nes6502::bits::{make_word, shift_left, shift_right, split_word};

#[test]
fn make_word_puts_the_high_byte_on_top() {
    assert_eq!(make_word(0x34, 0x12), 0x1234);
    assert_eq!(make_word(0xff, 0x00), 0x00ff);
    assert_eq!(make_word(0x00, 0xff), 0xff00);
    assert_eq!(make_word(0xff, 0xff), 0xffff);
    assert_eq!(make_word(0, 0), 0);
}

#[test]
fn split_word_gives_low_then_high() {
    assert_eq!(split_word(0x1234), (0x34, 0x12));
    assert_eq!(split_word(0x0600), (0x00, 0x06));
    assert_eq!(split_word(0xffff), (0xff, 0xff));
    assert_eq!(split_word(0), (0, 0));
}

#[test]
fn split_word_undoes_make_word() {
    for hi in 0..=255u8 {
        for lo in [0u8, 1, 0x7f, 0x80, 0xfe, 0xff] {
            assert_eq!(split_word(make_word(lo, hi)), (lo, hi));
        }
    }
}

#[test]
fn shift_left_doubles_and_drops_bit_7_into_the_carry() {
    assert_eq!(shift_left(0x02, false), (0x04, false));
    assert_eq!(shift_left(0xff, false), (0xfe, true));
    assert_eq!(shift_left(0x80, false), (0x00, true));
    assert_eq!(shift_left(0x80, true), (0x01, true));
    assert_eq!(shift_left(0x40, true), (0x81, false));
    for value in 0..=255u8 {
        for carry in [false, true] {
            let expected = ((value as u16) * 2 + carry as u16) % 256;
            assert_eq!(shift_left(value, carry), (expected as u8, value >= 128));
        }
    }
}

#[test]
fn shift_right_halves_and_drops_bit_0_into_the_carry() {
    assert_eq!(shift_right(0x40, false), (0x20, false));
    assert_eq!(shift_right(0xff, false), (0x7f, true));
    assert_eq!(shift_right(0x01, false), (0x00, true));
    assert_eq!(shift_right(0x01, true), (0x80, true));
    assert_eq!(shift_right(0x02, true), (0x81, false));
    for value in 0..=255u8 {
        for carry in [false, true] {
            let expected = value / 2 + if carry { 128 } else { 0 };
            assert_eq!(shift_right(value, carry), (expected, value % 2 == 1));
        }
    }
}
