use buildingblocks::bit_field::BitField;
use buildingblocks::channel::Channel;
use buildingblocks::clock::{
    display_twi_divisors, i2c_speed_divisors, split_divisor, ClockRegisters, SystemCoreClock,
};
use buildingblocks::dcf77::{u8_to_dec, u8_to_hex, Dcf77, Dcf77Date};
use buildingblocks::dcf77_transmitter::{time_text, Carrier, TickAction, Transmitter};
use buildingblocks::display::DisplayCommand;
use buildingblocks::display::text::str_to_char_indexes;
use buildingblocks::display::transfer::{
    send_command, init_display, write_line, LowLevelCommand,
};
use buildingblocks::i2c_display::{I2cDisplay, I2cDisplayTwi0};
use buildingblocks::registers::pwm::dt4;
use buildingblocks::registers::smc::mode4;
use buildingblocks::registers::Resettable;

fn transfer(command: u8, args: &[u8]) -> LowLevelCommand {
    LowLevelCommand { command, args: args.to_vec() }
}

#[test]
fn test_display_command_encoding() {
    let mut buf = [0xEEu8; 6];
    let cmd = DisplayCommand::SetColumnAddress { first: 16, last: 111 };
    assert_eq!(cmd.code(), 0x15);
    assert_eq!(cmd.encode_data(&mut buf), &[16, 111]);
    assert_eq!(buf, [16, 111, 0xEE, 0xEE, 0xEE, 0xEE]);

    assert_eq!(send_command(&DisplayCommand::SetSleepMode(true)), transfer(0xAE, &[]));
    assert_eq!(send_command(&DisplayCommand::SetSleepMode(false)), transfer(0xAF, &[]));
    assert_eq!(
        send_command(&DisplayCommand::SetContrastPerColor { red_contrast: 1, green_contrast: 2, blue_contrast: 3 }),
        transfer(0xC1, &[1, 2, 3]),
    );
}

#[test]
fn test_init_display_transfers() {
    let transfers = init_display();
    assert_eq!(transfers.len(), 4);
    assert_eq!(transfers[0], transfer(0x15, &[16, 111]));
    assert_eq!(transfers[1], transfer(0x75, &[0, 95]));
    assert_eq!(transfers[2].command, 0x5C);
    assert_eq!(transfers[2].args.len(), 96 * 96 * 2);
    assert!(transfers[2].args.iter().all(|b| *b == 0));
    assert_eq!(transfers[3], transfer(0xAF, &[]));
}

#[test]
fn test_write_line_transfers() {
    // an alphabet whose glyph for 'A' has only its top left pixel set
    let mut alphabet: BitField<1152> = BitField::from_bytes([0u8; 1152]);
    alphabet.set_bit(0x21 * 96);

    let transfers = write_line(0, 10, [0xF8, 0x1F], [0x00, 0x01], "A", &alphabet);
    assert_eq!(transfers.len(), 5);
    assert_eq!(transfers[0], transfer(0x15, &[16, 23]));
    assert_eq!(transfers[1], transfer(0x75, &[10, 21]));
    assert_eq!(transfers[2].command, 0x5C);
    assert_eq!(transfers[2].args.len(), 192);
    assert_eq!(&transfers[2].args[0..4], &[0xF8, 0x1F, 0x00, 0x01]);
    assert!(transfers[2].args[2..].chunks(2).all(|c| c == [0x00, 0x01]));
    assert_eq!(transfers[3], transfer(0x15, &[16, 111]));
    assert_eq!(transfers[4], transfer(0x75, &[0, 95]));

    // only the letters that start on the display are drawn
    let transfers = write_line(90, 0, [0xFF, 0xFF], [0, 0], "AB", &alphabet);
    assert_eq!(transfers.len(), 5);
    assert_eq!(transfers[0], transfer(0x15, &[106, 113]));

    // nothing is sent for a line below the display
    assert!(write_line(0, 97, [0xFF, 0xFF], [0, 0], "A", &alphabet).is_empty());
}

#[test]
fn test_char_indexes() {
    let (indexes, count) = str_to_char_indexes("A\u{B0}\u{E9}");
    assert_eq!(count, 3);
    assert_eq!(&indexes[0..4], &[0x21, 0x5F, 0x1F, 0]);

    let (_, count) = str_to_char_indexes("a line of text that is too long");
    assert_eq!(count, 12);
}

#[test]
fn test_dcf77_fields() {
    let mut telegram = Dcf77::new();
    // the initial telegram is in winter time
    assert!(!telegram.is_summer_time());
    assert!(telegram.is_winter_time());
    telegram.set_winter_time(false);
    telegram.set_summer_time(true);
    assert!(telegram.is_summer_time());
    assert!(!telegram.is_winter_time());

    telegram.set_minutes(42);
    assert_eq!(telegram.get_minutes(), 42);
    telegram.set_hours(17);
    assert_eq!(telegram.get_hours(), 17);

    let date = Dcf77Date { day_of_month: 29, day_of_week: 4, month: 2, year_of_century: 24 };
    telegram.set_date(date);
    assert_eq!(telegram.get_date(), date);
    assert_eq!(telegram.get_minutes(), 42);
    assert_eq!(telegram.get_hours(), 17);
}

#[test]
fn test_dcf77_initial_telegram() {
    let telegram = Dcf77::new();
    assert_eq!(telegram.get_minutes(), 0);
    assert_eq!(telegram.get_hours(), 0);
    assert_eq!(telegram.get_date(), Dcf77Date { day_of_month: 1, day_of_week: 4, month: 1, year_of_century: 70 });
    assert!(telegram.is_winter_time());
    assert!(!telegram.is_summer_time());
    assert!(!telegram.is_leap_second());
    assert!(!telegram.is_abnormal_operation());
    assert!(telegram.get_storage_copy().is_bit_set(20));
    assert!(!telegram.get_storage_copy().is_bit_set(0));
}

#[test]
fn test_dcf77_increment() {
    let mut telegram = Dcf77::new();
    telegram.set_minutes(58);
    telegram.set_hours(23);
    telegram.increment();
    assert_eq!(telegram.get_minutes(), 59);
    assert_eq!(telegram.get_hours(), 23);
    telegram.increment();
    assert_eq!(telegram.get_minutes(), 0);
    assert_eq!(telegram.get_hours(), 0);
}

#[test]
fn test_number_digits() {
    assert_eq!(u8_to_hex(0x3C), [b'3', b'C']);
    assert_eq!(u8_to_dec(42), [b'4', b'2']);
    assert_eq!(u8_to_dec(7), [b'0', b'7']);
}

#[test]
fn test_clock_speed() {
    let mut clock = SystemCoreClock::new();
    assert_eq!(clock.clock_speed, 4_000_000);
    // PLL A from the 12 MHz crystal, multiplied by 14, divided by 1, prescaler 2
    let registers = ClockRegisters { css: 2, oscsel: false, moscsel: true, moscrcf: 0, mula: 13, diva: 1, pres: 1 };
    clock.update(&registers);
    assert_eq!(clock.clock_speed, 84_000_000);

    let slow = ClockRegisters { css: 0, oscsel: true, moscsel: false, moscrcf: 0, mula: 0, diva: 0, pres: 0 };
    clock.update(&slow);
    assert_eq!(clock.clock_speed, 32_768);

    let rc = ClockRegisters { css: 1, oscsel: false, moscsel: false, moscrcf: 2, mula: 0, diva: 0, pres: 7 };
    clock.update(&rc);
    assert_eq!(clock.clock_speed, 4_000_000);
}

#[test]
fn test_clock_divisors() {
    assert_eq!(split_divisor(0xFF), (0xFF, 0));
    assert_eq!(split_divisor(0x100), (0x80, 1));
    assert_eq!(split_divisor(1000), (250, 2));
    // 100 kHz at 84 MHz: 420 - 4 = 416 = 208 * 2
    assert_eq!(i2c_speed_divisors(100_000, 84_000_000), (208, 1));
    // 84 MHz * 4.7 µs = 394.8, minus four: 390 = 195 * 2
    assert_eq!(display_twi_divisors(), (195, 1));
}

#[test]
fn test_i2c_display_frames() {
    let display = I2cDisplayTwi0::new(0xA7, true);
    assert_eq!(display.target_address(), 0x27);
    assert_eq!(display.nibble_frames(0x3, false), [0x38, 0x3C, 0x38]);
    assert_eq!(display.byte_frames(0x41, true), [0x49, 0x4D, 0x49, 0x19, 0x1D, 0x19]);
    let dark = I2cDisplayTwi0::new(0x27, false);
    assert_eq!(dark.nibble_frames(0xF, true), [0xF1, 0xF5, 0xF1]);
}

#[test]
fn test_channel_names() {
    assert_eq!(Channel::Off.code(), "OFF");
    assert_eq!(Channel::Ch2.code(), "CHAN2");
    assert_eq!(Channel::D13.code(), "D13");
}

#[test]
fn test_register_fields() {
    let mut w = dt4::W::from(dt4::DT4_SPEC::reset_value());
    w.dth().bits(0x1234);
    w.dtl().bits(0xABCD);
    let bits = u32::from(w);
    assert_eq!(bits, 0xABCD_1234);
    let r = dt4::R::from(bits);
    assert_eq!(r.dth().bits(), 0x1234);
    assert_eq!(r.dtl().bits(), 0xABCD);

    let reset = mode4::MODE4_SPEC::reset_value();
    assert_eq!(reset, 0x1000_0003);
    let mut w = mode4::W::from(reset);
    w.exnw_mode().frozen();
    let r = mode4::R::from(u32::from(w));
    assert_eq!(r.exnw_mode().variant(), Some(mode4::EXNW_MODE_A::FROZEN));
    assert!(r.exnw_mode().is_frozen());
    assert_eq!(r.bits() & !0x30, 0x1000_0003);
}

#[test]
fn test_dcf77_transmitter_minute() {
    let mut telegram = Dcf77::new();
    telegram.set_minutes(59);
    telegram.set_hours(23);
    let mut tx = Transmitter::new(telegram);

    // a tenth into second 0, whose bit is clear: "data" ends
    assert_eq!(tx.tick(), TickAction { set_data: Some(false), refresh_display: false });
    assert_eq!(tx.tick(), TickAction { set_data: None, refresh_display: false });
    for _ in 2..9 {
        assert_eq!(tx.tick().set_data, None);
    }
    // start of second 1
    assert_eq!(tx.tick(), TickAction { set_data: Some(true), refresh_display: false });

    let mut ticks = 10;
    let mut silent_second_seen = false;
    loop {
        let action = tx.tick();
        ticks += 1;
        if ticks == 590 {
            // the last second of the minute stays silent
            assert_eq!(action.set_data, Some(false));
            silent_second_seen = true;
        }
        if action.refresh_display {
            break;
        }
    }
    assert!(silent_second_seen);
    assert_eq!(ticks, 600);
    assert_eq!(tx.telegram().get_minutes(), 0);
    assert_eq!(tx.telegram().get_hours(), 0);
}

#[test]
fn test_dcf77_carrier() {
    let mut carrier = Carrier::new();
    assert_eq!(carrier.duty_cycle_value(), 259);
    assert_eq!(carrier.period_elapsed(), Some(258));
    assert_eq!(carrier.period_elapsed(), None);
    assert_eq!(carrier.set_data(true), 11);
    assert_eq!(carrier.period_elapsed(), None);
}

#[test]
fn test_dcf77_time_text() {
    let mut telegram = Dcf77::new();
    telegram.set_date(Dcf77Date { day_of_month: 10, day_of_week: 2, month: 4, year_of_century: 90 });
    telegram.set_hours(10);
    telegram.set_minutes(40);
    assert_eq!(&time_text(&telegram), b"10.04.90 10:40");
}
