use buildingblocks::esp3::codes::{FilterCriterion, OneByteBoolean, PostmasterPriority, ReturnCode, SecurityLevel, WakeupCause};
use buildingblocks::esp3::conversation::{handle_packet, AwaitingWhat};
use buildingblocks::esp3::command::CommandData;
use buildingblocks::esp3::erp::{
    ErpData, ErpStatusByte, FourByteTeachInDetails, FourByteTeachInFlags, FourByteTelegram, OneByteTelegram,
    RepeatedSwitchTelegram, RepeaterCount,
};
use buildingblocks::esp3::event::EventData;
use buildingblocks::esp3::packet::Esp3Packet;
use buildingblocks::esp3::response::{CoRdFilter, CoRdVersion, FilterEntry, ResponseData, SaRdLearnedClients};
use buildingblocks::esp3::serial::take_esp3_packet;
use buildingblocks::esp3::MAX_ESP3_PACKET_LENGTH;
use buildingblocks::max_array::MaxArray;
use buildingblocks::ring_buffer::RingBuffer;

const OK_RESPONSE: [u8; 8] = [0x55, 0x00, 0x01, 0x00, 0x02, 0x65, 0x00, 0x00];

const RPS_FRAME: [u8; 21] = [
    0x55, 0x00, 0x07, 0x07, 0x01, 0x7A, 0xF6, 0x50, 0x00, 0x29, 0x89, 0xA9, 0x30, 0x01, 0xFF, 0xFF,
    0xFF, 0xFF, 0x2D, 0x00, 0xE3,
];

#[test]
fn test_decode_ok_response() {
    let pkt = Esp3Packet::from_slice(&OK_RESPONSE);
    assert_eq!(
        pkt,
        Some(Esp3Packet::Response { return_code: ReturnCode::Okay, response_data: MaxArray::new() }),
    );
}

#[test]
fn test_decode_rejects_damaged_frames() {
    let mut bad_header_crc = OK_RESPONSE;
    bad_header_crc[5] = 0x66;
    assert_eq!(Esp3Packet::from_slice(&bad_header_crc), None);

    let mut bad_data_crc = OK_RESPONSE;
    bad_data_crc[7] = 0x01;
    assert_eq!(Esp3Packet::from_slice(&bad_data_crc), None);

    let mut bad_sync = OK_RESPONSE;
    bad_sync[0] = 0x54;
    assert_eq!(Esp3Packet::from_slice(&bad_sync), None);

    let mut too_long = OK_RESPONSE.to_vec();
    too_long.push(0x00);
    assert_eq!(Esp3Packet::from_slice(&too_long), None);

    assert_eq!(Esp3Packet::from_slice(&OK_RESPONSE[0..7]), None);
}

#[test]
fn test_decode_radio_telegram() {
    let pkt = Esp3Packet::from_slice(&RPS_FRAME);
    let expected = Esp3Packet::RadioErp1 {
        radio_telegram: MaxArray::from_iter_or_panic(&[0xF6, 0x50, 0x00, 0x29, 0x89, 0xA9, 0x30]),
        opt_sub_telegram_number: Some(0x01),
        opt_destination_id: Some(0xFFFF_FFFF),
        opt_dbm: Some(0x2D),
        opt_security_level: Some(SecurityLevel::NoSecurity),
    };
    assert_eq!(pkt, Some(expected));

    let telegram = [0xF6, 0x50, 0x00, 0x29, 0x89, 0xA9, 0x30];
    assert!(ErpData::slice_decodable(&telegram));
    assert_eq!(
        ErpData::from_slice(&telegram),
        Some(ErpData::RepeatedSwitch(RepeatedSwitchTelegram { data: 0x50, sender: 0x0029_89A9, status: 0x30 })),
    );
}

#[test]
fn test_decode_four_byte_telegram() {
    let telegram = [0xA5, 0x01, 0x02, 0x03, 0x04, 0xAA, 0xBB, 0xCC, 0xDD, 0x00];
    let decoded = ErpData::from_slice(&telegram);
    assert_eq!(
        decoded,
        Some(ErpData::FourByte(FourByteTelegram { data: 0x0102_0304, sender: 0xAABB_CCDD, status: 0x00 })),
    );
    assert_eq!(decoded.unwrap().rorg_value(), 0xA5);
    assert_eq!(ErpData::from_slice(&telegram[0..9]), None);
    assert_eq!(ErpData::from_slice(&[]), None);
}

#[test]
fn test_encode_read_version_command() {
    let pkt = Esp3Packet::CommonCommand(CommandData::CoRdVersion);
    assert_eq!(pkt.packet_type(), 5);
    let frame = pkt.to_packet().unwrap();
    assert_eq!(frame.as_slice(), &[0x55, 0x00, 0x01, 0x00, 0x05, 0x70, 0x03, 0x09]);
}

#[test]
fn test_encode_writes_data_in_order() {
    let pkt = Esp3Packet::CommonCommand(CommandData::CoWrSleep { deep_sleep_period: 0x0102_0304 });
    assert_eq!(pkt.to_packet_data().as_slice(), &[0x01, 0x01, 0x02, 0x03, 0x04]);
    let frame = pkt.to_packet().unwrap();
    assert_eq!(
        frame.as_slice(),
        &[0x55, 0x00, 0x05, 0x00, 0x05, 0xDB, 0x01, 0x01, 0x02, 0x03, 0x04, 0x81],
    );
}

#[test]
fn test_encode_rejects_gap_in_optional_fields() {
    let pkt = Esp3Packet::RadioErp1 {
        radio_telegram: MaxArray::from_iter_or_panic(&[0xF6, 0x50]),
        opt_sub_telegram_number: None,
        opt_destination_id: Some(0x1234_5678),
        opt_dbm: None,
        opt_security_level: None,
    };
    assert!(pkt.to_packet_optional().is_none());
    assert!(pkt.to_packet().is_none());
}

#[test]
fn test_parts_decode_to_encoded_packet() {
    let pkt = Esp3Packet::RadioErp1 {
        radio_telegram: MaxArray::from_iter_or_panic(&[0xF6, 0x50, 0x01, 0x02, 0x03, 0x04, 0x30]),
        opt_sub_telegram_number: Some(3),
        opt_destination_id: Some(0xFFFF_FFFF),
        opt_dbm: Some(0x2D),
        opt_security_level: Some(SecurityLevel::NoSecurity),
    };
    let data = pkt.to_packet_data();
    let opt = pkt.to_packet_optional().unwrap();
    assert_eq!(opt.as_slice(), &[0x03, 0xFF, 0xFF, 0xFF, 0xFF, 0x2D, 0x00]);
    assert!(Esp3Packet::parts_fit_capacity(pkt.packet_type(), data.as_slice(), opt.as_slice()));
    let decoded = Esp3Packet::from_parts(pkt.packet_type(), data.as_slice(), opt.as_slice());
    assert_eq!(decoded, Some(pkt));

    let accepted = Esp3Packet::CommandAccepted { is_blocking: OneByteBoolean::No, estimated_time_ms: 0x1234 };
    let data = accepted.to_packet_data();
    assert_eq!(data.as_slice(), &[0x01, 0x12, 0x34]);
    let decoded = Esp3Packet::from_parts(12, data.as_slice(), &[]);
    assert_eq!(decoded, Some(accepted));
}

#[test]
fn test_command_round_trip() {
    let cmd = CommandData::CoWrIdBase { base_id: 0xFF80_0000 };
    assert_eq!(cmd.command_type(), 7);
    let data = cmd.to_packet_data();
    assert_eq!(data.as_slice(), &[0x07, 0xFF, 0x80, 0x00, 0x00]);
    let decoded = CommandData::from_data(data.as_slice()[0], &data.as_slice()[1..], &[]);
    assert_eq!(decoded, Some(cmd));
    assert_eq!(CommandData::from_data(7, &[0xFF, 0x80], &[]), None);
}

#[test]
fn test_event_decoding() {
    let decoded = EventData::from_data(8, &[], &[]);
    assert_eq!(decoded, Some(EventData::CoTxDone));
    assert_eq!(EventData::from_data(8, &[0x00], &[]), None);
}

#[test]
fn test_response_data_round_trip() {
    let mut bytes = [0u8; 32];
    for (i, b) in bytes.iter_mut().enumerate() {
        *b = i as u8;
    }
    let version = CoRdVersion::from_data(&bytes, &[]).unwrap();
    assert_eq!(version.app_version, 0x0001_0203);
    assert_eq!(version.api_version, 0x0405_0607);
    assert_eq!(version.chip_id, 0x0809_0A0B);
    assert_eq!(version.chip_version, 0x0C0D_0E0F);
    assert_eq!(version.app_description[0], 0x10);
    assert_eq!(version.app_description[15], 0x1F);
    assert_eq!(version.to_data().as_slice(), &bytes);
    assert!(CoRdVersion::from_data(&bytes[0..31], &[]).is_none());
}

#[test]
fn test_take_packet_from_serial_buffer() {
    let mut buffer: RingBuffer<u8, MAX_ESP3_PACKET_LENGTH> = RingBuffer::new();
    for b in [0x00u8, 0x12, 0x55, 0x00] {
        assert!(buffer.push(b));
    }
    for b in OK_RESPONSE {
        assert!(buffer.push(b));
    }
    assert!(buffer.push(0x55));

    let frame = take_esp3_packet(&mut buffer).unwrap();
    assert_eq!(frame.as_slice(), &OK_RESPONSE);
    assert_eq!(buffer.len(), 1);

    // an incomplete frame stays in the buffer
    assert!(take_esp3_packet(&mut buffer).is_none());
    assert_eq!(buffer.len(), 1);
}

#[test]
fn test_conversation_with_transceiver() {
    let ready = Esp3Packet::Event(EventData::CoReady { wakeup_cause: WakeupCause::ResetPin, opt_security_mode: None });
    let (awaiting, frame) = handle_packet(AwaitingWhat::Nothing, &ready);
    assert_eq!(awaiting, AwaitingWhat::Version);
    assert_eq!(frame.unwrap().as_slice(), &[0x55, 0x00, 0x01, 0x00, 0x05, 0x70, 0x03, 0x09]);

    let response = Esp3Packet::Response { return_code: ReturnCode::Okay, response_data: MaxArray::new() };
    let (awaiting, frame) = handle_packet(awaiting, &response);
    assert_eq!(awaiting, AwaitingWhat::Nothing);
    assert_eq!(frame.unwrap().as_slice(), &[0x55, 0x00, 0x02, 0x00, 0x05, 0xCD, 0x3E, 0x00, 0x2F]);

    // a second response is not answered
    let (awaiting, frame) = handle_packet(awaiting, &response);
    assert_eq!(awaiting, AwaitingWhat::Nothing);
    assert!(frame.is_none());
}

#[test]
fn test_four_byte_teach_in() {
    let telegram = FourByteTelegram { data: 0x0828_FF50, sender: 0x0102_0304, status: 0x81 };
    assert!(telegram.is_teach_in());
    assert!(telegram.is_detailed_teach_in());
    assert_eq!(
        telegram.teach_in_details(),
        Some(FourByteTeachInDetails { func_value: 0x02, type_value: 0x05, manufacturer_id: 0x0FF }),
    );
    assert_eq!(
        telegram.teach_in_flags(),
        Some(FourByteTeachInFlags { is_response: true, sender_id_is_stored: false, eep_is_supported: true }),
    );
    assert_eq!(telegram.repeater_count(), RepeaterCount::RepeatedOnce);
    assert!(telegram.uses_crc8());

    let data_telegram = FourByteTelegram { data: 0x0000_0008, sender: 0, status: 0x0F };
    assert!(!data_telegram.is_teach_in());
    assert_eq!(data_telegram.teach_in_details(), None);
    assert_eq!(data_telegram.teach_in_flags(), None);
    assert_eq!(data_telegram.repeater_count(), RepeaterCount::DoNotRepeat);
    assert!(!data_telegram.uses_crc8());
}

#[test]
fn test_switch_and_one_byte_telegrams() {
    let switch = RepeatedSwitchTelegram { data: 0x50, sender: 1, status: 0x30 };
    assert!(switch.is_normal());
    assert!(switch.is_type2());
    assert_eq!(switch.status_byte(), 0x30);
    let unassigned = RepeatedSwitchTelegram { data: 0x00, sender: 1, status: 0x20 };
    assert!(!unassigned.is_normal());

    let teach_in = OneByteTelegram { data: 0x00, sender: 1, status: 0 };
    assert!(teach_in.is_teach_in());
    let contact = OneByteTelegram { data: 0x09, sender: 1, status: 0 };
    assert!(!contact.is_teach_in());
}

#[test]
fn test_encode_startup_delay_command() {
    let pkt = Esp3Packet::CommonCommand(CommandData::CoWrStartupDelay { delay: 0x00 });
    let frame = pkt.to_packet().unwrap();
    assert_eq!(frame.as_slice(), &[0x55, 0x00, 0x02, 0x00, 0x05, 0xCD, 0x2F, 0x00, 0x6D]);
}

#[test]
fn test_encoded_frame_decodes_to_packet() {
    let command = Esp3Packet::CommonCommand(CommandData::CoWrSleep { deep_sleep_period: 0x0102_0304 });
    let frame = command.to_packet().unwrap();
    assert_eq!(Esp3Packet::from_slice(frame.as_slice()), Some(command));

    let radio = Esp3Packet::RadioErp1 {
        radio_telegram: MaxArray::from_iter_or_panic(&[0xF6, 0x50, 0x00, 0x29, 0x89, 0xA9, 0x30]),
        opt_sub_telegram_number: Some(0x01),
        opt_destination_id: Some(0xFFFF_FFFF),
        opt_dbm: Some(0x2D),
        opt_security_level: Some(SecurityLevel::NoSecurity),
    };
    let frame = radio.to_packet().unwrap();
    assert_eq!(frame.as_slice(), &RPS_FRAME);
    assert_eq!(Esp3Packet::from_slice(frame.as_slice()), Some(radio));
}

#[test]
fn test_overlong_frame_is_discarded() {
    // a well-formed radio frame whose data is one byte longer than the maximum
    let mut frame = vec![0x55, 0x10, 0x00, 0x00, 0x01, 0x60];
    frame.extend(std::iter::repeat(0u8).take(0x1000));
    frame.push(0x00);
    assert_eq!(Esp3Packet::from_slice(&frame), None);

    // the longest data that fits is decoded
    let mut frame = vec![0x55, 0x0F, 0xFF, 0x00, 0x01, 0xFE];
    frame.extend(std::iter::repeat(0u8).take(0x0FFF));
    frame.push(0x00);
    match Esp3Packet::from_slice(&frame) {
        Some(Esp3Packet::RadioErp1 { radio_telegram, opt_sub_telegram_number, .. }) => {
            assert_eq!(radio_telegram.len(), 0x0FFF);
            assert_eq!(opt_sub_telegram_number, None);
        },
        other => panic!("unexpected decoding: {:?}", other),
    }
}

#[test]
fn test_filter_list_encodes_back_to_its_bytes() {
    let bytes = [
        0x00, 0x01, 0x02, 0x03, 0x04, 0x01, 0x00, 0x00, 0x00, 0xA5, 0x07, 0xFF, 0xFF, 0xFF, 0xFF,
    ];
    let list = CoRdFilter::from_data(&bytes, &[]).unwrap();
    assert_eq!(
        list.filters.as_slice(),
        &[
            FilterEntry { criterion: FilterCriterion::SourceAddress, value: 0x0102_0304 },
            FilterEntry { criterion: FilterCriterion::TelegramType, value: 0xA5 },
            FilterEntry { criterion: FilterCriterion::Other(0x07), value: 0xFFFF_FFFF },
        ],
    );
    assert_eq!(list.to_data().as_slice(), &bytes);
    assert_eq!(CoRdFilter::from_data(&bytes[0..14], &[]), None);
}

#[test]
fn test_learned_clients_encode_back_to_their_bytes() {
    let bytes = [0x01, 0x02, 0x03, 0x04, 0x05, 0x06, 0x07, 0x08, 0x09];
    let clients = SaRdLearnedClients::from_data(&bytes, &[]).unwrap();
    assert_eq!(clients.learned_clients.len(), 1);
    assert_eq!(clients.learned_clients.as_slice()[0].smart_ack_client_id, 0x0102_0304);
    assert_eq!(clients.learned_clients.as_slice()[0].controller_id, 0x0506_0708);
    assert_eq!(clients.learned_clients.as_slice()[0].mailbox_index, 0x09);
    assert_eq!(clients.to_data().as_slice(), &bytes);
}

#[test]
fn test_postmaster_priority_flags() {
    let flags = PostmasterPriority::from_bits_truncate(
        PostmasterPriority::LOCAL | PostmasterPriority::MAILBOX_PLACE | 0xF0,
    );
    assert_eq!(flags.bits(), 0x05);
    assert!(flags.contains(PostmasterPriority::from_bits_truncate(PostmasterPriority::LOCAL)));
    assert!(!flags.contains(PostmasterPriority::from_bits_truncate(PostmasterPriority::GOOD_RSSI)));
    assert!(flags.contains(PostmasterPriority::from_bits_truncate(0)));
    assert_eq!(PostmasterPriority::ALREADY_POSTMASTER, 0x08);
}
