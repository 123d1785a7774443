use lasercube::info::{ConnectionType, LaserInfo, LaserInfoHeader, LaserInfoParseError};
use lasercube::status::StatusFlags;

fn sample_header() -> [u8; LaserInfoHeader::SIZE] {
    let mut header = [0u8; LaserInfoHeader::SIZE];
    header[3] = 1; // fw_major
    header[4] = 2; // fw_minor
    header[5] = 0x01; // status_flags: output_enabled bit set
    header[10] = 0x70; // DAC rate (6000)
    header[11] = 0x17;
    header[14] = 0x70; // Max DAC rate (6000)
    header[15] = 0x17;
    header[19] = 0x88; // 5000 (low byte)
    header[20] = 0x13; // 5000 (high byte)
    header[21] = 0x70; // 6000 (low byte)
    header[22] = 0x17; // 6000 (high byte)
    header[23] = 100; // battery 100%
    header[24] = 31; // temperature
    header[25] = 2; // connection type
    header[26] = 1;
    header[27] = 2;
    header[28] = 3;
    header[29] = 4;
    header[30] = 5;
    header[31] = 6;
    header[32] = 192;
    header[33] = 168;
    header[34] = 1;
    header[35] = 100;
    header[37] = 1; // model number
    header
}

fn message_with_name(name: &[u8], terminated: bool) -> Vec<u8> {
    let mut message = sample_header().to_vec();
    message[0] = 0x77;
    message.extend_from_slice(name);
    if terminated {
        message.push(0);
    }
    message
}

#[test]
fn test_parse_laser_info_header() {
    // Create a test header array
    let mut header = [0u8; LaserInfoHeader::SIZE];

    // Set specific fields
    header[3] = 1; // fw_major
    header[4] = 2; // fw_minor
    header[5] = 0x01; // status_flags: output_enabled bit set

    // DAC rate (6000)
    header[10] = 0x70;
    header[11] = 0x17;
    header[12] = 0;
    header[13] = 0;

    // Max DAC rate (6000)
    header[14] = 0x70;
    header[15] = 0x17;
    header[16] = 0;
    header[17] = 0;

    // Buffer info
    header[19] = 0x88; // 5000 (low byte)
    header[20] = 0x13; // 5000 (high byte)
    header[21] = 0x70; // 6000 (low byte)
    header[22] = 0x17; // 6000 (high byte)

    // Status
    header[23] = 100; // battery 100%
    header[24] = 31; // temperature 31°C

    // Connection type
    header[25] = 2;

    // Serial number (offset 26-31)
    header[26] = 1;
    header[27] = 2;
    header[28] = 3;
    header[29] = 4;
    header[30] = 5;
    header[31] = 6;

    // IP address (offset 32-35)
    header[32] = 192;
    header[33] = 168;
    header[34] = 1;
    header[35] = 100;

    // Model number
    header[37] = 1;

    let info_header = LaserInfoHeader::from(header);

    assert_eq!(info_header.fw_major, 1);
    assert_eq!(info_header.fw_minor, 2);
    assert!(info_header.status.output_enabled());
    assert_eq!(info_header.status.output_enabled(), true);
    assert_eq!(info_header.dac_rate, 6000);
    assert_eq!(info_header.max_dac_rate, 6000);
    assert_eq!(info_header.rx_buffer_free, 5000);
    assert_eq!(info_header.rx_buffer_size, 6000);
    assert_eq!(info_header.battery_percent, 100);
    assert_eq!(info_header.temperature, 31);
    assert_eq!(info_header.model_number, 1);
    assert_eq!(info_header.conn_type, ConnectionType::Ethernet);
    assert_eq!(info_header.serial_number, [1, 2, 3, 4, 5, 6]);
    assert_eq!(info_header.ip_addr, [192, 168, 1, 100]);
}

#[test]
fn test_parse_status_flags() {
    // Create a test header array with different status flags
    let mut header = [0u8; LaserInfoHeader::SIZE];

    // Set firmware version to 0.13 (new flag layout)
    header[3] = 0; // fw_major
    header[4] = 13; // fw_minor

    // Set status flags with multiple bits
    // 0x2F = 0b0010_1111
    // - Output enabled
    // - Interlock enabled (v0.13)
    // - Temperature warning (v0.13)
    // - Over temperature (v0.13)
    // - Packet errors = 2
    header[5] = 0x2F;

    let info_header = LaserInfoHeader::from(header);

    assert_eq!(info_header.fw_major, 0);
    assert_eq!(info_header.fw_minor, 13);
    assert!(info_header.status.output_enabled());
    assert!(info_header.interlock_enabled());
    assert!(info_header.temperature_warning());
    assert!(info_header.over_temperature());
    assert_eq!(info_header.status.packet_errors(), 2);

    // Now test with older firmware version (0.12) and different flag layout
    header[4] = 12; // fw_minor
                    // 0x39 = 0b0011_1001
                    // - Output enabled
                    // - Interlock enabled (v0.12) at bit 3
                    // - Temperature warning (v0.12) at bit 4
                    // - Over temperature (v0.12) at bit 5
    header[5] = 0x39;

    let info_header = LaserInfoHeader::from(header);

    assert_eq!(info_header.fw_major, 0);
    assert_eq!(info_header.fw_minor, 12);
    assert!(info_header.status.output_enabled());
    assert!(info_header.interlock_enabled());
    assert!(info_header.temperature_warning());
    assert!(info_header.over_temperature());
}

#[test]
fn test_parse_laser_info_with_header() {
    // Create a test header array
    let mut message = [0u8; 80]; // 64 byte header plus model name and null terminator

    // Fill header with test values
    message[0] = 0x77; // Command byte
    message[3] = 1; // fw_major
    message[4] = 2; // fw_minor
    message[5] = 0x01; // status: output_enabled bit set

    // DAC rate (6000)
    message[10] = 0x70;
    message[11] = 0x17;
    message[12] = 0;
    message[13] = 0;

    // Max DAC rate (6000)
    message[14] = 0x70;
    message[15] = 0x17;
    message[16] = 0;
    message[17] = 0;

    // Buffer info
    message[19] = 0x88; // 5000 (low byte)
    message[20] = 0x13; // 5000 (high byte)
    message[21] = 0x70; // 6000 (low byte)
    message[22] = 0x17; // 6000 (high byte)

    // Status
    message[23] = 100; // battery 100%
    message[24] = 31; // temperature 31°C

    // Connection type (ethernet)
    message[25] = 2;

    // Serial number (offset 26-31)
    message[26] = 1;
    message[27] = 2;
    message[28] = 3;
    message[29] = 4;
    message[30] = 5;
    message[31] = 6;

    // IP address (offset 32-35)
    message[32] = 192;
    message[33] = 168;
    message[34] = 1;
    message[35] = 100;

    // Model number
    message[37] = 1;

    // Model name starting at offset 38
    let model_name = b"LaserCube Pro";
    let name_offset = 38;
    for (i, &byte) in model_name.iter().enumerate() {
        message[name_offset + i] = byte;
    }
    message[name_offset + model_name.len()] = 0; // Null terminator

    let laser_info = LaserInfo::try_from(&message[..]).unwrap();

    assert_eq!(laser_info.header.fw_major, 1);
    assert_eq!(laser_info.header.fw_minor, 2);
    assert_eq!(laser_info.header.status.output_enabled(), true);
    assert_eq!(laser_info.header.dac_rate, 6000);
    assert_eq!(laser_info.header.max_dac_rate, 6000);
    assert_eq!(laser_info.header.rx_buffer_free, 5000);
    assert_eq!(laser_info.header.rx_buffer_size, 6000);
    assert_eq!(laser_info.header.battery_percent, 100);
    assert_eq!(laser_info.header.temperature, 31);
    assert_eq!(laser_info.header.conn_type, ConnectionType::Ethernet);
    assert_eq!(laser_info.header.model_number, 1);
    assert_eq!(laser_info.header.serial_number, [1, 2, 3, 4, 5, 6]);
    assert_eq!(laser_info.header.ip_addr, [192, 168, 1, 100]);
    assert_eq!(laser_info.model_name, "LaserCube Pro");
}

#[test]
fn info_size_constants() {
    assert_eq!(LaserInfoHeader::SIZE, 38);
    assert_eq!(LaserInfo::MIN_SIZE, LaserInfoHeader::SIZE);
    assert_eq!(LaserInfo::MAX_SIZE, 64);
    assert_eq!(LaserInfo::MAX_MODEL_NAME_SIZE, LaserInfo::MAX_SIZE - LaserInfo::MIN_SIZE);
}

#[test]
fn connection_type_of_every_byte() {
    assert_eq!(ConnectionType::from(0), ConnectionType::Unknown);
    assert_eq!(ConnectionType::from(1), ConnectionType::Usb);
    assert_eq!(ConnectionType::from(2), ConnectionType::Ethernet);
    assert_eq!(ConnectionType::from(3), ConnectionType::Wifi);
    for value in 4..=255u8 {
        assert_eq!(ConnectionType::from(value), ConnectionType::Unknown);
    }
}

#[test]
fn header_reads_wide_fields_little_endian() {
    let mut header = [0u8; 38];
    header[10] = 0x78;
    header[11] = 0x56;
    header[12] = 0x34;
    header[13] = 0x12;
    header[14] = 0xFF;
    header[15] = 0xFF;
    header[16] = 0xFF;
    header[17] = 0xFF;
    header[19] = 0xFF;
    header[20] = 0xFF;
    header[21] = 0x01;
    header[22] = 0x80;
    let h = LaserInfoHeader::from(header);
    assert_eq!(h.dac_rate, 0x1234_5678);
    assert_eq!(h.max_dac_rate, u32::MAX);
    assert_eq!(h.rx_buffer_free, u16::MAX);
    assert_eq!(h.rx_buffer_size, 0x8001);
}

#[test]
fn header_ignores_reserved_bytes() {
    let plain = LaserInfoHeader::from(sample_header());
    let mut noisy = sample_header();
    for i in [0usize, 1, 2, 6, 7, 8, 9, 18, 36] {
        noisy[i] = 0xAB;
    }
    assert_eq!(LaserInfoHeader::from(noisy), plain);
    assert!(LaserInfoHeader::from(noisy).same_as(&plain));

    // Every other byte is read.
    for i in 0..38usize {
        if [0usize, 1, 2, 6, 7, 8, 9, 18, 36].contains(&i) {
            continue;
        }
        let mut changed = sample_header();
        changed[i] ^= 0x40;
        assert!(LaserInfoHeader::from(changed) != plain);
        assert!(!LaserInfoHeader::from(changed).same_as(&plain));
    }
}

#[test]
fn header_keeps_the_status_byte_as_sent() {
    let mut header = sample_header();
    header[5] = 0xC5;
    let h = LaserInfoHeader::from(header);
    assert_eq!(h.status, StatusFlags::from_bits_retain(0xC5));
    assert_eq!(h.status.bits(), 0xC5);
}

#[test]
fn too_short_for_a_header() {
    for len in 0..38usize {
        let bytes = vec![1u8; len];
        assert_eq!(
            LaserInfo::try_from(&bytes[..]),
            Err(LaserInfoParseError::ResponseTooShort { expected: 38, actual: len })
        );
    }
}

#[test]
fn header_alone_has_no_terminator() {
    let bytes = sample_header();
    assert_eq!(
        LaserInfo::try_from(&bytes[..]),
        Err(LaserInfoParseError::MissingNullTerminator)
    );
}

#[test]
fn name_without_terminator_is_rejected() {
    let message = message_with_name(b"LaserCube", false);
    assert_eq!(
        LaserInfo::try_from(&message[..]),
        Err(LaserInfoParseError::MissingNullTerminator)
    );
}

#[test]
fn zero_bytes_in_the_header_end_no_name() {
    // The header is full of zero bytes; only one after it counts.
    let mut message = vec![0u8; 38];
    message.extend_from_slice(b"abc");
    assert_eq!(
        LaserInfo::try_from(&message[..]),
        Err(LaserInfoParseError::MissingNullTerminator)
    );
}

#[test]
fn empty_name() {
    let message = message_with_name(b"", true);
    let info = LaserInfo::try_from(&message[..]).unwrap();
    assert_eq!(info.model_name, "");
    assert_eq!(info.header, LaserInfoHeader::from(sample_header()));
}

#[test]
fn name_ends_at_the_first_terminator() {
    let mut message = message_with_name(b"Cube", true);
    message.extend_from_slice(b"ignored");
    message.push(0);
    let info = LaserInfo::try_from(&message[..]).unwrap();
    assert_eq!(info.model_name, "Cube");
}

#[test]
fn name_longer_than_the_record_bound_still_decodes() {
    let name = [b'x'; 40];
    let message = message_with_name(&name, true);
    let info = LaserInfo::try_from(&message[..]).unwrap();
    assert_eq!(info.model_name.len(), 40);
}

#[test]
fn name_in_utf8() {
    let message = message_with_name("Würfel ✓".as_bytes(), true);
    let info = LaserInfo::try_from(&message[..]).unwrap();
    assert_eq!(info.model_name, "Würfel ✓");
}

#[test]
fn invalid_utf8_in_the_name_is_replaced() {
    let message = message_with_name(&[b'A', 0xFF, b'B'], true);
    let info = LaserInfo::try_from(&message[..]).unwrap();
    assert_eq!(info.model_name, "A\u{FFFD}B");

    let truncated = message_with_name(&[b'o', b'k', 0xE2, 0x9C], true);
    let info = LaserInfo::try_from(&truncated[..]).unwrap();
    assert_eq!(info.model_name, "ok\u{FFFD}");
}

#[test]
fn firmware_version_text() {
    let mut header = sample_header();
    let info = LaserInfo::new(LaserInfoHeader::from(header), String::from("x"));
    assert_eq!(info.firmware_version(), "1.2");

    header[3] = 0;
    header[4] = 13;
    let info = LaserInfo::new(LaserInfoHeader::from(header), String::new());
    assert_eq!(info.firmware_version(), "0.13");

    header[3] = 255;
    header[4] = 100;
    let info = LaserInfo::new(LaserInfoHeader::from(header), String::new());
    assert_eq!(info.firmware_version(), "255.100");

    header[3] = 10;
    header[4] = 9;
    let info = LaserInfo::new(LaserInfoHeader::from(header), String::new());
    assert_eq!(info.firmware_version(), "10.9");

    for major in 0..=255u8 {
        header[3] = major;
        header[4] = 255 - major;
        let info = LaserInfo::new(LaserInfoHeader::from(header), String::new());
        assert_eq!(info.firmware_version(), format!("{}.{}", major, 255 - major));
    }
}

#[test]
fn serial_number_text() {
    let info = LaserInfo::new(LaserInfoHeader::from(sample_header()), String::new());
    assert_eq!(info.serial_number_string(), "01:02:03:04:05:06");

    let mut header = sample_header();
    header[26] = 0x00;
    header[27] = 0x0A;
    header[28] = 0xA0;
    header[29] = 0xFF;
    header[30] = 0x9F;
    header[31] = 0xC7;
    let info = LaserInfo::new(LaserInfoHeader::from(header), String::new());
    assert_eq!(info.serial_number_string(), "00:0a:a0:ff:9f:c7");
    assert_eq!(info.serial_number_string().len(), 17);
}

#[test]
fn records_compare_by_header_and_name() {
    let a = LaserInfo::new(LaserInfoHeader::from(sample_header()), String::from("Cube"));
    let b = a.clone();
    assert!(a.same_as(&b));
    assert_eq!(a, b);

    let c = LaserInfo::new(LaserInfoHeader::from(sample_header()), String::from("Cubf"));
    assert!(!a.same_as(&c));

    let mut other = sample_header();
    other[35] = 101;
    let d = LaserInfo::new(LaserInfoHeader::from(other), String::from("Cube"));
    assert!(!a.same_as(&d));
}
