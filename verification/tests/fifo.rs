use icm426xx::fifo::{
    be_i16, be_u16, decode, extended, i8_value, packet_kind, sample_at, Axes, PacketKind, Sample,
};

fn accel_packet(x: i16, y: i16, z: i16, temperature: i8) -> Vec<u8> {
    let mut packet = vec![0x40];
    packet.extend_from_slice(&x.to_be_bytes());
    packet.extend_from_slice(&y.to_be_bytes());
    packet.extend_from_slice(&z.to_be_bytes());
    packet.push(temperature as u8);
    packet
}

fn gyro_packet(x: i16, y: i16, z: i16, temperature: i8) -> Vec<u8> {
    let mut packet = accel_packet(x, y, z, temperature);
    packet[0] = 0x20;
    packet
}

#[test]
fn two_packets_then_padding_give_two_samples() {
    let mut bytes = accel_packet(1, -2, 3, 25);
    bytes.extend(gyro_packet(-100, 200, -300, -4));
    bytes.extend_from_slice(&[0x00, 0xAA, 0xBB]);
    assert_eq!(bytes.len(), 19);
    let mut samples = Vec::new();
    let count = decode(&bytes, &mut samples);
    assert_eq!(count, 2);
    assert_eq!(
        samples,
        vec![
            Sample {
                header: 0x40,
                accel: Some(Axes { x: 1, y: -2, z: 3 }),
                gyro: None,
                temperature: 25,
                timestamp: None,
            },
            Sample {
                header: 0x20,
                accel: None,
                gyro: Some(Axes { x: -100, y: 200, z: -300 }),
                temperature: -4,
                timestamp: None,
            },
        ]
    );
}

#[test]
fn empty_flag_ends_decoding_too() {
    let mut bytes = accel_packet(7, 8, 9, 0);
    bytes.extend_from_slice(&[0x80, 0x40, 0x00]);
    let mut samples = Vec::new();
    assert_eq!(decode(&bytes, &mut samples), 1);
    assert_eq!(samples.len(), 1);
}

#[test]
fn partial_last_packet_is_dropped() {
    let mut bytes = accel_packet(10, 20, 30, 1);
    bytes.extend(accel_packet(11, 21, 31, 2));
    bytes.extend_from_slice(&accel_packet(12, 22, 32, 3)[..4]);
    assert_eq!(bytes.len(), 20);
    let mut samples = Vec::new();
    let count = decode(&bytes, &mut samples);
    assert_eq!(count, (20 - 4) / 8);
    assert_eq!(samples.len(), 2);
    assert_eq!(samples[0].accel, Some(Axes { x: 10, y: 20, z: 30 }));
    assert_eq!(samples[1].accel, Some(Axes { x: 11, y: 21, z: 31 }));
    assert_eq!(samples[1].temperature, 2);
}

#[test]
fn decode_appends_to_what_is_there() {
    let first = accel_packet(1, 1, 1, 1);
    let second = gyro_packet(2, 2, 2, 2);
    let mut samples = Vec::new();
    assert_eq!(decode(&first, &mut samples), 1);
    assert_eq!(decode(&second, &mut samples), 1);
    assert_eq!(samples.len(), 2);
    assert_eq!(samples[0].header, 0x40);
    assert_eq!(samples[1].header, 0x20);
}

#[test]
fn nothing_in_nothing_out() {
    let mut samples = Vec::new();
    assert_eq!(decode(&[], &mut samples), 0);
    assert_eq!(decode(&[0x00], &mut samples), 0);
    assert_eq!(decode(&[0x40, 1, 2], &mut samples), 0);
    assert!(samples.is_empty());
}

#[test]
fn combined_packet_has_both_sensors_and_time_stamp() {
    let bytes = [
        0x60, 0x00, 0x01, 0xFF, 0xFF, 0x80, 0x00, 0x7F, 0xFF, 0x01, 0x00, 0xFE, 0x0C, 0x80, 0x12,
        0x34,
    ];
    let mut samples = Vec::new();
    assert_eq!(decode(&bytes, &mut samples), 1);
    assert_eq!(
        samples[0],
        Sample {
            header: 0x60,
            accel: Some(Axes { x: 1, y: -1, z: -32768 }),
            gyro: Some(Axes { x: 32767, y: 256, z: -500 }),
            temperature: -128,
            timestamp: Some(0x1234),
        }
    );
}

#[test]
fn high_resolution_packet_has_twenty_bits() {
    let bytes = [
        0x70, 0x00, 0x01, 0xFF, 0xFF, 0x80, 0x00, 0x7F, 0xFF, 0x00, 0x00, 0xFF, 0xFE, 0xFF, 0x38,
        0xAB, 0xCD, 0x5A, 0xF0, 0x0F,
    ];
    assert_eq!(packet_kind(bytes[0]), Some(PacketKind::HighResolution));
    let sample = sample_at(PacketKind::HighResolution, &bytes, 0);
    assert_eq!(
        sample,
        Sample {
            header: 0x70,
            accel: Some(Axes { x: 16 + 5, y: -16 + 15, z: -524288 }),
            gyro: Some(Axes { x: 524287 - 15 + 10, y: 0, z: -32 + 15 }),
            temperature: -200,
            timestamp: Some(0xABCD),
        }
    );
    let mut samples = Vec::new();
    assert_eq!(decode(&bytes, &mut samples), 1);
    assert_eq!(samples[0], sample);
    assert_eq!(decode(&bytes[..19], &mut samples), 0);
}

#[test]
fn header_decides_kind_and_length() {
    assert_eq!(packet_kind(0x00), None);
    assert_eq!(packet_kind(0x0F), None);
    assert_eq!(packet_kind(0x10), None);
    assert_eq!(packet_kind(0x50), None);
    assert_eq!(packet_kind(0x30), None);
    assert_eq!(packet_kind(0x80), None);
    assert_eq!(packet_kind(0xE0), None);
    assert_eq!(packet_kind(0x40), Some(PacketKind::Accel));
    assert_eq!(packet_kind(0x4B), Some(PacketKind::Accel));
    assert_eq!(packet_kind(0x20), Some(PacketKind::Gyro));
    assert_eq!(packet_kind(0x60), Some(PacketKind::Combined));
    assert_eq!(packet_kind(0x68), Some(PacketKind::Combined));
    assert_eq!(packet_kind(0x70), Some(PacketKind::HighResolution));
    assert_eq!(PacketKind::Accel.len(), 8);
    assert_eq!(PacketKind::Gyro.len(), 8);
    assert_eq!(PacketKind::Combined.len(), 16);
    assert_eq!(PacketKind::HighResolution.len(), 20);
}

#[test]
fn numbers_agree_with_twos_complement() {
    for value in [0i16, 1, -1, 255, 256, -256, 12345, -12345, i16::MAX, i16::MIN] {
        let [high, low] = value.to_be_bytes();
        assert_eq!(be_i16(high, low), value as i32);
        assert_eq!(be_u16(high, low), value as u16);
    }
    for byte in 0..=255u8 {
        assert_eq!(i8_value(byte), (byte as i8) as i16);
    }
    assert_eq!(extended(0x7F, 0xFF, 0x0F), 524287);
    assert_eq!(extended(0x80, 0x00, 0x00), -524288);
    assert_eq!(extended(0xFF, 0xFF, 0x0F), -1);
    assert_eq!(extended(0x00, 0x00, 0xF3), 3);
}
