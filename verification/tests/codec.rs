use foc_ctrl::cmd::CMD;
use foc_ctrl::ctrl::blank_data;
use foc_ctrl::ctrl::conclude_exchange;
use foc_ctrl::ctrl::conclude_read;
use foc_ctrl::ctrl::conclude_write;
use foc_ctrl::ctrl::decode_reply;
use foc_ctrl::ctrl::encode_cmd;
use foc_ctrl::ctrl::route;
use foc_ctrl::ctrl::FocCtrlError;
use foc_ctrl::ctrl::Route;
use foc_ctrl::ctrl::RxData;
use foc_ctrl::ctrl::CMD_LEN;
use foc_ctrl::ctrl::READ_LEN;
use foc_ctrl::ctrl::REPLY_LEN;
use foc_ctrl::wire::word_from_le;
use foc_ctrl::wire::word_to_le;

fn reply(id: u8, first: f32, second: f32, third: f32) -> [u8; 13] {
    let mut buf = [0u8; 13];
    buf[0] = id;
    buf[1..5].copy_from_slice(&first.to_le_bytes());
    buf[5..9].copy_from_slice(&second.to_le_bytes());
    buf[9..13].copy_from_slice(&third.to_le_bytes());
    buf
}

#[test]
fn frame_sizes_are_those_of_the_wire_format() {
    assert_eq!(CMD_LEN, 5);
    assert_eq!(REPLY_LEN, 13);
    assert_eq!(READ_LEN, 20);
}

#[test]
fn word_bytes_are_little_endian() {
    assert_eq!(word_to_le(0x0403_0201), [1, 2, 3, 4]);
    assert_eq!(word_to_le(0), [0, 0, 0, 0]);
    assert_eq!(word_to_le(u32::MAX), [255, 255, 255, 255]);
    assert_eq!(word_to_le(0x4148_0000), 12.5f32.to_le_bytes());
    assert_eq!(word_from_le(&[9, 1, 2, 3, 4, 9], 1), 0x0403_0201);
    assert_eq!(word_from_le(&[255, 255, 255, 255], 0), u32::MAX);
}

#[test]
fn encode_voltage_limit_example() {
    let cmd = CMD { id: 4, val: 12.5f32.to_bits() };
    assert_eq!(encode_cmd(cmd), [4, 0x00, 0x00, 0x48, 0x41]);
}

#[test]
fn encode_is_identifier_then_little_endian_value() {
    let values = [0.0f32, -0.0, 1.0, -1.0, 7.0, 1e-40, -1e-40, f32::MIN_POSITIVE, f32::MAX, f32::MIN, 3.14159];
    for id in [0u8, 1, 99, 100, 153, 200, 255] {
        for v in values {
            let buf = encode_cmd(CMD { id, val: v.to_bits() });
            assert_eq!(buf[0], id);
            assert_eq!(&buf[1..], &v.to_le_bytes());
        }
    }
}

#[test]
fn values_round_trip_bit_for_bit() {
    let values = [
        0.0f32,
        -0.0,
        1.0,
        -1.0,
        12.5,
        -273.15,
        1e-40,
        -1e-45,
        f32::MIN_POSITIVE,
        f32::EPSILON,
        f32::MAX,
        f32::MIN,
        f32::INFINITY,
        f32::NEG_INFINITY,
    ];
    for v in values {
        let buf = encode_cmd(CMD { id: 2, val: v.to_bits() });
        let back = f32::from_bits(word_from_le(&buf, 1));
        assert_eq!(back.to_bits(), v.to_bits());
    }
    let mut word: u32 = 1;
    for _ in 0..2000 {
        word = word.wrapping_mul(1664525).wrapping_add(1013904223);
        assert_eq!(word_from_le(&word_to_le(word), 0), word);
        assert_eq!(word_to_le(word), word.to_le_bytes());
    }
}

#[test]
fn decode_reads_identifier_and_three_fields() {
    let buf = reply(150, 1.0, 2.0, 3.0);
    let data = decode_reply(0x21, &buf);
    assert_eq!(data.motor_id, 0x21);
    assert_eq!(data.cmd_id, 150);
    assert_eq!(data.cmd_key, "");
    assert_eq!(f32::from_bits(data.first), 1.0);
    assert_eq!(f32::from_bits(data.second), 2.0);
    assert_eq!(f32::from_bits(data.third), 3.0);
}

#[test]
fn decode_ignores_padding_behind_the_fields() {
    let mut buf = [0xEEu8; 20];
    buf[..13].copy_from_slice(&reply(7, -1.5, 0.0, 1e-40));
    let data = decode_reply(3, &buf);
    assert_eq!(
        data,
        RxData {
            motor_id: 3,
            cmd_id: 7,
            cmd_key: String::new(),
            first: (-1.5f32).to_bits(),
            second: 0,
            third: 1e-40f32.to_bits(),
        }
    );
}

#[test]
fn blank_data_is_all_zero() {
    assert_eq!(
        blank_data(9),
        RxData { motor_id: 9, cmd_id: 0, cmd_key: String::new(), first: 0, second: 0, third: 0 }
    );
}

#[test]
fn conclude_write_maps_failure_to_write_err() {
    assert_eq!(conclude_write::<u8>(Ok(())), Ok(()));
    assert_eq!(conclude_write(Err("nack")), Err(FocCtrlError::WriteErr));
}

#[test]
fn conclude_read_does_not_validate_the_identifier() {
    let mut buf = [0u8; 20];
    buf[..13].copy_from_slice(&reply(42, 4.0, 5.0, 6.0));
    let data = conclude_read::<()>(1, Ok(()), &buf).unwrap();
    assert_eq!(data.cmd_id, 42);
    assert_eq!(f32::from_bits(data.second), 5.0);
    assert_eq!(conclude_read(1, Err(()), &buf), Err(FocCtrlError::ReadErr));
}

#[test]
fn conclude_exchange_checks_the_echoed_identifier() {
    let buf = reply(150, 1.0, 2.0, 3.0);
    let data = conclude_exchange::<()>(5, 150, Ok(()), &buf).unwrap();
    assert_eq!(data.motor_id, 5);
    assert_eq!(data.cmd_id, 150);
    assert_eq!(f32::from_bits(data.first), 1.0);
    assert_eq!(f32::from_bits(data.second), 2.0);
    assert_eq!(f32::from_bits(data.third), 3.0);
    assert_eq!(conclude_exchange::<()>(5, 151, Ok(()), &buf), Err(FocCtrlError::WriteReadMatchErr));
    assert_eq!(conclude_exchange(5, 150, Err(()), &buf), Err(FocCtrlError::WriteReadErr));
    assert_eq!(conclude_exchange(5, 151, Err(()), &buf), Err(FocCtrlError::WriteReadErr));
}

#[test]
fn route_follows_the_identifier_bands() {
    assert_eq!(route(0), Route::Idle);
    assert_eq!(route(1), Route::Write);
    assert_eq!(route(50), Route::Write);
    assert_eq!(route(99), Route::Write);
    assert_eq!(route(100), Route::Exchange);
    assert_eq!(route(150), Route::Exchange);
    assert_eq!(route(199), Route::Exchange);
    assert_eq!(route(200), Route::Local);
    assert_eq!(route(210), Route::Local);
    assert_eq!(route(255), Route::Local);
}
