use tuio_simulator::osc::{encode_message, OscTime, OscType};
use tuio_simulator::tuio::{AliveMessage, FrameMessage, PointerMessage, TokenMessage};

#[test]
fn test_frame_message() {
    let frm = FrameMessage::new(1234, 1705500000000, 1920, 1080, "tuio-simulator".to_string());
    let osc = frm.to_osc();

    assert_eq!(osc.addr, "/tuio2/frm");
    assert_eq!(osc.args.len(), 4);

    // (1920 << 16) | 1080 = 125830200
    if let OscType::Int(dimension) = osc.args[2] {
        assert_eq!(dimension, 125830200);
    } else {
        panic!("Expected Int for dimension");
    }
}

#[test]
fn test_alive_message() {
    let alv = AliveMessage::new(vec![42, 43, 44]);
    let osc = alv.to_osc();

    assert_eq!(osc.addr, "/tuio2/alv");
    assert_eq!(osc.args.len(), 3);
}

#[test]
fn test_alive_message_empty() {
    let alv = AliveMessage::new(vec![]);
    let osc = alv.to_osc();

    assert_eq!(osc.addr, "/tuio2/alv");
    assert_eq!(osc.args.len(), 0);
}

#[test]
fn test_token_message() {
    let tok = TokenMessage::new(
        42,
        1,
        0,
        0,
        0.5f32.to_bits(),
        0.5f32.to_bits(),
        1.57f32.to_bits(),
        0.0f32.to_bits(),
        0.0f32.to_bits(),
        0.0f32.to_bits(),
    );
    let osc = tok.to_osc();

    assert_eq!(osc.addr, "/tuio2/tok");
    assert_eq!(osc.args.len(), 9);

    // (1 << 16) | 0 = 65536
    if let OscType::Int(type_user_id) = osc.args[1] {
        assert_eq!(type_user_id, 65536);
    } else {
        panic!("Expected Int for type_user_id");
    }
}

#[test]
fn test_pointer_message() {
    let ptr = PointerMessage::new(
        42,
        1,
        0,
        0,
        0.5f32.to_bits(),
        0.5f32.to_bits(),
        0.0f32.to_bits(),
        0.0f32.to_bits(),
        0.0f32.to_bits(),
    );
    let osc = ptr.to_osc();

    assert_eq!(osc.addr, "/tuio2/ptr");
    assert_eq!(osc.args.len(), 13);

    if let OscType::Int(type_user_id) = osc.args[1] {
        assert_eq!(type_user_id, 65536);
    } else {
        panic!("Expected Int for type_user_id");
    }

    // Pressure 1.0: touching
    if let OscType::Float(pressure) = osc.args[8] {
        assert_eq!(f32::from_bits(pressure), 1.0);
    } else {
        panic!("Expected Float for pressure");
    }
}

#[test]
fn frame_time_tag_splits_milliseconds() {
    let osc = FrameMessage::new(1, 1500, 1, 1, String::new()).to_osc();
    match osc.args[1] {
        OscType::Time(t) => assert_eq!(t, OscTime { seconds: 1, fractional: 2147483648 }),
        _ => panic!("Expected Time"),
    }
    let osc = FrameMessage::new(1, 1705500000123, 1, 1, String::new()).to_osc();
    match osc.args[1] {
        // floor(123 * 2^32 / 1000) = 528280977
        OscType::Time(t) => assert_eq!(t, OscTime { seconds: 1705500000, fractional: 528280977 }),
        _ => panic!("Expected Time"),
    }
}

#[test]
fn frame_time_tag_before_epoch_rounds_down() {
    let osc = FrameMessage::new(1, -1, 1, 1, String::new()).to_osc();
    match osc.args[1] {
        // -1 ms is second -1 plus 999 ms
        OscType::Time(t) => assert_eq!(t, OscTime { seconds: u32::MAX, fractional: 4290672328 }),
        _ => panic!("Expected Time"),
    }
}

#[test]
fn frame_dimension_uses_all_sixteen_bits() {
    let osc = FrameMessage::new(1, 0, 65535, 65535, String::new()).to_osc();
    if let OscType::Int(d) = osc.args[2] {
        assert_eq!(d as u32, 0xffff_ffff);
    } else {
        panic!("Expected Int for dimension");
    }
}

#[test]
fn alive_message_bytes_are_exact() {
    let bytes = encode_message(&AliveMessage::new(vec![42]).to_osc());
    let mut expected = b"/tuio2/alv\0\0".to_vec();
    expected.extend_from_slice(b",i\0\0");
    expected.extend_from_slice(&[0, 0, 0, 42]);
    assert_eq!(bytes, expected);
}

#[test]
fn string_of_four_bytes_gets_four_nuls() {
    let bytes = encode_message(&FrameMessage::new(7, 0, 2, 3, "abcd".to_string()).to_osc());
    let mut expected = b"/tuio2/frm\0\0".to_vec();
    expected.extend_from_slice(b",itis\0\0\0");
    expected.extend_from_slice(&[0, 0, 0, 7]);
    expected.extend_from_slice(&[0, 0, 0, 0, 0, 0, 0, 0]);
    expected.extend_from_slice(&[0, 2, 0, 3]);
    expected.extend_from_slice(b"abcd\0\0\0\0");
    assert_eq!(bytes, expected);
}

#[test]
fn non_ascii_source_is_utf8() {
    let bytes = encode_message(&FrameMessage::new(0, 0, 1, 1, "\u{e9}".to_string()).to_osc());
    assert_eq!(&bytes[bytes.len() - 4..], &[0xc3, 0xa9, 0, 0]);
}

#[test]
fn float_argument_is_its_big_endian_bit_pattern() {
    let tok = TokenMessage::new(1, 0, 0, 0, 0.5f32.to_bits(), 1.0f32.to_bits(), 0, 0, 0, 0);
    let bytes = encode_message(&tok.to_osc());
    // address 12 bytes, tags ",iiiffffff" + NUL padded to 12, three ints
    let floats = &bytes[12 + 12 + 12..];
    assert_eq!(&floats[0..4], &0.5f32.to_be_bytes());
    assert_eq!(&floats[4..8], &1.0f32.to_be_bytes());
    assert_eq!(bytes.len(), 12 + 12 + 12 + 24);
}
