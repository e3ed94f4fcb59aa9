use rosc::{decoder, OscPacket, OscType as RoscType};
use tuio_simulator::osc::{encode_bundle, OscBundle};
use tuio_simulator::state::TuioObject;
use tuio_simulator::tuio::{
    create_and_encode_tuio_bundle, create_tuio_bundle, create_tuio_bundle_with_type, MessageType,
};

fn create_test_object() -> TuioObject {
    TuioObject {
        session_id: 42,
        type_id: 1,
        user_id: 0,
        component_id: 0,
        x: 0.5f32.to_bits(),
        y: 0.5f32.to_bits(),
        angle: 1.57f32.to_bits(),
        x_vel: 0.0f32.to_bits(),
        y_vel: 0.0f32.to_bits(),
        angle_vel: 0.0f32.to_bits(),
        last_x: 0.5f32.to_bits(),
        last_y: 0.5f32.to_bits(),
        last_angle: 1.57f32.to_bits(),
        last_update: 0,
    }
}

fn decode(bytes: &[u8]) -> rosc::OscBundle {
    match decoder::decode_udp(bytes).expect("a conformant OSC packet").1 {
        OscPacket::Bundle(b) => b,
        OscPacket::Message(_) => panic!("Expected a bundle"),
    }
}

fn message(p: &OscPacket) -> &rosc::OscMessage {
    match p {
        OscPacket::Message(m) => m,
        OscPacket::Bundle(_) => panic!("Expected a message"),
    }
}

#[test]
fn test_create_tuio_bundle_empty() {
    let bundle = create_tuio_bundle(1, 1000, 1920, 1080, "test", &[]);

    assert_eq!(bundle.content.len(), 2); // FRM + ALV only

    assert_eq!(bundle.content[0].addr, "/tuio2/frm");

    assert_eq!(bundle.content[1].addr, "/tuio2/alv");
    assert_eq!(bundle.content[1].args.len(), 0);
}

#[test]
fn test_create_tuio_bundle_with_objects() {
    let obj1 = create_test_object();
    let mut obj2 = create_test_object();
    obj2.session_id = 43;

    let objects = vec![obj1, obj2];
    let bundle = create_tuio_bundle(1, 1000, 1920, 1080, "test", &objects);

    assert_eq!(bundle.content.len(), 4); // FRM + 2*TOK + ALV

    assert_eq!(bundle.content[0].addr, "/tuio2/frm");
    assert_eq!(bundle.content[1].addr, "/tuio2/tok");
    assert_eq!(bundle.content[2].addr, "/tuio2/tok");
    assert_eq!(bundle.content[3].addr, "/tuio2/alv");
    assert_eq!(bundle.content[3].args.len(), 2);
}

#[test]
fn test_encode_bundle() {
    let bundle = create_tuio_bundle(1, 1000, 1920, 1080, "test", &[]);
    let encoded = encode_bundle(&bundle);

    assert!(encoded.is_ok());
    let data = encoded.unwrap();

    assert_eq!(&data[0..8], b"#bundle\0");
    assert!(data.len() > 8);
}

#[test]
fn test_create_and_encode_tuio_bundle() {
    let obj = create_test_object();
    let result = create_and_encode_tuio_bundle(1, 1000, 1920, 1080, "test", &[obj]);

    assert!(result.is_ok());
    let data = result.unwrap();

    assert_eq!(&data[0..8], b"#bundle\0");
    assert!(data.len() > 8);
}

#[test]
fn pointer_bundle_uses_ptr_messages() {
    let bundle =
        create_tuio_bundle_with_type(5, 0, 640, 480, "s", &[create_test_object()], MessageType::Pointer);
    assert_eq!(bundle.content.len(), 3);
    assert_eq!(bundle.content[1].addr, "/tuio2/ptr");
    assert_eq!(bundle.content[1].args.len(), 13);
}

#[test]
fn bundle_header_is_immediate() {
    let data = create_and_encode_tuio_bundle(1, 1000, 1920, 1080, "test", &[]).unwrap();
    assert_eq!(&data[8..16], &[0, 0, 0, 0, 0, 0, 0, 1]);
    // first element: its size, then "/tuio2/frm"
    let size = u32::from_be_bytes([data[16], data[17], data[18], data[19]]) as usize;
    assert_eq!(&data[20..30], b"/tuio2/frm");
    assert_eq!(&data[20 + size..20 + size + 4], &[0, 0, 0, 16]);
    assert_eq!(data.len(), 20 + size + 4 + 16);
}

#[test]
fn empty_bundle_encodes() {
    let b = OscBundle { timetag: tuio_simulator::osc::OscTime { seconds: 3, fractional: 4 }, content: vec![] };
    assert_eq!(encode_bundle(&b).unwrap(), b"#bundle\0\0\0\0\x03\0\0\0\x04".to_vec());
}

#[test]
fn conformant_parser_reads_back_the_frame() {
    let mut obj2 = create_test_object();
    obj2.session_id = 43;
    obj2.type_id = 7;
    obj2.user_id = 2;
    obj2.component_id = 9;
    obj2.x_vel = (-1.25f32).to_bits();
    let objects = vec![create_test_object(), obj2];
    let data = create_and_encode_tuio_bundle(77, 1705500000250, 1920, 1080, "tuio-simulator", &objects)
        .unwrap();
    let bundle = decode(&data);
    assert_eq!(bundle.timetag, rosc::OscTime { seconds: 0, fractional: 1 });
    assert_eq!(bundle.content.len(), 4);

    let frm = message(&bundle.content[0]);
    assert_eq!(frm.addr, "/tuio2/frm");
    assert_eq!(
        frm.args,
        vec![
            RoscType::Int(77),
            RoscType::Time(rosc::OscTime { seconds: 1705500000, fractional: 1073741824 }),
            RoscType::Int(125830200),
            RoscType::String("tuio-simulator".to_string()),
        ]
    );

    let tok = message(&bundle.content[2]);
    assert_eq!(tok.addr, "/tuio2/tok");
    assert_eq!(
        tok.args,
        vec![
            RoscType::Int(43),
            RoscType::Int((7 << 16) | 2),
            RoscType::Int(9),
            RoscType::Float(0.5),
            RoscType::Float(0.5),
            RoscType::Float(1.57),
            RoscType::Float(-1.25),
            RoscType::Float(0.0),
            RoscType::Float(0.0),
        ]
    );

    let alv = message(&bundle.content[3]);
    assert_eq!(alv.addr, "/tuio2/alv");
    assert_eq!(alv.args, vec![RoscType::Int(42), RoscType::Int(43)]);
}

#[test]
fn conformant_parser_reads_back_pointer_messages() {
    let bundle =
        create_tuio_bundle_with_type(2, 0, 10, 20, "", &[create_test_object()], MessageType::Pointer);
    let data = encode_bundle(&bundle).unwrap();
    let decoded = decode(&data);
    let ptr = message(&decoded.content[1]);
    assert_eq!(ptr.addr, "/tuio2/ptr");
    assert_eq!(ptr.args.len(), 13);
    assert_eq!(ptr.args[6], RoscType::Float(0.0));
    assert_eq!(ptr.args[7], RoscType::Float(0.0));
    assert_eq!(ptr.args[8], RoscType::Float(1.0));
    let frm = message(&decoded.content[0]);
    assert_eq!(frm.args[3], RoscType::String(String::new()));
}
