use rosc::{decoder, OscPacket, OscType as RoscType};
use tuio_simulator::commands::{
    add_object_at, complete_start, get_server_status, remove_object, set_canvas_dimensions,
    set_frame_rate, start_server, stop_server, update_object_at,
};
use tuio_simulator::events::osc_message_event;
use tuio_simulator::frame::{frame_interval_ms, generate_frame, generate_frame_at};
use tuio_simulator::state::{AppState, TuioObject};

fn create_test_object(session_id: u32, x: f32, y: f32, angle: f32) -> TuioObject {
    TuioObject {
        session_id,
        type_id: 1,
        user_id: 0,
        component_id: 0,
        x: x.to_bits(),
        y: y.to_bits(),
        angle: angle.to_bits(),
        x_vel: 0,
        y_vel: 0,
        angle_vel: 0,
        last_x: x.to_bits(),
        last_y: y.to_bits(),
        last_angle: angle.to_bits(),
        last_update: 0,
    }
}

fn messages(bytes: &[u8]) -> Vec<rosc::OscMessage> {
    match decoder::decode_udp(bytes).unwrap().1 {
        OscPacket::Bundle(b) => b
            .content
            .into_iter()
            .map(|p| match p {
                OscPacket::Message(m) => m,
                OscPacket::Bundle(_) => panic!("Expected a message"),
            })
            .collect(),
        OscPacket::Message(_) => panic!("Expected a bundle"),
    }
}

#[test]
fn test_generate_frame() {
    let mut state = AppState::new();
    state.objects.add(create_test_object(1, 0.5, 0.5, 0.0)).unwrap();

    let result = generate_frame(&mut state);
    assert!(result.is_ok());

    let data = result.unwrap();
    assert_eq!(&data[0..8], b"#bundle\0");
    assert!(data.len() > 8);
}

#[test]
fn test_generate_frame_increments_counter() {
    let mut state = AppState::new();

    let initial_count = state.frame_counter;
    generate_frame(&mut state).unwrap();
    let after_count = state.frame_counter;

    assert_eq!(after_count, initial_count + 1);
}

#[test]
fn test_generate_frame_empty_objects() {
    let mut state = AppState::new();

    let result = generate_frame(&mut state);
    assert!(result.is_ok());

    let data = result.unwrap();
    assert_eq!(&data[0..8], b"#bundle\0");
}

#[test]
fn empty_frame_after_start() {
    let mut state = AppState::new();
    start_server(&mut state, 3343).unwrap();
    complete_start(&mut state, true).unwrap();
    set_frame_rate(&mut state, 60).unwrap();
    let data = generate_frame_at(&mut state, 1_000).unwrap();
    let msgs = messages(&data);
    assert_eq!(msgs.len(), 2);
    assert_eq!(msgs[0].addr, "/tuio2/frm");
    assert_eq!(msgs[0].args[0], RoscType::Int(1));
    assert_eq!(msgs[0].args[2], RoscType::Int(125_830_200));
    assert_eq!(msgs[0].args[3], RoscType::String("tuio-simulator".to_string()));
    assert_eq!(msgs[1].addr, "/tuio2/alv");
    assert!(msgs[1].args.is_empty());
}

#[test]
fn single_object_token() {
    let mut state = AppState::new();
    let id = add_object_at(&mut state, 7, 0.5f32.to_bits(), 0.5f32.to_bits(), 10).unwrap();
    let data = generate_frame_at(&mut state, 10).unwrap();
    let msgs = messages(&data);
    assert_eq!(msgs.len(), 3);
    assert_eq!(msgs[1].addr, "/tuio2/tok");
    assert_eq!(
        msgs[1].args,
        vec![
            RoscType::Int(id as i32),
            RoscType::Int(458_752),
            RoscType::Int(7),
            RoscType::Float(0.5),
            RoscType::Float(0.5),
            RoscType::Float(0.0),
            RoscType::Float(0.0),
            RoscType::Float(0.0),
            RoscType::Float(0.0),
        ]
    );
    assert_eq!(msgs[2].args, vec![RoscType::Int(id as i32)]);
}

#[test]
fn frame_ids_follow_each_other() {
    let mut state = AppState::new();
    let mut prev = state.frame_counter;
    for t in 0..5 {
        let data = generate_frame_at(&mut state, t).unwrap();
        let msgs = messages(&data);
        assert_eq!(msgs[0].args[0], RoscType::Int(prev.wrapping_add(1) as i32));
        prev = state.frame_counter;
    }
    assert_eq!(prev, 5);
}

#[test]
fn frames_differ_only_in_id_and_time() {
    let mut state = AppState::new();
    state.objects.add(create_test_object(3, 0.25, 0.75, 1.0)).unwrap();
    let a = messages(&generate_frame_at(&mut state, 5_000).unwrap());
    let b = messages(&generate_frame_at(&mut state, 5_017).unwrap());
    assert_ne!(a[0].args[0], b[0].args[0]);
    assert_ne!(a[0].args[1], b[0].args[1]);
    assert_eq!(a[0].args[2..], b[0].args[2..]);
    assert_eq!(a[1..], b[1..]);
}

#[test]
fn dimensions_follow_the_configuration() {
    let mut state = AppState::new();
    set_canvas_dimensions(&mut state, 800, 600).unwrap();
    let msgs = messages(&generate_frame_at(&mut state, 0).unwrap());
    assert_eq!(msgs[0].args[2], RoscType::Int((800 << 16) | 600));
}

#[test]
fn frame_rate_bounds() {
    let mut state = AppState::new();
    assert!(set_frame_rate(&mut state, 1).is_ok());
    assert!(generate_frame_at(&mut state, 0).is_ok());
    assert_eq!(frame_interval_ms(state.config.fps), 1000);
    assert!(set_frame_rate(&mut state, 120).is_ok());
    assert!(generate_frame_at(&mut state, 0).is_ok());
    assert_eq!(frame_interval_ms(state.config.fps), 8);
    assert!(set_frame_rate(&mut state, 0).is_err());
    assert!(set_frame_rate(&mut state, 121).is_err());
    assert_eq!(state.config.fps, 120);
}

#[test]
fn frame_interval_rounds_down() {
    assert_eq!(frame_interval_ms(60), 16);
    assert_eq!(frame_interval_ms(0), 1000);
    assert_eq!(frame_interval_ms(7), 142);
}

#[test]
fn add_then_remove_leaves_empty_alive() {
    let mut state = AppState::new();
    let id = add_object_at(&mut state, 4, 0.1f32.to_bits(), 0.9f32.to_bits(), 0).unwrap();
    remove_object(&mut state, id).unwrap();
    assert_eq!(get_server_status(&state).unwrap().object_count, 0);
    let msgs = messages(&generate_frame_at(&mut state, 0).unwrap());
    assert_eq!(msgs.len(), 2);
    assert!(msgs[1].args.is_empty());
}

#[test]
fn updated_position_reaches_the_frame() {
    let mut state = AppState::new();
    let id = add_object_at(&mut state, 2, 0.5f32.to_bits(), 0.5f32.to_bits(), 0).unwrap();
    update_object_at(&mut state, id, 0.6f32.to_bits(), 0.7f32.to_bits(), 1.57f32.to_bits(), 5).unwrap();
    let o = state.objects.get(id).unwrap();
    assert_eq!(o.last_update, 5);
    assert_eq!(o.last_x, 0.5f32.to_bits());
    let msgs = messages(&generate_frame_at(&mut state, 5).unwrap());
    assert_eq!(msgs[1].args[3], RoscType::Float(0.6));
    assert_eq!(msgs[1].args[4], RoscType::Float(0.7));
    assert_eq!(msgs[1].args[5], RoscType::Float(1.57));
}

#[test]
fn stop_twice_is_no_error() {
    let mut state = AppState::new();
    assert!(stop_server(&mut state).is_ok());
    assert!(!get_server_status(&state).unwrap().running);
    assert!(stop_server(&mut state).is_ok());
    assert!(!get_server_status(&state).unwrap().running);
}

#[test]
fn frame_event_reports_the_state() {
    let mut state = AppState::new();
    add_object_at(&mut state, 1, 0, 0, 0).unwrap();
    let data = generate_frame_at(&mut state, 99).unwrap();
    let ev = osc_message_event(&state, 99, data.len());
    assert_eq!(ev.frame_id, 1);
    assert_eq!(ev.timestamp, 99);
    assert_eq!(ev.object_count, 1);
    assert_eq!(ev.message_size, data.len());
    assert_eq!(ev.connected_clients, 0);
}
