use tuio_simulator::state::{ObjectStore, TuioObject};

fn moved_object(now: i64) -> TuioObject {
    TuioObject {
        session_id: 1,
        type_id: 1,
        user_id: 0,
        component_id: 1,
        x: 0.6f32.to_bits(),
        y: 0.7f32.to_bits(),
        angle: 1.57f32.to_bits(),
        x_vel: 0,
        y_vel: 0,
        angle_vel: 0,
        last_x: 0.5f32.to_bits(),
        last_y: 0.5f32.to_bits(),
        last_angle: 0.0f32.to_bits(),
        last_update: now - 100,
    }
}

fn rate(now: f32, before: u32, dt_ms: u64) -> u32 {
    ((now - f32::from_bits(before)) / (dt_ms as f32 / 1000.0)).to_bits()
}

#[test]
fn velocity_sample_after_hundred_ms() {
    let now = 1_705_500_000_000i64;
    let mut store = ObjectStore::new();
    store.add(moved_object(now)).unwrap();
    let o = store.object_at(0);
    let dt = o.sample_interval(now).unwrap();
    assert_eq!(dt, 100);
    let vx = rate(0.6, o.last_x, dt);
    let vy = rate(0.7, o.last_y, dt);
    let va = rate(1.57, o.last_angle, dt);
    assert!(store.record_motion(0, now, vx, vy, va));
    let o = store.object_at(0);
    assert!((f32::from_bits(o.x_vel) - 1.0).abs() < 0.01);
    assert!((f32::from_bits(o.y_vel) - 2.0).abs() < 0.01);
    assert!((f32::from_bits(o.angle_vel) - 15.7).abs() < 0.01);
    assert_eq!((o.last_x, o.last_y, o.last_angle), (o.x, o.y, o.angle));
    assert_eq!(o.last_update, now);
}

#[test]
fn no_sample_within_a_millisecond() {
    let now = 50i64;
    let mut store = ObjectStore::new();
    let mut o = moved_object(now);
    o.last_update = now - 1;
    store.add(o).unwrap();
    assert_eq!(o.sample_interval(now), None);
    assert!(!store.record_motion(0, now, 1.0f32.to_bits(), 1.0f32.to_bits(), 1.0f32.to_bits()));
    assert_eq!(store.object_at(0), o);
    assert_eq!(o.sample_interval(now - 5), None);
}

#[test]
fn sample_interval_spans_the_whole_range() {
    let mut o = moved_object(0);
    o.last_update = i64::MIN;
    assert_eq!(o.sample_interval(i64::MAX), Some(u64::MAX));
    o.last_update = 0;
    assert_eq!(o.sample_interval(2), Some(2));
}
