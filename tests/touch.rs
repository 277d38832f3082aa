use touch_input::mapper::{AxisRange, CoordMapper, SurfacePos};
use touch_input::record::{
    InputEvent, ABS_MT_POSITION_X, ABS_MT_POSITION_Y, ABS_MT_SLOT, ABS_MT_TRACKING_ID, ABS_X,
    ABS_Y, BTN_TOUCH, EV_ABS, EV_KEY, EV_SYN, SYN_REPORT,
};
use touch_input::touch::{TouchDevice, TouchEvent, TouchPhase};

fn mapper() -> CoordMapper {
    CoordMapper::new(
        AxisRange { min: 0, max: 4095 },
        AxisRange { min: 0, max: 4095 },
        1080,
        2400,
        0,
    )
}

fn abs(code: u16, value: i32) -> InputEvent {
    InputEvent { tv_sec: 0, tv_usec: 0, event_type: EV_ABS, code, value }
}

fn key(code: u16, value: i32) -> InputEvent {
    InputEvent { tv_sec: 0, tv_usec: 0, event_type: EV_KEY, code, value }
}

fn report() -> InputEvent {
    InputEvent { tv_sec: 0, tv_usec: 0, event_type: EV_SYN, code: SYN_REPORT, value: 0 }
}

fn touch(device: u64, finger: u64, phase: TouchPhase, pos: SurfacePos) -> TouchEvent {
    TouchEvent::Touch { device_id: device, finger_id: finger, phase, pos }
}

fn feed(d: &mut TouchDevice, evs: &[InputEvent]) -> Vec<TouchEvent> {
    let mut last = Vec::new();
    for e in evs {
        last = d.process_event(e);
    }
    last
}

#[test]
fn slot_lifecycle_start_then_end() {
    let m = mapper();
    let mut d = TouchDevice::new(0, m);
    assert!(d.process_event(&abs(ABS_MT_TRACKING_ID, 5)).is_empty());
    assert!(d.process_event(&abs(ABS_MT_POSITION_X, 100)).is_empty());
    assert!(d.process_event(&abs(ABS_MT_POSITION_Y, 200)).is_empty());
    let pos = m.to_surface(100, 200);
    assert_eq!(
        d.process_event(&report()),
        vec![
            touch(0, 0, TouchPhase::Start, pos),
            TouchEvent::PointerMoved { pos },
            TouchEvent::PointerButton { pos, pressed: true },
        ]
    );
    assert!(d.process_event(&abs(ABS_MT_TRACKING_ID, -1)).is_empty());
    assert_eq!(
        d.process_event(&report()),
        vec![
            touch(0, 0, TouchPhase::End, pos),
            TouchEvent::PointerButton { pos, pressed: false },
            TouchEvent::PointerGone,
        ]
    );
    assert!(d.process_event(&report()).is_empty());
}

#[test]
fn move_needs_fresh_position() {
    let m = mapper();
    let mut d = TouchDevice::new(0, m);
    feed(&mut d, &[abs(ABS_MT_TRACKING_ID, 1), abs(ABS_MT_POSITION_X, 10), abs(ABS_MT_POSITION_Y, 20)]);
    assert_eq!(d.process_event(&report()).len(), 3);
    assert!(d.process_event(&report()).is_empty());
    let out = feed(&mut d, &[abs(ABS_MT_POSITION_Y, 30), report()]);
    let pos = m.to_surface(10, 30);
    assert_eq!(out, vec![touch(0, 0, TouchPhase::Move, pos), TouchEvent::PointerMoved { pos }]);
}

#[test]
fn start_without_position_is_deferred() {
    let m = mapper();
    let mut d = TouchDevice::new(0, m);
    assert!(feed(&mut d, &[abs(ABS_MT_TRACKING_ID, 7), report()]).is_empty());
    assert!(d.process_event(&report()).is_empty());
    let out = feed(&mut d, &[abs(ABS_MT_POSITION_X, 40), abs(ABS_MT_POSITION_Y, 50), report()]);
    let pos = m.to_surface(40, 50);
    assert_eq!(
        out,
        vec![
            touch(0, 0, TouchPhase::Start, pos),
            TouchEvent::PointerMoved { pos },
            TouchEvent::PointerButton { pos, pressed: true },
        ]
    );
}

#[test]
fn deferred_contact_lifted_before_position_emits_nothing() {
    let mut d = TouchDevice::new(0, mapper());
    assert!(feed(&mut d, &[abs(ABS_MT_TRACKING_ID, 7), report()]).is_empty());
    assert!(feed(&mut d, &[abs(ABS_MT_TRACKING_ID, -1), report()]).is_empty());
}

#[test]
fn replay_gives_identical_batches() {
    let recs = vec![
        abs(ABS_MT_TRACKING_ID, 5),
        abs(ABS_MT_POSITION_X, 100),
        abs(ABS_MT_POSITION_Y, 200),
        report(),
        abs(ABS_MT_POSITION_X, 150),
        report(),
        key(BTN_TOUCH, 1),
        report(),
        abs(ABS_MT_TRACKING_ID, -1),
        report(),
        report(),
    ];
    let mut a = TouchDevice::new(3, mapper());
    let mut b = TouchDevice::new(3, mapper());
    let out_a = a.process_events(&recs);
    let out_b = b.process_events(&recs);
    assert_eq!(out_a, out_b);
    assert_eq!(out_a.len(), 5);
    assert!(out_a.iter().all(|batch| !batch.is_empty()));
}

#[test]
fn fallback_is_silent_when_multitouch_reports() {
    let m = mapper();
    let mut d = TouchDevice::new(0, m);
    let out = feed(
        &mut d,
        &[
            key(BTN_TOUCH, 1),
            abs(ABS_X, 5),
            abs(ABS_Y, 6),
            abs(ABS_MT_TRACKING_ID, 3),
            abs(ABS_MT_POSITION_X, 7),
            abs(ABS_MT_POSITION_Y, 8),
            report(),
        ],
    );
    let pos = m.to_surface(7, 8);
    assert_eq!(
        out,
        vec![
            touch(0, 0, TouchPhase::Start, pos),
            TouchEvent::PointerMoved { pos },
            TouchEvent::PointerButton { pos, pressed: true },
        ]
    );
    let single = m.to_surface(5, 6);
    assert_eq!(
        d.process_event(&report()),
        vec![
            touch(0, 0, TouchPhase::Start, single),
            TouchEvent::PointerMoved { pos: single },
            TouchEvent::PointerButton { pos: single, pressed: true },
        ]
    );
}

#[test]
fn single_touch_fallback_lifecycle() {
    let m = mapper();
    let mut d = TouchDevice::new(2, m);
    let pos = m.to_surface(100, 200);
    let out = feed(&mut d, &[key(BTN_TOUCH, 1), abs(ABS_X, 100), abs(ABS_Y, 200), report()]);
    assert_eq!(
        out,
        vec![
            touch(2, 2000, TouchPhase::Start, pos),
            TouchEvent::PointerMoved { pos },
            TouchEvent::PointerButton { pos, pressed: true },
        ]
    );
    assert_eq!(
        d.process_event(&report()),
        vec![touch(2, 2000, TouchPhase::Move, pos), TouchEvent::PointerMoved { pos }]
    );
    let out = feed(&mut d, &[key(BTN_TOUCH, 0), report()]);
    assert_eq!(
        out,
        vec![
            touch(2, 2000, TouchPhase::End, pos),
            TouchEvent::PointerButton { pos, pressed: false },
            TouchEvent::PointerGone,
        ]
    );
    assert!(d.process_event(&report()).is_empty());
}

#[test]
fn only_first_active_slot_drives_pointer() {
    let m = mapper();
    let mut d = TouchDevice::new(1, m);
    let out = feed(
        &mut d,
        &[
            abs(ABS_MT_SLOT, 2),
            abs(ABS_MT_TRACKING_ID, 11),
            abs(ABS_MT_POSITION_X, 1),
            abs(ABS_MT_POSITION_Y, 2),
            abs(ABS_MT_SLOT, 4),
            abs(ABS_MT_TRACKING_ID, 12),
            abs(ABS_MT_POSITION_X, 3),
            abs(ABS_MT_POSITION_Y, 4),
            report(),
        ],
    );
    let p2 = m.to_surface(1, 2);
    let p4 = m.to_surface(3, 4);
    assert_eq!(
        out,
        vec![
            touch(1, 1002, TouchPhase::Start, p2),
            TouchEvent::PointerMoved { pos: p2 },
            TouchEvent::PointerButton { pos: p2, pressed: true },
            touch(1, 1004, TouchPhase::Start, p4),
        ]
    );
    let out = feed(&mut d, &[abs(ABS_MT_SLOT, 2), abs(ABS_MT_TRACKING_ID, -1), abs(ABS_MT_SLOT, 4), abs(ABS_MT_POSITION_X, 9), report()]);
    let p4b = m.to_surface(9, 4);
    assert_eq!(
        out,
        vec![
            touch(1, 1002, TouchPhase::End, p2),
            TouchEvent::PointerButton { pos: p2, pressed: false },
            TouchEvent::PointerGone,
            touch(1, 1004, TouchPhase::Move, p4b),
        ]
    );
}

#[test]
fn out_of_range_slot_is_ignored() {
    let m = mapper();
    let mut d = TouchDevice::new(0, m);
    let out = feed(
        &mut d,
        &[
            abs(ABS_MT_SLOT, 10),
            abs(ABS_MT_SLOT, -1),
            abs(ABS_MT_TRACKING_ID, 4),
            abs(ABS_MT_POSITION_X, 1),
            report(),
        ],
    );
    assert_eq!(out[0], touch(0, 0, TouchPhase::Start, m.to_surface(1, 0)));
}

#[test]
fn other_records_are_ignored() {
    let mut d = TouchDevice::new(0, mapper());
    let syn_other = InputEvent { tv_sec: 0, tv_usec: 0, event_type: EV_SYN, code: 2, value: 0 };
    let rel = InputEvent { tv_sec: 0, tv_usec: 0, event_type: 0x02, code: 0, value: 5 };
    assert!(feed(&mut d, &[abs(ABS_MT_TRACKING_ID, 1), abs(ABS_MT_POSITION_X, 1), syn_other, rel, key(0x110, 1), abs(0x18, 9)]).is_empty());
    assert_eq!(d.process_event(&report()).len(), 3);
    assert_eq!(d.id(), 0);
}

#[test]
fn batches_skip_empty_frames() {
    let mut d = TouchDevice::new(0, mapper());
    let out = d.process_events(&[report(), report(), key(BTN_TOUCH, 1), report(), report()]);
    assert_eq!(out.len(), 2);
    assert_eq!(out[0].len(), 3);
    assert_eq!(out[1].len(), 2);
}
