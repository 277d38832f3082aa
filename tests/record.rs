use touch_input::record::{decode_record, InputEvent, ABS_MT_POSITION_X, EV_ABS, RECORD_SIZE};

fn record_bytes(sec: i64, usec: i64, ty: u16, code: u16, value: i32) -> Vec<u8> {
    let mut b = Vec::new();
    b.extend_from_slice(&sec.to_le_bytes());
    b.extend_from_slice(&usec.to_le_bytes());
    b.extend_from_slice(&ty.to_le_bytes());
    b.extend_from_slice(&code.to_le_bytes());
    b.extend_from_slice(&value.to_le_bytes());
    b
}

#[test]
fn decodes_fields_at_their_offsets() {
    let b = record_bytes(1_700_000_000, 123_456, EV_ABS, ABS_MT_POSITION_X, 2048);
    assert_eq!(b.len(), RECORD_SIZE);
    assert_eq!(
        decode_record(&b),
        Some(InputEvent {
            tv_sec: 1_700_000_000,
            tv_usec: 123_456,
            event_type: EV_ABS,
            code: ABS_MT_POSITION_X,
            value: 2048
        })
    );
}

#[test]
fn decodes_negative_values() {
    let b = record_bytes(-5, i64::MIN, 0xffff, 0x8001, -1);
    let e = decode_record(&b).unwrap();
    assert_eq!(e.tv_sec, -5);
    assert_eq!(e.tv_usec, i64::MIN);
    assert_eq!(e.event_type, 0xffff);
    assert_eq!(e.code, 0x8001);
    assert_eq!(e.value, -1);
    let b = record_bytes(i64::MAX, 0, 0, 0, i32::MIN);
    let e = decode_record(&b).unwrap();
    assert_eq!(e.tv_sec, i64::MAX);
    assert_eq!(e.value, i32::MIN);
}

#[test]
fn truncated_read_is_discarded() {
    let b = record_bytes(1, 2, 3, 4, 5);
    assert_eq!(decode_record(&b[..RECORD_SIZE - 1]), None);
    assert_eq!(decode_record(&[]), None);
}

#[test]
fn longer_buffer_uses_first_record() {
    let mut b = record_bytes(1, 2, 3, 4, 5);
    b.extend_from_slice(&record_bytes(9, 9, 9, 9, 9));
    assert_eq!(decode_record(&b).unwrap().value, 5);
}
