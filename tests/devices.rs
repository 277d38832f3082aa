use touch_input::devices::{
    abs_range_from_query, eviocgabs, find_touch_devices, is_touch_name, is_touch_name_line,
    pick_axis_range, registry_candidates, DEFAULT_AXIS_MAX,
};
use touch_input::mapper::AxisRange;
use touch_input::record::{ABS_MT_POSITION_X, ABS_MT_POSITION_Y, ABS_X};

const REGISTRY: &str = "I: Bus=0018 Vendor=0000 Product=0000 Version=0000
N: Name=\"fts_ts\"
P: Phys=
H: Handlers=event2
B: PROP=2
B: EV=b
B: ABS=6e18000 0

I: Bus=0019 Vendor=0001 Product=0001 Version=0100
N: Name=\"gpio-keys\"
H: Handlers=kbd event0
B: EV=3
B: KEY=8000 100000 0 0 0

I: Bus=0018 Vendor=0000 Product=0000 Version=0000
N: Name=\"Goodix Capacitive TouchScreen\"
H: Handlers=mouse0 event3\tevent4 
B: EV=b
B: ABS=2658000 3

";

#[test]
fn registry_lists_event_handlers_of_absolute_blocks() {
    assert_eq!(registry_candidates(REGISTRY), vec!["/dev/input/event3", "/dev/input/event4"]);
}

#[test]
fn registry_block_needs_closing_blank_line() {
    let text = "N: Name=\"panel\"\nH: Handlers=kbd event7\nB: ABS=1";
    assert!(registry_candidates(text).is_empty());
    let closed = format!("{}\n\n", text);
    assert_eq!(registry_candidates(&closed), vec!["/dev/input/event7"]);
}

#[test]
fn registry_accepts_crlf_lines() {
    let text = "N: Name=\"x\"\r\nH: Handlers=a event5\r\nB: ABS=1\r\n\r\n";
    assert_eq!(registry_candidates(text), vec!["/dev/input/event5"]);
}

#[test]
fn registry_block_spans_lines_before_its_name() {
    let text = "H: Handlers=kbd event1\nB: ABS=1\nN: Name=\"late\"\n\n";
    assert_eq!(registry_candidates(text), vec!["/dev/input/event1"]);
    let two = "B: ABS=1\n\nH: Handlers=event9 event8\nN: Name=\"x\"\n\n";
    assert!(registry_candidates(two).is_empty());
}

#[test]
fn empty_registry_lists_nothing() {
    assert!(registry_candidates("").is_empty());
    assert!(registry_candidates("\n\n\n").is_empty());
}

#[test]
fn fallback_only_when_registry_gives_nothing() {
    let nodes = vec!["/dev/input/event0".to_string(), "/dev/input/event1".to_string()];
    assert_eq!(find_touch_devices(None, nodes.clone()), nodes);
    assert_eq!(find_touch_devices(Some("garbage\n\n"), nodes.clone()), nodes);
    assert_eq!(
        find_touch_devices(Some(REGISTRY), nodes),
        vec!["/dev/input/event3", "/dev/input/event4"]
    );
    assert!(find_touch_devices(None, Vec::new()).is_empty());
}

#[test]
fn touch_names_ignore_case() {
    assert!(is_touch_name_line("N: Name=\"Goodix TouchScreen\""));
    assert!(is_touch_name_line("N: Name=\"FINGERPRINT\""));
    assert!(is_touch_name_line("N: Name=\"fts_ts\""));
    assert!(!is_touch_name_line("N: Name=\"gpio-keys\""));
    assert!(is_touch_name("touchpad"));
    assert!(!is_touch_name("TOUCH"));
    assert!(!is_touch_name(""));
}

#[test]
fn axis_query_results() {
    assert_eq!(abs_range_from_query(0, 0, 4095), Some(AxisRange { min: 0, max: 4095 }));
    assert_eq!(abs_range_from_query(-1, 0, 4095), None);
    assert_eq!(abs_range_from_query(0, 5, 5), None);
    assert_eq!(abs_range_from_query(0, 10, -10), None);
}

#[test]
fn axis_range_preference() {
    let a = AxisRange { min: 0, max: 1079 };
    let b = AxisRange { min: 0, max: 719 };
    assert_eq!(pick_axis_range(Some(a), Some(b)), a);
    assert_eq!(pick_axis_range(None, Some(b)), b);
    assert_eq!(pick_axis_range(None, None), AxisRange { min: 0, max: DEFAULT_AXIS_MAX });
    assert_eq!(DEFAULT_AXIS_MAX, 32767);
}

#[test]
fn axis_query_request_numbers() {
    assert_eq!(eviocgabs(ABS_MT_POSITION_X), 0x8018_4575);
    assert_eq!(eviocgabs(ABS_MT_POSITION_Y), 0x8018_4576);
    assert_eq!(eviocgabs(ABS_X), 0x8018_4540);
}
