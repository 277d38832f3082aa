use touch_input::bridge::{window_size, MAIN_CLASS};
use touch_input::dex::MIN_IN_MEMORY_API_LEVEL;

#[test]
fn window_size_exchanges_at_natural_rotations() {
    assert_eq!(window_size(1080, 2400, 0), (2400, 1080));
    assert_eq!(window_size(1080, 2400, 2), (2400, 1080));
    assert_eq!(window_size(2400, 1080, 1), (2400, 1080));
    assert_eq!(window_size(2400, 1080, 3), (2400, 1080));
}

#[test]
fn bridge_constants() {
    assert_eq!(MAIN_CLASS, "com.example.mylibrary.Main");
    assert_eq!(MIN_IN_MEMORY_API_LEVEL, 26);
}
