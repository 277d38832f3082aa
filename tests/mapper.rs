use touch_input::mapper::{AxisRange, CoordMapper, Ratio};

fn ratio_value(r: Ratio) -> f64 {
    r.num as f64 / r.den as f64
}

fn square_sensor(rotation: i32) -> CoordMapper {
    CoordMapper::new(
        AxisRange { min: 0, max: 4095 },
        AxisRange { min: 0, max: 4095 },
        1080,
        2400,
        rotation,
    )
}

#[test]
fn end_to_end_identity_scaling() {
    let m = square_sensor(0);
    assert!(!m.swap_xy && !m.flip_x && !m.flip_y);
    let p = m.to_surface(2048, 2048);
    assert_eq!(p.x, Ratio { num: 2048 * 1080, den: 4095 });
    assert_eq!(p.y, Ratio { num: 2048 * 2400, den: 4095 });
    assert!((ratio_value(p.x) - 540.0).abs() < 0.5);
    assert!((ratio_value(p.y) - 1200.0).abs() < 0.5);
}

#[test]
fn construction_is_deterministic() {
    let a = square_sensor(3);
    let b = square_sensor(3);
    assert_eq!((a.swap_xy, a.flip_x, a.flip_y), (b.swap_xy, b.flip_x, b.flip_y));
}

#[test]
fn rotation_table() {
    let flips = |r: i32| {
        let m = square_sensor(r);
        (m.flip_x, m.flip_y)
    };
    assert_eq!(flips(0), (false, false));
    assert_eq!(flips(1), (false, true));
    assert_eq!(flips(2), (true, true));
    assert_eq!(flips(3), (true, false));
    assert_eq!(flips(7), (false, false));
    assert_eq!(flips(-1), (false, false));
}

#[test]
fn rotation_one_mirrors_y() {
    let p = square_sensor(1).to_surface(2048, 1000);
    assert_eq!(p.x, Ratio { num: 2048 * 1080, den: 4095 });
    assert_eq!(p.y, Ratio { num: (4095 - 1000) * 2400, den: 4095 });
}

#[test]
fn rotation_two_mirrors_both() {
    let p = square_sensor(2).to_surface(0, 4095);
    assert_eq!(ratio_value(p.x), 1080.0);
    assert_eq!(ratio_value(p.y), 0.0);
}

#[test]
fn portrait_sensor_on_landscape_surface_swaps() {
    let m = CoordMapper::new(
        AxisRange { min: 0, max: 1079 },
        AxisRange { min: 0, max: 2399 },
        2400,
        1080,
        0,
    );
    assert!(m.swap_xy);
    let p = m.to_surface(100, 200);
    assert_eq!(p.x, Ratio { num: 200 * 2400, den: 2399 });
    assert_eq!(p.y, Ratio { num: 100 * 1080, den: 1079 });
}

#[test]
fn landscape_sensor_on_landscape_surface_keeps_axes() {
    let m = CoordMapper::new(
        AxisRange { min: 0, max: 2399 },
        AxisRange { min: 0, max: 1079 },
        2400,
        1080,
        0,
    );
    assert!(!m.swap_xy);
}

#[test]
fn degenerate_range_divides_by_one() {
    let m = CoordMapper::new(
        AxisRange { min: 5, max: 5 },
        AxisRange { min: 10, max: 0 },
        100,
        200,
        0,
    );
    let p = m.to_surface(5, 10);
    assert_eq!(p.x, Ratio { num: 0, den: 1 });
    assert_eq!(p.y, Ratio { num: 0, den: 1 });
}

#[test]
fn output_stays_within_surface() {
    for rotation in 0..4 {
        let m = CoordMapper::new(
            AxisRange { min: -100, max: 900 },
            AxisRange { min: 50, max: 3050 },
            720,
            1280,
            rotation,
        );
        for raw_x in [-100, 0, 400, 900] {
            for raw_y in [50, 1000, 3050] {
                let p = m.to_surface(raw_x, raw_y);
                let (x, y) = (ratio_value(p.x), ratio_value(p.y));
                assert!((0.0..=720.0).contains(&x), "x {} out of range", x);
                assert!((0.0..=1280.0).contains(&y), "y {} out of range", y);
            }
        }
    }
}

#[test]
fn extreme_ranges_do_not_overflow() {
    let m = CoordMapper::new(
        AxisRange { min: i32::MIN, max: i32::MAX },
        AxisRange { min: i32::MIN, max: i32::MAX },
        u32::MAX,
        u32::MAX,
        2,
    );
    let p = m.to_surface(i32::MIN, i32::MAX);
    assert_eq!(p.x, Ratio { num: u32::MAX as i128 * u32::MAX as i128, den: u32::MAX as i64 });
    assert_eq!(p.y, Ratio { num: 0, den: u32::MAX as i64 });
}
