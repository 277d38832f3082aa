//! The coordinate mapper: raw sensor positions to surface positions.
//!
//! A sensor is mounted in one fixed orientation while the display may be
//! rotated. The mapper derives, once, whether the two sensor axes must be
//! exchanged and which of the two surface axes must be mirrored, and then
//! maps every raw position through that transform.
//!
//! Positions are exact rationals: a coordinate is `num / den` with `den > 0`.
use vstd::prelude::*;

verus! {

/// The raw reporting range of one sensor axis.
#[derive(Clone, Copy, Debug, PartialEq, Eq, Structural)]
pub struct AxisRange {
    pub min: i32,
    pub max: i32,
}

/// One exact coordinate, `num / den`.
#[derive(Clone, Copy, Debug, PartialEq, Eq, Structural)]
pub struct Ratio {
    pub num: i128,
    pub den: i64,
}

/// A position on the surface, in pixels, as two exact coordinates.
/// `x` runs along the surface's width and `y` along its height.
#[derive(Clone, Copy, Debug, PartialEq, Eq, Structural)]
pub struct SurfacePos {
    pub x: Ratio,
    pub y: Ratio,
}

/// The width of an axis range, floored at 1 so that it can divide.
pub open spec fn span(r: AxisRange) -> int {
    if r.max as int - r.min as int >= 1 {
        r.max as int - r.min as int
    } else {
        1
    }
}

/// The sensor is landscape when its X axis spans more than its Y axis.
pub open spec fn sensor_is_landscape(rx: AxisRange, ry: AxisRange) -> bool {
    span(rx) > span(ry)
}

/// The surface is landscape when it is wider than it is tall.
pub open spec fn surface_is_landscape(w: u32, h: u32) -> bool {
    w > h
}

/// The axes are exchanged when sensor and surface disagree in orientation.
pub open spec fn swap_for(rx: AxisRange, ry: AxisRange, w: u32, h: u32) -> bool {
    sensor_is_landscape(rx, ry) != surface_is_landscape(w, h)
}

/// The mirroring of the surface's X axis for a rotation code.
pub open spec fn flip_x_for(rotation: i32) -> bool {
    rotation == 2 || rotation == 3
}

/// The mirroring of the surface's Y axis for a rotation code.
pub open spec fn flip_y_for(rotation: i32) -> bool {
    rotation == 1 || rotation == 2
}

/// A raw value's place along an axis, as `(raw - min) / span`.
pub open spec fn normalized(raw: i32, r: AxisRange) -> (int, int) {
    (raw as int - r.min as int, span(r))
}

/// `1 - v` for a fraction `v = n / d`.
pub open spec fn mirrored(v: (int, int)) -> (int, int) {
    (v.1 - v.0, v.1)
}

/// The coordinate `v * scale` for a fraction `v`.
pub open spec fn scaled(v: (int, int), scale: u32) -> Ratio {
    Ratio { num: (v.0 * scale) as i128, den: v.1 as i64 }
}

/// Whether `lo <= c.num / c.den <= hi`, with a positive denominator.
pub open spec fn value_between(c: Ratio, lo: int, hi: int) -> bool {
    c.den > 0 && lo * c.den <= c.num <= hi * c.den
}

/// Maps raw sensor coordinates of one device to surface coordinates.
#[derive(Clone, Copy, Debug)]
pub struct CoordMapper {
    pub raw_x: AxisRange,
    pub raw_y: AxisRange,
    pub surface_w: u32,
    pub surface_h: u32,
    pub swap_xy: bool,
    pub flip_x: bool,
    pub flip_y: bool,
}

impl CoordMapper {
    /// The mapper that `new` builds from these inputs.
    pub open spec fn spec_new(rx: AxisRange, ry: AxisRange, w: u32, h: u32, rotation: i32) -> CoordMapper {
        CoordMapper {
            raw_x: rx,
            raw_y: ry,
            surface_w: w,
            surface_h: h,
            swap_xy: swap_for(rx, ry, w, h),
            flip_x: flip_x_for(rotation),
            flip_y: flip_y_for(rotation),
        }
    }

    /// Where `to_surface` puts a raw position.
    pub open spec fn spec_to_surface(self, raw_x: i32, raw_y: i32) -> SurfacePos {
        let nx = normalized(raw_x, self.raw_x);
        let ny = normalized(raw_y, self.raw_y);
        let a = if self.swap_xy { ny } else { nx };
        let b = if self.swap_xy { nx } else { ny };
        let a2 = if self.flip_x { mirrored(a) } else { a };
        let b2 = if self.flip_y { mirrored(b) } else { b };
        SurfacePos { x: scaled(a2, self.surface_w), y: scaled(b2, self.surface_h) }
    }

    /// Builds the mapper of a device with axis ranges `ioctl_x` and `ioctl_y`
    /// on a surface of `screen_w` by `screen_h` pixels shown at rotation code
    /// `display_rotation` (clockwise quarter turns; other codes count as 0).
    pub fn new(
        ioctl_x: AxisRange,
        ioctl_y: AxisRange,
        screen_w: u32,
        screen_h: u32,
        display_rotation: i32,
    ) -> (m: CoordMapper)
        ensures
            m == CoordMapper::spec_new(ioctl_x, ioctl_y, screen_w, screen_h, display_rotation),
    {
        let sensor_x_span: i64 = span_exec(ioctl_x);
        let sensor_y_span: i64 = span_exec(ioctl_y);
        let sensor_is_landscape = sensor_x_span > sensor_y_span;
        let screen_is_landscape = screen_w > screen_h;
        let swap_xy = sensor_is_landscape != screen_is_landscape;
        let (flip_x, flip_y) = flips_for_rotation(display_rotation);
        CoordMapper {
            raw_x: ioctl_x,
            raw_y: ioctl_y,
            surface_w: screen_w,
            surface_h: screen_h,
            swap_xy,
            flip_x,
            flip_y,
        }
    }

    /// Maps a raw position to the surface: normalize each axis by its range,
    /// exchange the two if `swap_xy`, mirror as the flips say, then scale by
    /// the surface size.
    pub fn to_surface(&self, raw_x: i32, raw_y: i32) -> (p: SurfacePos)
        ensures
            p == self.spec_to_surface(raw_x, raw_y),
            p.x.den > 0,
            p.y.den > 0,
    {
        let (nx_num, nx_den) = normalize(raw_x, self.raw_x);
        let (ny_num, ny_den) = normalize(raw_y, self.raw_y);
        let (a_num, a_den, b_num, b_den) = if self.swap_xy {
            (ny_num, ny_den, nx_num, nx_den)
        } else {
            (nx_num, nx_den, ny_num, ny_den)
        };
        let a_num: i64 = if self.flip_x { a_den - a_num } else { a_num };
        let b_num: i64 = if self.flip_y { b_den - b_num } else { b_num };
        SurfacePos {
            x: scale(a_num, a_den, self.surface_w),
            y: scale(b_num, b_den, self.surface_h),
        }
    }
}

fn span_exec(r: AxisRange) -> (s: i64)
    ensures
        s as int == span(r),
        1 <= s <= u32::MAX,
{
    let d: i64 = r.max as i64 - r.min as i64;
    if d >= 1 {
        d
    } else {
        1
    }
}

/// The flip pair for a rotation code: 0 none, 1 Y, 2 both, 3 X, other none.
fn flips_for_rotation(rotation: i32) -> (r: (bool, bool))
    ensures
        r == (flip_x_for(rotation), flip_y_for(rotation)),
{
    match rotation {
        0 => (false, false),
        1 => (false, true),
        2 => (true, true),
        3 => (true, false),
        _ => (false, false),
    }
}

fn normalize(raw: i32, r: AxisRange) -> (v: (i64, i64))
    ensures
        (v.0 as int, v.1 as int) == normalized(raw, r),
        1 <= v.1 <= u32::MAX,
        -(u32::MAX as int) <= v.0 <= u32::MAX,
{
    (raw as i64 - r.min as i64, span_exec(r))
}

fn scale(num: i64, den: i64, s: u32) -> (c: Ratio)
    requires
        1 <= den <= u32::MAX,
        -(u32::MAX as int) <= num <= 2 * (u32::MAX as int),
    ensures
        c == scaled((num as int, den as int), s),
        c.den > 0,
{
    assert(-(u32::MAX as int) * (s as int) <= (num as int) * (s as int) <= 2 * (u32::MAX as int) * (s as int)) by (nonlinear_arith)
        requires
            -(u32::MAX as int) <= num <= 2 * (u32::MAX as int),
            0 <= s <= u32::MAX,
    ;
    assert(2 * (u32::MAX as int) * (s as int) <= 2 * (u32::MAX as int) * (u32::MAX as int)) by (nonlinear_arith)
        requires
            0 <= s <= u32::MAX,
    ;
    Ratio { num: num as i128 * s as i128, den }
}

/// A mapper's flags depend on its construction inputs alone: two mappers
/// built from the same inputs carry the same swap and flip flags.
pub proof fn lemma_new_is_deterministic(
    rx: AxisRange,
    ry: AxisRange,
    w: u32,
    h: u32,
    rotation: i32,
    m1: CoordMapper,
    m2: CoordMapper,
)
    requires
        m1 == CoordMapper::spec_new(rx, ry, w, h, rotation),
        m2 == CoordMapper::spec_new(rx, ry, w, h, rotation),
    ensures
        (m1.swap_xy, m1.flip_x, m1.flip_y) == (m2.swap_xy, m2.flip_x, m2.flip_y),
{
}

/// Rotation 0 mirrors nothing, rotation 2 mirrors both axes, and rotations
/// 1 and 3 each mirror exactly one axis, the other one than each other.
pub proof fn lemma_rotation_table()
    ensures
        !flip_x_for(0) && !flip_y_for(0),
        flip_x_for(2) && flip_y_for(2),
        flip_x_for(1) != flip_y_for(1),
        flip_x_for(3) != flip_y_for(3),
        flip_x_for(1) == !flip_x_for(3),
        flip_y_for(1) == !flip_y_for(3),
{
}

/// Codes other than 0 to 3 mirror nothing, as rotation 0 does.
pub proof fn lemma_unknown_rotation_is_natural(rotation: i32)
    requires
        rotation < 0 || rotation > 3,
    ensures
        !flip_x_for(rotation) && !flip_y_for(rotation),
{
}

/// A raw position inside a device's ranges (each with `max > min`) lands
/// inside the surface: `0 <= x <= w` and `0 <= y <= h`.
pub proof fn lemma_to_surface_in_bounds(m: CoordMapper, raw_x: i32, raw_y: i32)
    requires
        m.raw_x.max > m.raw_x.min,
        m.raw_y.max > m.raw_y.min,
        m.raw_x.min <= raw_x <= m.raw_x.max,
        m.raw_y.min <= raw_y <= m.raw_y.max,
    ensures
        value_between(m.spec_to_surface(raw_x, raw_y).x, 0, m.surface_w as int),
        value_between(m.spec_to_surface(raw_x, raw_y).y, 0, m.surface_h as int),
{
    let nx = normalized(raw_x, m.raw_x);
    let ny = normalized(raw_y, m.raw_y);
    lemma_unit_fraction_scaled(nx, m.surface_w);
    lemma_unit_fraction_scaled(ny, m.surface_w);
    lemma_unit_fraction_scaled(nx, m.surface_h);
    lemma_unit_fraction_scaled(ny, m.surface_h);
    lemma_unit_fraction_scaled(mirrored(nx), m.surface_w);
    lemma_unit_fraction_scaled(mirrored(ny), m.surface_w);
    lemma_unit_fraction_scaled(mirrored(nx), m.surface_h);
    lemma_unit_fraction_scaled(mirrored(ny), m.surface_h);
}

proof fn lemma_unit_fraction_scaled(v: (int, int), s: u32)
    requires
        1 <= v.1 <= u32::MAX,
        0 <= v.0 <= v.1,
    ensures
        value_between(scaled(v, s), 0, s as int),
{
    assert(0 <= v.0 * (s as int) <= v.1 * (s as int)) by (nonlinear_arith)
        requires
            0 <= v.0 <= v.1,
            0 <= s,
    ;
    assert(v.1 * (s as int) <= (u32::MAX as int) * (u32::MAX as int)) by (nonlinear_arith)
        requires
            1 <= v.1 <= u32::MAX,
            0 <= s <= u32::MAX,
    ;
    assert((s as int) * v.1 == v.1 * (s as int)) by (nonlinear_arith);
}

} // verus!
