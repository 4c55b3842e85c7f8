use vstd::prelude::*;

verus! {

/// A cell on the board. Higher `y` is lower on the board.
#[derive(Debug, Default, Clone, Copy, PartialEq, Eq, Structural)]
pub struct Point {
    pub x: u8,
    pub y: u8,
}

/// A signed position or offset, which may lie off the board.
#[derive(Debug, Default, Clone, Copy, PartialEq, Eq, Structural)]
pub struct IPoint {
    pub x: i8,
    pub y: i8,
}

/// `v` clamped to the range of `i8`.
pub open spec fn clamp_i8(v: int) -> int {
    if v > 127 {
        127
    } else if v < -128 {
        -128
    } else {
        v
    }
}

pub open spec fn fits_i8(v: int) -> bool {
    -128 <= v <= 127
}

/// Both coordinates are non-negative, so the point names a cell.
pub open spec fn non_negative(p: IPoint) -> bool {
    p.x >= 0 && p.y >= 0
}

/// The cell named by a non-negative signed point.
pub open spec fn to_cell(p: IPoint) -> Point {
    Point { x: p.x as u8, y: p.y as u8 }
}

fn saturating_add_i8(a: i8, b: i8) -> (r: i8)
    ensures
        r == clamp_i8(a + b),
{
    let s: i16 = a as i16 + b as i16;
    if s > 127 {
        127
    } else if s < -128 {
        -128
    } else {
        s as i8
    }
}

impl IPoint {
    pub fn new(x: i8, y: i8) -> (r: Self)
        ensures
            r.x == x,
            r.y == y,
    {
        IPoint { x, y }
    }

    /// Adds the offset coordinate by coordinate, saturating at the range of `i8`.
    pub fn saturating_add(self, d: IPoint) -> (r: IPoint)
        ensures
            r.x == clamp_i8(self.x + d.x),
            r.y == clamp_i8(self.y + d.y),
    {
        IPoint::new(saturating_add_i8(self.x, d.x), saturating_add_i8(self.y, d.y))
    }
}

impl Point {
    pub fn new(x: u8, y: u8) -> (r: Self)
        ensures
            r.x == x,
            r.y == y,
    {
        Point { x, y }
    }

    pub fn xy(self) -> (r: (u8, u8))
        ensures
            r == (self.x, self.y),
    {
        (self.x, self.y)
    }

    /// The pixel position of the cell for a cell size of `v` in both axes.
    pub fn times(self, v: u32) -> (r: (u32, u32))
        requires
            v * self.x <= u32::MAX,
            v * self.y <= u32::MAX,
        ensures
            r.0 == v * self.x && r.1 == v * self.y,
    {
        self.times_xy(v, v)
    }

    /// The coordinates scaled by `x` and `y`.
    pub fn times_xy(self, x: u32, y: u32) -> (r: (u32, u32))
        requires
            x * self.x <= u32::MAX,
            y * self.y <= u32::MAX,
        ensures
            r.0 == x * self.x && r.1 == y * self.y,
    {
        (x * self.x as u32, y * self.y as u32)
    }

    /// The point moved by `d`, or `None` where a coordinate of the point or of
    /// the result does not fit in `i8`.
    pub fn checked_offset(self, d: IPoint) -> (r: Option<IPoint>)
        ensures
            r == (if self.x <= 127 && self.y <= 127 && fits_i8(self.x + d.x) && fits_i8(
                self.y + d.y,
            ) {
                Some(IPoint { x: (self.x + d.x) as i8, y: (self.y + d.y) as i8 })
            } else {
                None
            }),
    {
        if self.x > 127 || self.y > 127 {
            return None;
        }
        let x: i16 = self.x as i16 + d.x as i16;
        let y: i16 = self.y as i16 + d.y as i16;
        if x < -128 || x > 127 || y < -128 || y > 127 {
            None
        } else {
            Some(IPoint::new(x as i8, y as i8))
        }
    }
}

/// The magnitude of a signed coordinate, as `i8::unsigned_abs` gives it.
pub open spec fn magnitude(v: i8) -> u8 {
    if v < 0 {
        (-(v as int)) as u8
    } else {
        v as u8
    }
}

/// A byte read as `i8` and made non-negative, as `(v as i8).wrapping_abs()`
/// gives it: bytes from 129 up read as `256 - v`, and 128 stays `-128`.
pub open spec fn signed_magnitude(v: u8) -> i8 {
    if v <= 127 {
        v as i8
    } else if v == 128 {
        -128i8
    } else {
        (256 - v) as i8
    }
}

fn unsigned_abs_i8(v: i8) -> (r: u8)
    ensures
        r == magnitude(v),
{
    if v < 0 {
        (-(v as i16)) as u8
    } else {
        v as u8
    }
}

fn wrapping_abs_u8(v: u8) -> (r: i8)
    ensures
        r == signed_magnitude(v),
{
    if v <= 127 {
        v as i8
    } else if v == 128 {
        -128
    } else {
        (256 - v as i16) as i8
    }
}

impl From<IPoint> for Point {
    /// The magnitudes of the coordinates.
    fn from(value: IPoint) -> (r: Self)
        ensures
            r.x == magnitude(value.x),
            r.y == magnitude(value.y),
    {
        Point::new(unsigned_abs_i8(value.x), unsigned_abs_i8(value.y))
    }
}

impl vstd::std_specs::convert::FromSpecImpl<IPoint> for Point {
    open spec fn obeys_from_spec() -> bool {
        true
    }

    open spec fn from_spec(v: IPoint) -> Point {
        Point { x: magnitude(v.x), y: magnitude(v.y) }
    }
}

impl From<Point> for IPoint {
    /// Each coordinate read as `i8` and made non-negative.
    fn from(value: Point) -> (r: Self)
        ensures
            r.x == signed_magnitude(value.x),
            r.y == signed_magnitude(value.y),
    {
        IPoint::new(wrapping_abs_u8(value.x), wrapping_abs_u8(value.y))
    }
}

impl vstd::std_specs::convert::FromSpecImpl<Point> for IPoint {
    open spec fn obeys_from_spec() -> bool {
        true
    }

    open spec fn from_spec(v: Point) -> IPoint {
        IPoint { x: signed_magnitude(v.x), y: signed_magnitude(v.y) }
    }
}

impl From<(u8, u8)> for Point {
    fn from(v: (u8, u8)) -> (r: Self)
        ensures
            r.x == v.0 && r.y == v.1,
    {
        Point::new(v.0, v.1)
    }
}

impl vstd::std_specs::convert::FromSpecImpl<(u8, u8)> for Point {
    open spec fn obeys_from_spec() -> bool {
        true
    }

    open spec fn from_spec(v: (u8, u8)) -> Point {
        Point { x: v.0, y: v.1 }
    }
}

impl From<(i8, i8)> for IPoint {
    fn from(v: (i8, i8)) -> (r: Self)
        ensures
            r.x == v.0 && r.y == v.1,
    {
        IPoint::new(v.0, v.1)
    }
}

impl vstd::std_specs::convert::FromSpecImpl<(i8, i8)> for IPoint {
    open spec fn obeys_from_spec() -> bool {
        true
    }

    open spec fn from_spec(v: (i8, i8)) -> IPoint {
        IPoint { x: v.0, y: v.1 }
    }
}

fn cast_one(p: IPoint) -> (r: Option<Point>)
    ensures
        r == (if non_negative(p) {
            Some(to_cell(p))
        } else {
            None
        }),
{
    if p.x < 0 || p.y < 0 {
        None
    } else {
        Some(Point::new(p.x as u8, p.y as u8))
    }
}

/// The cells of four signed points, if every point is present and non-negative.
pub fn maybe_cast_points(value: [Option<IPoint>; 4]) -> (r: Option<[Point; 4]>)
    ensures
        r.is_some() <==> (forall|i: int|
            0 <= i < 4 ==> #[trigger] value[i].is_some() && non_negative(value[i].unwrap())),
        r.is_some() ==> forall|i: int|
            0 <= i < 4 ==> #[trigger] r.unwrap()[i] == to_cell(value[i].unwrap()),
{
    match (value[0], value[1], value[2], value[3]) {
        (Some(a), Some(b), Some(c), Some(d)) => cast_points([a, b, c, d]),
        _ => None,
    }
}

/// The cells of four signed points, if every point is non-negative.
pub fn cast_points(value: [IPoint; 4]) -> (r: Option<[Point; 4]>)
    ensures
        r.is_some() <==> (forall|i: int| 0 <= i < 4 ==> #[trigger] non_negative(value[i])),
        r.is_some() ==> forall|i: int| 0 <= i < 4 ==> #[trigger] r.unwrap()[i] == to_cell(value[i]),
{
    match (cast_one(value[0]), cast_one(value[1]), cast_one(value[2]), cast_one(value[3])) {
        (Some(a), Some(b), Some(c), Some(d)) => {
            let r = [a, b, c, d];
            assert(forall|i: int| 0 <= i < 4 ==> r[i] == to_cell(value[i]));
            Some(r)
        },
        _ => {
            assert(!non_negative(value[0]) || !non_negative(value[1]) || !non_negative(value[2])
                || !non_negative(value[3]));
            None
        },
    }
}

} // verus!
