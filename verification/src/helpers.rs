//! Rectangles on the screen and whole-millisecond timing.

use std::time::Duration;
use vstd::prelude::*;

use crate::config;

verus! {

/// Largest width or height a rectangle can have.
pub const MAX_SIZE: u32 = 1_073_741_823;

/// Largest coordinate of a rectangle's top-left corner.
pub const MAX_POSITION: i32 = 1_073_741_823;

/// Smallest coordinate of a rectangle's top-left corner.
pub const MIN_POSITION: i32 = -1_073_741_824;

/// A side length brought into `1 ..= MAX_SIZE`.
pub open spec fn clamp_size(val: int) -> int {
    if val <= 0 {
        1
    } else if val > MAX_SIZE {
        MAX_SIZE as int
    } else {
        val
    }
}

/// A coordinate brought into `MIN_POSITION ..= MAX_POSITION`.
pub open spec fn clamp_position(val: int) -> int {
    if val > MAX_POSITION {
        MAX_POSITION as int
    } else if val < MIN_POSITION {
        MIN_POSITION as int
    } else {
        val
    }
}

/// What a signed side length means once it is read as unsigned: a negative
/// one stands for a length beyond every limit.
pub open spec fn side_of(val: int) -> int {
    if val < 0 {
        val + 0x1_0000_0000
    } else {
        val
    }
}

/// Half of `val`, rounded towards zero.
pub open spec fn half(val: int) -> int {
    if val >= 0 {
        val / 2
    } else {
        -((-val) / 2)
    }
}

/// The mathematical content of a [`Rect`].
pub struct RectView {
    pub x: int,
    pub y: int,
    pub width: int,
    pub height: int,
}

impl RectView {
    /// The corner lies within the position limits and both sides within the
    /// size limits, so that no edge of the rectangle leaves the `i32` range.
    pub open spec fn in_limits(self) -> bool {
        &&& MIN_POSITION <= self.x <= MAX_POSITION
        &&& MIN_POSITION <= self.y <= MAX_POSITION
        &&& 1 <= self.width <= MAX_SIZE
        &&& 1 <= self.height <= MAX_SIZE
    }

    /// The point lies in the rectangle, its four edges included.
    pub open spec fn covers(self, x: int, y: int) -> bool {
        &&& self.x <= x <= self.x + self.width
        &&& self.y <= y <= self.y + self.height
    }
}

/// An axis-aligned rectangle whose corner and sides are kept within limits.
#[derive(Clone, Copy, Debug, PartialEq, Eq)]
pub struct Rect {
    x: i32,
    y: i32,
    w: u32,
    h: u32,
}

impl View for Rect {
    type V = RectView;

    closed spec fn view(&self) -> RectView {
        RectView { x: self.x as int, y: self.y as int, width: self.w as int, height: self.h as int }
    }
}

impl Rect {
    #[verifier::type_invariant]
    spec fn within_limits(self) -> bool {
        self@.in_limits()
    }

    /// Builds a rectangle, clamping the corner and the sides into the limits.
    pub fn new(x: i32, y: i32, width: u32, height: u32) -> (r: Rect)
        ensures
            r@ == (RectView {
                x: clamp_position(x as int),
                y: clamp_position(y as int),
                width: clamp_size(width as int),
                height: clamp_size(height as int),
            }),
    {
        Rect {
            x: position_within_limits(x),
            y: position_within_limits(y),
            w: size_within_limits(width),
            h: size_within_limits(height),
        }
    }

    /// Builds a rectangle from values of any size, clamping the corner and
    /// the sides into the limits.
    pub fn clamped(x: i64, y: i64, width: i64, height: i64) -> (r: Rect)
        ensures
            r@ == (RectView {
                x: clamp_position(x as int),
                y: clamp_position(y as int),
                width: clamp_size(width as int),
                height: clamp_size(height as int),
            }),
    {
        Rect {
            x: wide_position_within_limits(x),
            y: wide_position_within_limits(y),
            w: wide_size_within_limits(width),
            h: wide_size_within_limits(height),
        }
    }

    /// The horizontal position of the left edge.
    pub fn x(&self) -> (v: i32)
        ensures
            v == self@.x,
            MIN_POSITION <= v <= MAX_POSITION,
    {
        proof {
            use_type_invariant(self);
        }
        self.x
    }

    /// The vertical position of the top edge.
    pub fn y(&self) -> (v: i32)
        ensures
            v == self@.y,
            MIN_POSITION <= v <= MAX_POSITION,
    {
        proof {
            use_type_invariant(self);
        }
        self.y
    }

    /// The width.
    pub fn width(&self) -> (v: u32)
        ensures
            v == self@.width,
            1 <= v <= MAX_SIZE,
    {
        proof {
            use_type_invariant(self);
        }
        self.w
    }

    /// The height.
    pub fn height(&self) -> (v: u32)
        ensures
            v == self@.height,
            1 <= v <= MAX_SIZE,
    {
        proof {
            use_type_invariant(self);
        }
        self.h
    }
}

fn size_within_limits(val: u32) -> (r: u32)
    ensures
        r == clamp_size(val as int),
{
    if val == 0 {
        1
    } else if val > MAX_SIZE {
        MAX_SIZE
    } else {
        val
    }
}

fn position_within_limits(val: i32) -> (r: i32)
    ensures
        r == clamp_position(val as int),
{
    if val > MAX_POSITION {
        MAX_POSITION
    } else if val < MIN_POSITION {
        MIN_POSITION
    } else {
        val
    }
}

/// The rectangle of the given size whose centre lies at the centre of the
/// window, moved by the two offsets.
///
/// Each half is rounded towards zero. A negative side is read as an
/// unsigned one, and so becomes the largest side there is.
pub fn rect_centered(width: i32, height: i32, horizontal_offset: i32, vertical_offset: i32) -> (r:
    Rect)
    ensures
        r@ == centered(width as int, height as int, horizontal_offset as int, vertical_offset as int),
{
    let x: i64 = (config::WINDOW_WIDTH as i64) / 2 - half_of(width) + (horizontal_offset as i64);
    let y: i64 = (config::WINDOW_HEIGHT as i64) / 2 - half_of(height) + (vertical_offset as i64);
    Rect {
        x: wide_position_within_limits(x),
        y: wide_position_within_limits(y),
        w: side_within_limits(width),
        h: side_within_limits(height),
    }
}

/// The rectangle that [`rect_centered`] returns.
pub open spec fn centered(width: int, height: int, horizontal_offset: int, vertical_offset: int) -> RectView {
    RectView {
        x: clamp_position(config::WINDOW_WIDTH / 2 - half(width) + horizontal_offset),
        y: clamp_position(config::WINDOW_HEIGHT / 2 - half(height) + vertical_offset),
        width: clamp_size(side_of(width)),
        height: clamp_size(side_of(height)),
    }
}

fn half_of(val: i32) -> (r: i64)
    ensures
        r == half(val as int),
{
    if val >= 0 {
        (val / 2) as i64
    } else {
        let positive: i64 = -(val as i64);
        -(positive / 2)
    }
}

fn wide_position_within_limits(val: i64) -> (r: i32)
    ensures
        r == clamp_position(val as int),
{
    if val > MAX_POSITION as i64 {
        MAX_POSITION
    } else if val < MIN_POSITION as i64 {
        MIN_POSITION
    } else {
        val as i32
    }
}

fn wide_size_within_limits(val: i64) -> (r: u32)
    ensures
        r == clamp_size(val as int),
{
    if val <= 0 {
        1
    } else if val > MAX_SIZE as i64 {
        MAX_SIZE
    } else {
        val as u32
    }
}

fn side_within_limits(val: i32) -> (r: u32)
    ensures
        r == clamp_size(side_of(val as int)),
{
    if val < 0 {
        MAX_SIZE
    } else {
        size_within_limits(val as u32)
    }
}

/// Whether the point lies in the rectangle, its four edges included.
pub fn point_colliding_rect(x: i32, y: i32, rect: &Rect) -> (hit: bool)
    ensures
        hit == rect@.covers(x as int, y as int),
{
    let left: i32 = rect.x();
    let top: i32 = rect.y();
    let right: i32 = left + rect.width() as i32;
    let bottom: i32 = top + rect.height() as i32;
    x >= left && y >= top && x <= right && y <= bottom
}

/// The whole seconds that a duration holds.
pub uninterp spec fn duration_secs(duration: Duration) -> nat;

/// The part of a duration beyond its whole seconds, in nanoseconds.
pub uninterp spec fn duration_subsec_nanos(duration: Duration) -> nat;

/// `Duration::as_secs` of std: the number of whole seconds in the duration.
pub assume_specification[ Duration::as_secs ](duration: &Duration) -> (secs: u64)
    ensures
        secs == duration_secs(*duration),
;

/// `Duration::subsec_nanos` of std: the fractional part of the duration in
/// nanoseconds, which std documents to be less than one billion.
pub assume_specification[ Duration::subsec_nanos ](duration: &Duration) -> (nanos: u32)
    ensures
        nanos == duration_subsec_nanos(*duration),
        nanos < 1_000_000_000,
;

/// The whole milliseconds in `secs` seconds and `subsec_nanos` nanoseconds:
/// what is left of a millisecond is cut off, not rounded.
pub open spec fn whole_milliseconds(secs: nat, subsec_nanos: nat) -> nat {
    (secs * 1_000_000_000 + subsec_nanos) / 1_000_000
}

/// The whole milliseconds in a duration.
pub open spec fn milliseconds_of(duration: Duration) -> nat {
    whole_milliseconds(duration_secs(duration), duration_subsec_nanos(duration))
}

/// The whole milliseconds in a time given as seconds and nanoseconds, or
/// `None` where they are more than a `u64` holds.
pub fn milliseconds(secs: u64, subsec_nanos: u32) -> (ms: Option<u64>)
    ensures
        ms is Some <==> whole_milliseconds(secs as nat, subsec_nanos as nat) <= u64::MAX,
        ms is Some ==> ms->Some_0 == whole_milliseconds(secs as nat, subsec_nanos as nat),
{
    let total: u128 = (secs as u128) * 1_000_000_000 + (subsec_nanos as u128);
    let ms: u128 = total / 1_000_000;
    if ms <= u64::MAX as u128 {
        Some(ms as u64)
    } else {
        None
    }
}

/// The duration in whole milliseconds, cut off and not rounded.
pub fn get_milliseconds(duration: &Duration) -> (ms: u64)
    requires
        milliseconds_of(*duration) <= u64::MAX,
    ensures
        ms == milliseconds_of(*duration),
{
    let secs: u64 = duration.as_secs();
    let nanos: u32 = duration.subsec_nanos();
    proof {
        lemma_milliseconds_by_parts(secs as nat, nanos as nat);
    }
    secs * 1000 + (nanos / 1_000_000) as u64
}

/// What [`checked_milliseconds`] returns for the duration.
pub open spec fn checked_milliseconds_of(duration: Duration) -> Option<u64> {
    if milliseconds_of(duration) <= u64::MAX {
        Some(milliseconds_of(duration) as u64)
    } else {
        None
    }
}

/// The duration in whole milliseconds, or `None` where they are more than a
/// `u64` holds.
pub fn checked_milliseconds(duration: &Duration) -> (ms: Option<u64>)
    ensures
        ms == checked_milliseconds_of(*duration),
        ms is Some <==> milliseconds_of(*duration) <= u64::MAX,
        ms is Some ==> ms->Some_0 == milliseconds_of(*duration),
{
    let secs: u64 = duration.as_secs();
    let nanos: u32 = duration.subsec_nanos();
    if milliseconds(secs, nanos).is_some() {
        Some(get_milliseconds(duration))
    } else {
        None
    }
}

/// A longer time never has fewer whole milliseconds: where one time is at
/// most another, seconds compared first and nanoseconds second, so are
/// their milliseconds.
pub proof fn lemma_milliseconds_monotonic(secs1: nat, nanos1: nat, secs2: nat, nanos2: nat)
    requires
        nanos1 < 1_000_000_000,
        nanos2 < 1_000_000_000,
        secs1 < secs2 || (secs1 == secs2 && nanos1 <= nanos2),
    ensures
        whole_milliseconds(secs1, nanos1) <= whole_milliseconds(secs2, nanos2),
{
}

/// The milliseconds of a time are its seconds a thousandfold and the whole
/// milliseconds of its nanoseconds.
pub proof fn lemma_milliseconds_by_parts(secs: nat, nanos: nat)
    ensures
        whole_milliseconds(secs, nanos) == secs * 1000 + nanos / 1_000_000,
{
}

/// A time of whole milliseconds gives back exactly those milliseconds, so
/// converting what was converted changes nothing.
pub proof fn lemma_milliseconds_of_whole(ms: nat)
    ensures
        whole_milliseconds(ms / 1000, ((ms % 1000) * 1_000_000) as nat) == ms,
{
}

/// The milliseconds of a duration depend on the duration alone: equal
/// durations have equal milliseconds, whether or not a `u64` holds them,
/// and so get equal results from every call.
pub proof fn lemma_milliseconds_deterministic(first: Duration, second: Duration)
    requires
        first == second,
    ensures
        milliseconds_of(first) == milliseconds_of(second),
        checked_milliseconds_of(first) == checked_milliseconds_of(second),
{
}

/// Where nothing is clamped, the rectangle has the size asked for and its
/// centre, with each half rounded down, lies at the centre of the window
/// moved by the offsets.
pub proof fn lemma_centered_unclamped(
    width: int,
    height: int,
    horizontal_offset: int,
    vertical_offset: int,
)
    requires
        1 <= width <= MAX_SIZE,
        1 <= height <= MAX_SIZE,
        MIN_POSITION <= config::WINDOW_WIDTH / 2 - width / 2 + horizontal_offset <= MAX_POSITION,
        MIN_POSITION <= config::WINDOW_HEIGHT / 2 - height / 2 + vertical_offset <= MAX_POSITION,
    ensures
        ({
            let r = centered(width, height, horizontal_offset, vertical_offset);
            &&& r.width == width
            &&& r.height == height
            &&& r.x + width / 2 == config::WINDOW_WIDTH / 2 + horizontal_offset
            &&& r.y + height / 2 == config::WINDOW_HEIGHT / 2 + vertical_offset
            &&& r.in_limits()
        }),
{
}

/// Whatever is asked for, the rectangle is within the limits.
pub proof fn lemma_centered_in_limits(
    width: int,
    height: int,
    horizontal_offset: int,
    vertical_offset: int,
)
    ensures
        centered(width, height, horizontal_offset, vertical_offset).in_limits(),
{
}

} // verus!
