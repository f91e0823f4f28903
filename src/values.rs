use vstd::prelude::*;

verus! {

/// Whether a surface and its subtree are shown.
#[derive(Clone, Copy, Debug, Hash, PartialEq, Eq, Structural)]
#[non_exhaustive]
pub enum Visibility {
    Hide,
    Show,
}

/// Whether every pixel of a surface's buffer is transparent, translucent or opaque.
#[derive(Clone, Copy, Debug, Hash, PartialEq, Eq, Structural)]
#[non_exhaustive]
pub enum Transparency {
    Transparent,
    Translucent,
    Opaque,
}

/// How a surface's requested frame rate relates to its content.
#[derive(Clone, Copy, Debug, Hash, PartialEq, Eq, Structural)]
pub enum FrameRateCompatibility {
    Default,
    FixedSource,
}

/// Whether a refresh-rate change that the frame rate causes must be seamless.
#[derive(Clone, Copy, Debug, Hash, PartialEq, Eq, Structural)]
pub enum ChangeFrameRateStrategy {
    OnlyIfSeamless,
    Always,
}

pub open spec fn visibility_code(v: Visibility) -> i8 {
    match v {
        Visibility::Hide => 0,
        Visibility::Show => 1,
    }
}

pub open spec fn transparency_code(t: Transparency) -> i8 {
    match t {
        Transparency::Transparent => 0,
        Transparency::Translucent => 1,
        Transparency::Opaque => 2,
    }
}

pub open spec fn compatibility_code(c: FrameRateCompatibility) -> i8 {
    match c {
        FrameRateCompatibility::Default => 0,
        FrameRateCompatibility::FixedSource => 1,
    }
}

pub open spec fn strategy_code(s: ChangeFrameRateStrategy) -> i8 {
    match s {
        ChangeFrameRateStrategy::OnlyIfSeamless => 0,
        ChangeFrameRateStrategy::Always => 1,
    }
}

impl Visibility {
    /// The value the native boundary uses for this visibility.
    pub fn code(self) -> (r: i8)
        ensures
            r == visibility_code(self),
    {
        match self {
            Visibility::Hide => 0,
            Visibility::Show => 1,
        }
    }

    /// The visibility a native value stands for, if any.
    pub fn try_from_code(v: i8) -> (r: Option<Visibility>)
        ensures
            r matches Some(x) ==> visibility_code(x) == v,
            r is None <==> !(v == 0 || v == 1),
    {
        if v == 0 {
            Some(Visibility::Hide)
        } else if v == 1 {
            Some(Visibility::Show)
        } else {
            None
        }
    }
}

impl Transparency {
    /// The value the native boundary uses for this transparency.
    pub fn code(self) -> (r: i8)
        ensures
            r == transparency_code(self),
    {
        match self {
            Transparency::Transparent => 0,
            Transparency::Translucent => 1,
            Transparency::Opaque => 2,
        }
    }

    /// The transparency a native value stands for, if any.
    pub fn try_from_code(v: i8) -> (r: Option<Transparency>)
        ensures
            r matches Some(x) ==> transparency_code(x) == v,
            r is None <==> !(0 <= v <= 2),
    {
        if v == 0 {
            Some(Transparency::Transparent)
        } else if v == 1 {
            Some(Transparency::Translucent)
        } else if v == 2 {
            Some(Transparency::Opaque)
        } else {
            None
        }
    }
}

impl FrameRateCompatibility {
    pub fn code(self) -> (r: i8)
        ensures
            r == compatibility_code(self),
    {
        match self {
            FrameRateCompatibility::Default => 0,
            FrameRateCompatibility::FixedSource => 1,
        }
    }
}

impl ChangeFrameRateStrategy {
    pub fn code(self) -> (r: i8)
        ensures
            r == strategy_code(self),
    {
        match self {
            ChangeFrameRateStrategy::OnlyIfSeamless => 0,
            ChangeFrameRateStrategy::Always => 1,
        }
    }
}

impl From<Visibility> for i8 {
    fn from(v: Visibility) -> (r: i8) {
        v.code()
    }
}

impl vstd::std_specs::convert::FromSpecImpl<Visibility> for i8 {
    open spec fn obeys_from_spec() -> bool {
        true
    }

    open spec fn from_spec(v: Visibility) -> i8 {
        visibility_code(v)
    }
}

impl From<Transparency> for i8 {
    fn from(t: Transparency) -> (r: i8) {
        t.code()
    }
}

impl vstd::std_specs::convert::FromSpecImpl<Transparency> for i8 {
    open spec fn obeys_from_spec() -> bool {
        true
    }

    open spec fn from_spec(t: Transparency) -> i8 {
        transparency_code(t)
    }
}

/// An integer rectangle, edges inclusive of `left`/`top` and exclusive of `right`/`bottom`.
#[derive(Clone, Copy, Debug, PartialEq, Eq, Structural)]
pub struct Rect {
    pub left: i32,
    pub top: i32,
    pub right: i32,
    pub bottom: i32,
}

/// A rectangle whose edges are not crossed (it may be empty).
pub open spec fn rect_is_ordered(r: Rect) -> bool {
    r.left <= r.right && r.top <= r.bottom
}

/// A rectangle with a width and a height above zero.
pub open spec fn rect_has_area(r: Rect) -> bool {
    r.left < r.right && r.top < r.bottom
}

impl Rect {
    pub fn is_ordered(&self) -> (r: bool)
        ensures
            r == rect_is_ordered(*self),
    {
        self.left <= self.right && self.top <= self.bottom
    }

    pub fn has_area(&self) -> (r: bool)
        ensures
            r == rect_has_area(*self),
    {
        self.left < self.right && self.top < self.bottom
    }
}

/// The platform version from which surface nodes, transactions and the base staging calls
/// exist.
pub const SURFACE_CONTROL_LEVEL: u32 = 29;

/// The version that adds the frame-rate call.
pub const FRAME_RATE_LEVEL: u32 = 30;

/// The version that adds crop, position, buffer transform, scale, the frame-rate change
/// strategy, back pressure, the on-commit callback and taking a second node reference.
pub const FINE_CONTROL_LEVEL: u32 = 31;

/// The version that adds the frame timeline.
pub const FRAME_TIMELINE_LEVEL: u32 = 33;

// Single-precision values cross this library as their IEEE 754 bit patterns. For
// non-negative values (sign bit clear) the order of the patterns, read as unsigned
// integers, is the order of the values; positive infinity is 0x7f80_0000, and every
// pattern above it with the sign bit clear is a NaN.

/// The pattern of `1.0`.
pub const ONE_BITS: u32 = 0x3f80_0000;

/// The pattern of positive infinity.
pub const INFINITY_BITS: u32 = 0x7f80_0000;

/// The pattern of `-0.0`.
pub const NEGATIVE_ZERO_BITS: u32 = 0x8000_0000;

/// A value above zero, positive infinity included: not zero, sign bit clear, not a NaN.
pub open spec fn is_positive(bits: u32) -> bool {
    0 < bits <= INFINITY_BITS
}

/// A value in the closed range from zero to one (either zero counts).
pub open spec fn is_unit_interval(bits: u32) -> bool {
    bits <= ONE_BITS || bits == NEGATIVE_ZERO_BITS
}

pub fn positive(bits: u32) -> (r: bool)
    ensures
        r == is_positive(bits),
{
    0 < bits && bits <= INFINITY_BITS
}

pub fn unit_interval(bits: u32) -> (r: bool)
    ensures
        r == is_unit_interval(bits),
{
    bits <= ONE_BITS || bits == NEGATIVE_ZERO_BITS
}

} // verus!
