use vstd::prelude::*;

verus! {

/// Largest value of a colour channel.
pub const CHANNEL_MAX: u8 = 255;

/// Saturating sum of two channel values: the plain sum, capped at 255.
pub open spec fn sat_channel(a: u8, b: u8) -> u8 {
    if a + b < 255 {
        (a + b) as u8
    } else {
        255u8
    }
}

/// An RGBA colour with 8-bit channels.
#[derive(Clone, Copy, Debug, PartialEq, Eq, Structural)]
pub struct Color {
    pub r: u8,
    pub g: u8,
    pub b: u8,
    pub a: u8,
}

/// Channel-wise saturating sum of two colours.
pub open spec fn sat_add(x: Color, y: Color) -> Color {
    Color {
        r: sat_channel(x.r, y.r),
        g: sat_channel(x.g, y.g),
        b: sat_channel(x.b, y.b),
        a: sat_channel(x.a, y.a),
    }
}

fn add_channel(a: u8, b: u8) -> (r: u8)
    ensures
        r == sat_channel(a, b),
{
    if (a as u16) + (b as u16) < 255 {
        a + b
    } else {
        CHANNEL_MAX
    }
}

impl Color {
    pub open spec fn black_spec() -> Color {
        Color { r: 0, g: 0, b: 0, a: 255 }
    }

    pub fn new(r: u8, g: u8, b: u8, a: u8) -> (c: Color)
        ensures
            c == (Color { r, g, b, a }),
    {
        Color { r, g, b, a }
    }

    /// Opaque black.
    pub fn black() -> (c: Color)
        ensures
            c == Color::black_spec(),
    {
        Color { r: 0, g: 0, b: 0, a: 255 }
    }

    /// Adds `rhs` channel by channel, each channel capped at 255 instead of wrapping.
    pub fn add_saturating(&mut self, rhs: Color)
        ensures
            *final(self) == sat_add(*old(self), rhs),
    {
        self.r = add_channel(self.r, rhs.r);
        self.g = add_channel(self.g, rhs.g);
        self.b = add_channel(self.b, rhs.b);
        self.a = add_channel(self.a, rhs.a);
    }
}

impl std::ops::AddAssign for Color {
    /// Saturating addition, as `add_saturating`.
    fn add_assign(&mut self, rhs: Color)
        ensures
            *final(self) == sat_add(*old(self), rhs),
    {
        self.add_saturating(rhs);
    }
}

/// Saturating addition of colours is commutative and associative, has the
/// transparent black `(0, 0, 0, 0)` as identity and opaque white as absorbing
/// element, and never lowers a channel of either operand.
pub proof fn lemma_sat_add_laws(x: Color, y: Color, z: Color)
    ensures
        sat_add(x, y) == sat_add(y, x),
        sat_add(sat_add(x, y), z) == sat_add(x, sat_add(y, z)),
        sat_add(x, Color { r: 0, g: 0, b: 0, a: 0 }) == x,
        sat_add(x, Color { r: 255, g: 255, b: 255, a: 255 })
            == (Color { r: 255, g: 255, b: 255, a: 255 }),
        sat_add(x, y).r >= x.r && sat_add(x, y).r >= y.r,
        sat_add(x, y).g >= x.g && sat_add(x, y).g >= y.g,
        sat_add(x, y).b >= x.b && sat_add(x, y).b >= y.b,
        sat_add(x, y).a >= x.a && sat_add(x, y).a >= y.a,
{
}

} // verus!
