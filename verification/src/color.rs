//! An RGB colour with eight bits per channel.

use vstd::prelude::*;
use vstd::std_specs::convert::{FromSpec, FromSpecImpl};
use vstd::std_specs::ops::{AddSpecImpl, MulSpecImpl, SubSpecImpl};

verus! {

/// The colour of one LED.
#[derive(Copy, Clone, Debug, PartialEq, Eq, Structural)]
pub struct Color {
    pub r: u8,
    pub g: u8,
    pub b: u8,
}

/// The sum of two channel values, held at 255.
pub open spec fn sat_add(x: u8, y: u8) -> u8 {
    if x + y > 255 {
        255u8
    } else {
        (x + y) as u8
    }
}

/// The difference of two channel values, held at 0.
pub open spec fn sat_sub(x: u8, y: u8) -> u8 {
    if x < y {
        0u8
    } else {
        (x - y) as u8
    }
}

/// The product of two channel values, held at 255.
pub open spec fn sat_mul(x: u8, y: u8) -> u8 {
    if x * y > 255 {
        255u8
    } else {
        (x * y) as u8
    }
}

/// The complement of a channel value: its distance from 255.
pub open spec fn complement(x: u8) -> u8 {
    (255 - x) as u8
}

fn saturating_product(x: u8, y: u8) -> (p: u8)
    ensures
        p == sat_mul(x, y),
{
    assert(x * y <= 255 * 255) by (nonlinear_arith)
        requires
            x <= 255,
            y <= 255,
    ;
    let wide: u16 = (x as u16) * (y as u16);
    if wide > 255 {
        255
    } else {
        wide as u8
    }
}

impl Color {
    /// The colour with every channel complemented.
    pub open spec fn inverted(self) -> Color {
        Color { r: complement(self.r), g: complement(self.g), b: complement(self.b) }
    }

    /// A colour from its red, green and blue values.
    pub fn new(r: u8, g: u8, b: u8) -> (c: Self)
        ensures
            c == (Color { r, g, b }),
    {
        Self { r, g, b }
    }

    /// Full red.
    pub fn red() -> (c: Self)
        ensures
            c == (Color { r: 255, g: 0, b: 0 }),
    {
        Self { r: 255, g: 0, b: 0 }
    }

    /// Full blue.
    pub fn blue() -> (c: Self)
        ensures
            c == (Color { r: 0, g: 0, b: 255 }),
    {
        Self { r: 0, g: 0, b: 255 }
    }

    /// Full green.
    pub fn green() -> (c: Self)
        ensures
            c == (Color { r: 0, g: 255, b: 0 }),
    {
        Self { r: 0, g: 255, b: 0 }
    }

    /// Every channel at full value.
    pub fn white() -> (c: Self)
        ensures
            c == (Color { r: 255, g: 255, b: 255 }),
    {
        Self { r: 255, g: 255, b: 255 }
    }

    /// Every channel at zero: the LED is dark.
    pub fn led_off() -> (c: Self)
        ensures
            c == (Color { r: 0, g: 0, b: 0 }),
    {
        Self { r: 0, g: 0, b: 0 }
    }

    /// Replaces each channel by its complement.
    pub fn invert(&mut self)
        ensures
            *final(self) == old(self).inverted(),
    {
        self.r = 255 - self.r;
        self.g = 255 - self.g;
        self.b = 255 - self.b;
    }
}

impl Default for Color {
    fn default() -> (c: Self)
        ensures
            c == (Color { r: 0, g: 0, b: 0 }),
    {
        Self { r: 0, g: 0, b: 0 }
    }
}

impl From<[u8; 3]> for Color {
    fn from(array: [u8; 3]) -> (c: Self) {
        Self { r: array[0], g: array[1], b: array[2] }
    }
}

impl FromSpecImpl<[u8; 3]> for Color {
    open spec fn obeys_from_spec() -> bool {
        true
    }

    open spec fn from_spec(array: [u8; 3]) -> Color {
        Color { r: array@[0], g: array@[1], b: array@[2] }
    }
}

impl From<Color> for [u8; 3] {
    fn from(color: Color) -> (array: Self) {
        [color.r, color.g, color.b]
    }
}

impl FromSpecImpl<Color> for [u8; 3] {
    open spec fn obeys_from_spec() -> bool {
        true
    }

    open spec fn from_spec(color: Color) -> [u8; 3] {
        [color.r, color.g, color.b]
    }
}

impl core::ops::Add for Color {
    type Output = Color;

    fn add(self, other: Color) -> (sum: Color) {
        Color {
            r: self.r.saturating_add(other.r),
            g: self.g.saturating_add(other.g),
            b: self.b.saturating_add(other.b),
        }
    }
}

impl AddSpecImpl for Color {
    open spec fn obeys_add_spec() -> bool {
        true
    }

    open spec fn add_req(self, other: Color) -> bool {
        true
    }

    open spec fn add_spec(self, other: Color) -> Color {
        Color {
            r: sat_add(self.r, other.r),
            g: sat_add(self.g, other.g),
            b: sat_add(self.b, other.b),
        }
    }
}

impl core::ops::Sub for Color {
    type Output = Color;

    fn sub(self, other: Color) -> (difference: Color) {
        Color {
            r: self.r.saturating_sub(other.r),
            g: self.g.saturating_sub(other.g),
            b: self.b.saturating_sub(other.b),
        }
    }
}

impl SubSpecImpl for Color {
    open spec fn obeys_sub_spec() -> bool {
        true
    }

    open spec fn sub_req(self, other: Color) -> bool {
        true
    }

    open spec fn sub_spec(self, other: Color) -> Color {
        Color {
            r: sat_sub(self.r, other.r),
            g: sat_sub(self.g, other.g),
            b: sat_sub(self.b, other.b),
        }
    }
}

impl core::ops::Mul for Color {
    type Output = Color;

    fn mul(self, other: Color) -> (product: Color) {
        Color {
            r: saturating_product(self.r, other.r),
            g: saturating_product(self.g, other.g),
            b: saturating_product(self.b, other.b),
        }
    }
}

impl MulSpecImpl for Color {
    open spec fn obeys_mul_spec() -> bool {
        true
    }

    open spec fn mul_req(self, other: Color) -> bool {
        true
    }

    open spec fn mul_spec(self, other: Color) -> Color {
        Color {
            r: sat_mul(self.r, other.r),
            g: sat_mul(self.g, other.g),
            b: sat_mul(self.b, other.b),
        }
    }
}

/// Inverting a colour twice gives the colour back.
pub proof fn lemma_invert_twice(c: Color)
    ensures
        c.inverted().inverted() == c,
{
}

/// Three bytes made into a colour and back are the same bytes, and a
/// colour made into three bytes and back is the same colour.
pub proof fn lemma_bytes_round_trip(c: Color, bytes: [u8; 3])
    ensures
        <[u8; 3] as FromSpec<Color>>::from_spec(<Color as FromSpec<[u8; 3]>>::from_spec(bytes))
            == bytes,
        <Color as FromSpec<[u8; 3]>>::from_spec(<[u8; 3] as FromSpec<Color>>::from_spec(c)) == c,
{
    let back = <[u8; 3] as FromSpec<Color>>::from_spec(
        <Color as FromSpec<[u8; 3]>>::from_spec(bytes),
    );
    assert(back@ =~= bytes@);
}

} // verus!
