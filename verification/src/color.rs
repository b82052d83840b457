use vstd::prelude::*;

verus! {

/// An RGB colour with one byte per channel, laid out as libtcod's `TCOD_color_t`.
#[derive(Debug, Clone, Copy, PartialEq, Eq, Structural)]
pub struct Color {
    pub r: u8,
    pub g: u8,
    pub b: u8,
}

/// One channel of `a + b`: the byte sum, wrapping past 255.
///
/// The channel is computed as `min(255, a + b)` in byte arithmetic; a byte is
/// never above 255, so the cap leaves the wrapped sum as it is.
pub open spec fn channel_add(a: u8, b: u8) -> u8 {
    ((a + b) % 256) as u8
}

/// One channel of `a - b`: computed as `min(0, a - b)` in byte arithmetic,
/// which is 0 for every pair of bytes.
pub open spec fn channel_sub(a: u8, b: u8) -> u8 {
    0
}

/// The colour with all three channels at 0.
pub open spec fn black() -> Color {
    Color { r: 0, g: 0, b: 0 }
}

pub open spec fn color_add(x: Color, y: Color) -> Color {
    Color { r: channel_add(x.r, y.r), g: channel_add(x.g, y.g), b: channel_add(x.b, y.b) }
}

pub open spec fn color_sub(x: Color, y: Color) -> Color {
    Color { r: channel_sub(x.r, y.r), g: channel_sub(x.g, y.g), b: channel_sub(x.b, y.b) }
}

fn add_channel(a: u8, b: u8) -> (c: u8)
    ensures
        c == channel_add(a, b),
{
    let wrapped = a.wrapping_add(b);
    if 255u8 < wrapped {
        255u8
    } else {
        wrapped
    }
}

fn sub_channel(a: u8, b: u8) -> (c: u8)
    ensures
        c == channel_sub(a, b),
{
    let wrapped = a.wrapping_sub(b);
    if wrapped < 0u8 {
        wrapped
    } else {
        0u8
    }
}

impl Color {
    pub fn new(red: u8, green: u8, blue: u8) -> (c: Color)
        ensures
            c == (Color { r: red, g: green, b: blue }),
    {
        Color { r: red, g: green, b: blue }
    }
}

/// Colours add channel by channel; a channel sum past 255 wraps around.
impl core::ops::Add for Color {
    type Output = Color;

    fn add(self, other: Color) -> (c: Color)
        ensures
            c == color_add(self, other),
            c.r == (self.r + other.r) % 256,
            c.g == (self.g + other.g) % 256,
            c.b == (self.b + other.b) % 256,
    {
        Color {
            r: add_channel(self.r, other.r),
            g: add_channel(self.g, other.g),
            b: add_channel(self.b, other.b),
        }
    }
}

impl vstd::std_specs::ops::AddSpecImpl for Color {
    open spec fn obeys_add_spec() -> bool {
        true
    }

    open spec fn add_req(self, rhs: Color) -> bool {
        true
    }

    open spec fn add_spec(self, rhs: Color) -> Color {
        color_add(self, rhs)
    }
}

/// Colours subtract channel by channel, each channel floored by `min(0, ..)`,
/// so the difference of any two colours is black.
impl core::ops::Sub for Color {
    type Output = Color;

    fn sub(self, other: Color) -> (c: Color)
        ensures
            c == color_sub(self, other),
            c.r == 0 && c.g == 0 && c.b == 0,
    {
        Color {
            r: sub_channel(self.r, other.r),
            g: sub_channel(self.g, other.g),
            b: sub_channel(self.b, other.b),
        }
    }
}

impl vstd::std_specs::ops::SubSpecImpl for Color {
    open spec fn obeys_sub_spec() -> bool {
        true
    }

    open spec fn sub_req(self, rhs: Color) -> bool {
        true
    }

    open spec fn sub_spec(self, rhs: Color) -> Color {
        color_sub(self, rhs)
    }
}

/// Each channel of a sum is the sum of the two channels, reduced modulo 256:
/// the channel itself when it is at most 255, and 256 less when it is more.
pub proof fn lemma_add_channels(x: Color, y: Color)
    ensures
        x.r + y.r <= 255 ==> color_add(x, y).r == x.r + y.r,
        x.r + y.r > 255 ==> color_add(x, y).r == x.r + y.r - 256,
        x.g + y.g <= 255 ==> color_add(x, y).g == x.g + y.g,
        x.g + y.g > 255 ==> color_add(x, y).g == x.g + y.g - 256,
        x.b + y.b <= 255 ==> color_add(x, y).b == x.b + y.b,
        x.b + y.b > 255 ==> color_add(x, y).b == x.b + y.b - 256,
{
}

/// Adding colours does not depend on the order of the operands.
pub proof fn lemma_add_commutative(x: Color, y: Color)
    ensures
        color_add(x, y) == color_add(y, x),
{
}

proof fn lemma_channel_add_associative(a: u8, b: u8, c: u8)
    ensures
        channel_add(channel_add(a, b), c) == channel_add(a, channel_add(b, c)),
{
    assert(((((a + b) % 256) as u8 + c) % 256) as u8 == ((a + ((b + c) % 256) as u8) % 256) as u8)
        by (bit_vector);
}

/// Adding colours can be regrouped freely.
pub proof fn lemma_add_associative(x: Color, y: Color, z: Color)
    ensures
        color_add(color_add(x, y), z) == color_add(x, color_add(y, z)),
{
    lemma_channel_add_associative(x.r, y.r, z.r);
    lemma_channel_add_associative(x.g, y.g, z.g);
    lemma_channel_add_associative(x.b, y.b, z.b);
}

/// Adding black leaves a colour unchanged.
pub proof fn lemma_add_black(x: Color)
    ensures
        color_add(x, black()) == x,
{
}

/// Subtracting any colour from any colour gives black.
pub proof fn lemma_sub_is_black(x: Color, y: Color)
    ensures
        color_sub(x, y) == black(),
{
}

} // verus!
