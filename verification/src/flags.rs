use vstd::prelude::*;

verus! {

/// Where printed text is placed relative to the given position.
#[derive(Debug, Clone, Copy, PartialEq, Eq, Structural)]
pub enum TextAlignment {
    Left,
    Right,
    Center,
}

/// The number libtcod uses for each alignment (`TCOD_alignment_t`).
pub open spec fn text_alignment_value(a: TextAlignment) -> u32 {
    match a {
        TextAlignment::Left => 0,
        TextAlignment::Right => 1,
        TextAlignment::Center => 2,
    }
}

impl TextAlignment {
    /// The number handed to libtcod for this alignment.
    pub fn code(&self) -> (v: u32)
        ensures
            v == text_alignment_value(*self),
            *self == TextAlignment::Left ==> v == 0,
            *self == TextAlignment::Right ==> v == 1,
            *self == TextAlignment::Center ==> v == 2,
    {
        match self {
            TextAlignment::Left => 0,
            TextAlignment::Right => 1,
            TextAlignment::Center => 2,
        }
    }
}

/// The renderers libtcod can draw the root console with.
#[derive(Debug, Clone, Copy, PartialEq, Eq, Structural)]
pub enum Renderer {
    GLSL,
    OpenGL,
    SDL,
}

/// The number libtcod uses for each renderer (`TCOD_renderer_t`).
pub open spec fn renderer_value(r: Renderer) -> u32 {
    match r {
        Renderer::GLSL => 0,
        Renderer::OpenGL => 1,
        Renderer::SDL => 2,
    }
}

impl Renderer {
    /// The number handed to libtcod for this renderer.
    pub fn code(&self) -> (v: u32)
        ensures
            v == renderer_value(*self),
            *self == Renderer::GLSL ==> v == 0,
            *self == Renderer::OpenGL ==> v == 1,
            *self == Renderer::SDL ==> v == 2,
    {
        match self {
            Renderer::GLSL => 0,
            Renderer::OpenGL => 1,
            Renderer::SDL => 2,
        }
    }
}

/// The layout and type of a font image.
#[derive(Debug, Clone, Copy, PartialEq, Eq, Structural)]
pub enum FontFlags {
    LayoutAsciiIncol,
    LayoutAsciiInrow,
    TypeGreyscale,
    LayoutTcod,
}

/// The bit libtcod uses for each font flag.
pub open spec fn font_flag_value(f: FontFlags) -> i32 {
    match f {
        FontFlags::LayoutAsciiIncol => 1,
        FontFlags::LayoutAsciiInrow => 2,
        FontFlags::TypeGreyscale => 4,
        FontFlags::LayoutTcod => 8,
    }
}

impl FontFlags {
    /// The bit handed to libtcod for this font flag.
    pub fn code(&self) -> (v: i32)
        ensures
            v == font_flag_value(*self),
            *self == FontFlags::LayoutAsciiIncol ==> v == 1,
            *self == FontFlags::LayoutAsciiInrow ==> v == 2,
            *self == FontFlags::TypeGreyscale ==> v == 4,
            *self == FontFlags::LayoutTcod ==> v == 8,
    {
        match self {
            FontFlags::LayoutAsciiIncol => 1,
            FontFlags::LayoutAsciiInrow => 2,
            FontFlags::TypeGreyscale => 4,
            FontFlags::LayoutTcod => 8,
        }
    }
}

/// The number of characters per row of a font image in libtcod's own layout.
pub const CUSTOM_FONT_CHARS_HORIZONTAL: i32 = 32;

/// The number of character rows of a font image in libtcod's own layout.
pub const CUSTOM_FONT_CHARS_VERTICAL: i32 = 8;

/// The flags a custom font is loaded with: libtcod's own layout, in greyscale.
pub fn custom_font_flags() -> (v: i32)
    ensures
        v == font_flag_value(FontFlags::LayoutTcod) | font_flag_value(FontFlags::TypeGreyscale),
        v == 12,
{
    let v = FontFlags::LayoutTcod.code() | FontFlags::TypeGreyscale.code();
    assert(8i32 | 4i32 == 12i32) by (bit_vector);
    v
}

/// Each alignment, renderer and font flag is handed to libtcod as its own
/// number: `TCOD_LEFT`/`RIGHT`/`CENTER` = 0/1/2, `TCOD_RENDERER_GLSL`/`OPENGL`/`SDL`
/// = 0/1/2, and the font bits `ASCII_INCOL` = 1, `ASCII_INROW` = 2,
/// `TYPE_GREYSCALE` = 4, `LAYOUT_TCOD` = 8.
pub proof fn lemma_flag_numbers()
    ensures
        text_alignment_value(TextAlignment::Left) == 0,
        text_alignment_value(TextAlignment::Right) == 1,
        text_alignment_value(TextAlignment::Center) == 2,
        renderer_value(Renderer::GLSL) == 0,
        renderer_value(Renderer::OpenGL) == 1,
        renderer_value(Renderer::SDL) == 2,
        font_flag_value(FontFlags::LayoutAsciiIncol) == 1,
        font_flag_value(FontFlags::LayoutAsciiInrow) == 2,
        font_flag_value(FontFlags::TypeGreyscale) == 4,
        font_flag_value(FontFlags::LayoutTcod) == 8,
{
}

/// Each font flag is a single bit of its own, so flags can be combined with `|`.
pub proof fn lemma_font_flags_are_distinct_bits(f1: FontFlags, f2: FontFlags)
    requires
        f1 != f2,
    ensures
        font_flag_value(f1) & font_flag_value(f2) == 0,
        font_flag_value(f1) != 0,
{
    assert(1i32 & 2i32 == 0 && 1i32 & 4i32 == 0 && 1i32 & 8i32 == 0) by (bit_vector);
    assert(2i32 & 1i32 == 0 && 2i32 & 4i32 == 0 && 2i32 & 8i32 == 0) by (bit_vector);
    assert(4i32 & 1i32 == 0 && 4i32 & 2i32 == 0 && 4i32 & 8i32 == 0) by (bit_vector);
    assert(8i32 & 1i32 == 0 && 8i32 & 2i32 == 0 && 8i32 & 4i32 == 0) by (bit_vector);
}

/// Different alignments, and different renderers, are handed to libtcod as different numbers.
pub proof fn lemma_codes_injective(a1: TextAlignment, a2: TextAlignment, r1: Renderer, r2: Renderer)
    ensures
        text_alignment_value(a1) == text_alignment_value(a2) ==> a1 == a2,
        renderer_value(r1) == renderer_value(r2) ==> r1 == r2,
{
}

} // verus!
