use tcod::background_flag::BackgroundFlag;
use tcod::custom_font_flags;
use tcod::FontFlags;
use tcod::Renderer;
use tcod::TextAlignment;

#[test]
fn background_flag_codes() {
    assert_eq!(BackgroundFlag::NoChange.code(), 0);
    assert_eq!(BackgroundFlag::SetColor.code(), 1);
    assert_eq!(BackgroundFlag::Multiply.code(), 2);
    assert_eq!(BackgroundFlag::Screen.code(), 5);
    assert_eq!(BackgroundFlag::Add.code(), 8);
    assert_eq!(BackgroundFlag::AddA.code(), 9);
    assert_eq!(BackgroundFlag::Alph.code(), 12);
    assert_eq!(BackgroundFlag::Default.code(), 13);
}

#[test]
fn alignment_and_renderer_codes() {
    assert_eq!(TextAlignment::Left.code(), 0);
    assert_eq!(TextAlignment::Right.code(), 1);
    assert_eq!(TextAlignment::Center.code(), 2);
    assert_eq!(Renderer::GLSL.code(), 0);
    assert_eq!(Renderer::OpenGL.code(), 1);
    assert_eq!(Renderer::SDL.code(), 2);
}

#[test]
fn font_flag_bits() {
    let all = [
        FontFlags::LayoutAsciiIncol,
        FontFlags::LayoutAsciiInrow,
        FontFlags::TypeGreyscale,
        FontFlags::LayoutTcod,
    ];
    for (i, a) in all.iter().enumerate() {
        assert_eq!(a.code().count_ones(), 1);
        for (j, b) in all.iter().enumerate() {
            if i != j {
                assert_eq!(a.code() & b.code(), 0);
            }
        }
    }
    assert_eq!(custom_font_flags(), 12);
    assert_eq!(custom_font_flags(), FontFlags::LayoutTcod.code() | FontFlags::TypeGreyscale.code());
}
