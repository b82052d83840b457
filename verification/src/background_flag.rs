use vstd::prelude::*;

verus! {

/// How a cell's background colour is combined with the colour being drawn.
#[derive(Debug, Clone, Copy, PartialEq, Eq, Structural)]
pub enum BackgroundFlag {
    /// Leave the background as it is (`TCOD_BKGND_NONE`).
    NoChange,
    /// Replace the background with the colour (`TCOD_BKGND_SET`).
    SetColor,
    Multiply,
    Lighten,
    Darken,
    Screen,
    ColorDodge,
    ColorBurn,
    Add,
    AddA,
    Burn,
    Overlay,
    Alph,
    Default,
}

/// The number libtcod uses for each background mode (`TCOD_bkgnd_flag_t`).
pub open spec fn background_flag_value(f: BackgroundFlag) -> u32 {
    match f {
        BackgroundFlag::NoChange => 0,
        BackgroundFlag::SetColor => 1,
        BackgroundFlag::Multiply => 2,
        BackgroundFlag::Lighten => 3,
        BackgroundFlag::Darken => 4,
        BackgroundFlag::Screen => 5,
        BackgroundFlag::ColorDodge => 6,
        BackgroundFlag::ColorBurn => 7,
        BackgroundFlag::Add => 8,
        BackgroundFlag::AddA => 9,
        BackgroundFlag::Burn => 10,
        BackgroundFlag::Overlay => 11,
        BackgroundFlag::Alph => 12,
        BackgroundFlag::Default => 13,
    }
}

impl BackgroundFlag {
    /// The number handed to libtcod for this background mode.
    pub fn code(&self) -> (v: u32)
        ensures
            v == background_flag_value(*self),
            *self == BackgroundFlag::NoChange ==> v == 0,
            *self == BackgroundFlag::SetColor ==> v == 1,
            *self == BackgroundFlag::Multiply ==> v == 2,
            *self == BackgroundFlag::Lighten ==> v == 3,
            *self == BackgroundFlag::Darken ==> v == 4,
            *self == BackgroundFlag::Screen ==> v == 5,
            *self == BackgroundFlag::ColorDodge ==> v == 6,
            *self == BackgroundFlag::ColorBurn ==> v == 7,
            *self == BackgroundFlag::Add ==> v == 8,
            *self == BackgroundFlag::AddA ==> v == 9,
            *self == BackgroundFlag::Burn ==> v == 10,
            *self == BackgroundFlag::Overlay ==> v == 11,
            *self == BackgroundFlag::Alph ==> v == 12,
            *self == BackgroundFlag::Default ==> v == 13,
    {
        match self {
            BackgroundFlag::NoChange => 0,
            BackgroundFlag::SetColor => 1,
            BackgroundFlag::Multiply => 2,
            BackgroundFlag::Lighten => 3,
            BackgroundFlag::Darken => 4,
            BackgroundFlag::Screen => 5,
            BackgroundFlag::ColorDodge => 6,
            BackgroundFlag::ColorBurn => 7,
            BackgroundFlag::Add => 8,
            BackgroundFlag::AddA => 9,
            BackgroundFlag::Burn => 10,
            BackgroundFlag::Overlay => 11,
            BackgroundFlag::Alph => 12,
            BackgroundFlag::Default => 13,
        }
    }
}

/// Each background mode is handed to libtcod as its own `TCOD_bkgnd_flag_t`
/// number, in libtcod's order from `TCOD_BKGND_NONE` = 0 to `TCOD_BKGND_DEFAULT` = 13.
pub proof fn lemma_background_flag_numbers()
    ensures
        background_flag_value(BackgroundFlag::NoChange) == 0,
        background_flag_value(BackgroundFlag::SetColor) == 1,
        background_flag_value(BackgroundFlag::Multiply) == 2,
        background_flag_value(BackgroundFlag::Lighten) == 3,
        background_flag_value(BackgroundFlag::Darken) == 4,
        background_flag_value(BackgroundFlag::Screen) == 5,
        background_flag_value(BackgroundFlag::ColorDodge) == 6,
        background_flag_value(BackgroundFlag::ColorBurn) == 7,
        background_flag_value(BackgroundFlag::Add) == 8,
        background_flag_value(BackgroundFlag::AddA) == 9,
        background_flag_value(BackgroundFlag::Burn) == 10,
        background_flag_value(BackgroundFlag::Overlay) == 11,
        background_flag_value(BackgroundFlag::Alph) == 12,
        background_flag_value(BackgroundFlag::Default) == 13,
{
}

/// Different background modes are handed to libtcod as different numbers.
pub proof fn lemma_background_flag_value_injective(f1: BackgroundFlag, f2: BackgroundFlag)
    requires
        background_flag_value(f1) == background_flag_value(f2),
    ensures
        f1 == f2,
{
}

} // verus!
