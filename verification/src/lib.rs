//! Verified core of the tcod bindings: colours, key decoding, the flag
//! encodings handed to libtcod, and the grid checks of the path finders.

pub mod background_flag;
pub mod color;
pub mod flags;
pub mod key_code;
pub mod keys;
pub mod path;

pub use color::Color;
pub use flags::custom_font_flags;
pub use flags::CUSTOM_FONT_CHARS_HORIZONTAL;
pub use flags::CUSTOM_FONT_CHARS_VERTICAL;
pub use flags::FontFlags;
pub use flags::Renderer;
pub use flags::TextAlignment;
pub use keys::Key;
pub use keys::Key::Printable;
pub use keys::Key::Special;
pub use keys::KeyPressFlag;
pub use keys::KeyState;
pub use keys::RawKey;
pub use path::path_index_in_range;
pub use path::walk_step;
pub use path::PathGrid;
