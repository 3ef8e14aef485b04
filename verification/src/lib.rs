pub mod daemon;
pub mod features;
pub mod focus;
pub mod hotkey;
pub mod locale;
pub mod location;
pub mod lookup;
pub mod matching;
pub mod notes;
pub mod resources;
pub mod settings;
pub mod storage;
pub mod text;
pub mod type_matrix;
pub mod viewport;
pub mod wayland;
pub mod win32;
pub mod x11;
