pub mod character;
pub mod search;
pub mod sort;
pub mod spells;
pub mod text;
pub mod icon;
pub mod tab;
pub mod tabs;
pub mod hotkey;
pub mod style;
pub mod utils;
pub mod settings;
pub mod window;
pub mod update;
