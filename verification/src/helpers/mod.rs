pub mod colors;
pub mod icons;
pub mod properties;
pub mod yabai;
