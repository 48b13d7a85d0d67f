//! Verified presentation-side logic of the gonedark client: the desktop key-rebind model, the
//! platform sound/thermal vocabulary, animation clip selection, the cooked-mesh blob parser and
//! the pure view descriptions the HUD panels are laid out from.
pub mod anim;
pub mod keys;
pub mod codec;
pub mod keybind;
pub mod platform;
pub mod mix;
pub mod mesh;
pub mod tokens;
pub mod fade;
pub mod command_panel;
pub mod objective_hud;
pub mod icon;
pub mod overlay;
pub mod picker;
pub mod hud;
pub mod labels;
