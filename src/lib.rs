//! The command layer and scene-script decoder of a display driver: the value
//! that decides a frame, the binary script that changes it, and the session
//! supervisor that decides how each command reaches the drawing thread.

pub mod backend_name;
pub mod driver;
pub mod frame;
pub mod render_state;
pub mod script;
pub mod script_lemmas;
pub mod stack;

pub use driver::{
    reset_scene, set_clear_color, set_raster_output, set_text, start, stop, submit_script,
};
pub use render_state::RenderState;
pub use script::parse_script;
