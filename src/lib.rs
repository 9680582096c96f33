use vstd::prelude::*;

pub mod animation;
pub mod backend;
pub mod dbus;
pub mod dummy_pw_utils;
pub mod frame_clock;
pub mod layout;
pub mod redraw_state;
pub mod render_helpers;
pub mod utils;
pub mod window;

verus! {

} // verus!
