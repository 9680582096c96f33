use vstd::prelude::*;

pub mod gnome_shell_introspect;
pub mod gnome_shell_screenshot;

verus! {

} // verus!
