use vstd::prelude::*;

use std::collections::HashMap;

verus! {

/// A request from the introspection service to the compositor.
#[derive(Debug, Clone, Copy, PartialEq, Eq, Structural)]
pub enum IntrospectToNiri {
    GetWindows,
}

/// The compositor's answer to the introspection service.
#[derive(Debug)]
pub enum NiriToIntrospect {
    /// The open windows, by identifier.
    Windows(HashMap<u64, WindowProperties>),
}

/// What the introspection service tells of a window.
#[derive(Debug, Clone)]
pub struct WindowProperties {
    pub title: String,
    /// The application identifier, standing for the desktop file name.
    pub app_id: String,
}

} // verus!
