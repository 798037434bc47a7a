//! Capabilities of the front end's interactive components.

use vstd::prelude::*;

verus! {

/// Which input channels a component listens to.
#[derive(Clone, Copy, Debug, PartialEq, Eq, Structural)]
pub struct ComponentInfo {
    pub mouse_enabled: bool,
    pub key_enabled: bool,
}

impl Default for ComponentInfo {
    /// A component that listens to nothing.
    fn default() -> (r: ComponentInfo)
        ensures
            !r.mouse_enabled,
            !r.key_enabled,
    {
        ComponentInfo { mouse_enabled: false, key_enabled: false }
    }
}

impl ComponentInfo {
    /// A component that listens to both mouse and keyboard.
    pub fn all_enabled() -> (r: ComponentInfo)
        ensures
            r.mouse_enabled,
            r.key_enabled,
    {
        ComponentInfo { mouse_enabled: true, key_enabled: true }
    }
}

/// A content slot that renders nothing and handles nothing.
pub struct EmptyComponent;

} // verus!
