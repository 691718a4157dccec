//! The stock editor panels' marker types. In the host they sit on window
//! entities as components; their tab titles come from the type name, as
//! [`crate::text::window_display_name`] computes it.
use vstd::prelude::*;

verus! {

/// The asset browser panel.
#[derive(Debug, Default, Clone, Copy, PartialEq, Eq, Structural)]
pub struct AssetsWindow;

impl AssetsWindow {
    /// The panel's tab title.
    pub fn title(&self) -> (r: &'static str)
        ensures
            r@ == "Assets"@,
    {
        "Assets"
    }
}

/// The entity/resource/asset inspector panel.
#[derive(Debug, Default, Clone, Copy, PartialEq, Eq, Structural)]
pub struct InspectorWindow;

impl InspectorWindow {
    /// The panel's tab title.
    pub fn title(&self) -> (r: &'static str)
        ensures
            r@ == "Inspector"@,
    {
        "Inspector"
    }
}

/// The resource browser panel.
#[derive(Debug, Default, Clone, Copy, PartialEq, Eq, Structural)]
pub struct ResourcesWindow;

impl ResourcesWindow {
    /// The panel's tab title.
    pub fn title(&self) -> (r: &'static str)
        ensures
            r@ == "Resources"@,
    {
        "Resources"
    }
}

} // verus!
