//! Startup settings of the renderer, as decoded from its configuration file.
use vstd::prelude::*;

verus! {

/// Marker type that groups the startup routines; window, context and
/// configuration decoding live with the embedding program, which hands the
/// decoded values to this crate as plain data.
pub struct Init;

/// Identity of the application being rendered.
#[derive(Debug, Clone)]
pub struct ManifestSettings {
    pub name: String,
    pub version: String,
}

/// Window and display parameters.
#[derive(Debug, Clone, Copy, PartialEq, Eq, Structural)]
pub struct GraphicsSettings {
    pub window_height: u32,
    pub window_width: u32,
    pub is_fullscreen: bool,
}

/// The full startup configuration.
#[derive(Debug, Clone)]
pub struct Settings {
    pub manifest: ManifestSettings,
    pub graphics: GraphicsSettings,
}

} // verus!
