//! The feature toggles that gate the replacement rules.

use vstd::prelude::*;

verus! {

/// One switch per kind of replacement. The overlay reads them at every
/// open and keeps none of them.
#[derive(Clone, Copy, Debug, PartialEq, Eq, Structural)]
pub struct Features {
    /// Replace the camera presets, so that taking damage does not shake
    /// the view.
    pub no_hurt_cam: bool,
    /// Replace the chunk material by one without fog.
    pub no_fog: bool,
    /// Replace the sky material by the legacy cube map.
    pub java_cubemap: bool,
    /// Hide every particle and effect file.
    pub particles_disabler: bool,
    /// Replace the clouds texture.
    pub java_clouds: bool,
    /// Replace the default skins by the classic ones, and hide the persona
    /// catalog.
    pub classic_skins: bool,
    /// Replace the player animation and model by ones with a moving cape.
    pub cape_physics: bool,
    /// Replace the chunk material by one that is bright in the dark.
    pub night_vision: bool,
}

impl Features {
    /// Every switch off.
    pub fn none() -> (r: Features)
        ensures
            r == (Features {
                no_hurt_cam: false,
                no_fog: false,
                java_cubemap: false,
                particles_disabler: false,
                java_clouds: false,
                classic_skins: false,
                cape_physics: false,
                night_vision: false,
            }),
    {
        Features {
            no_hurt_cam: false,
            no_fog: false,
            java_cubemap: false,
            particles_disabler: false,
            java_clouds: false,
            classic_skins: false,
            cape_physics: false,
            night_vision: false,
        }
    }

    /// Every switch on.
    pub fn all() -> (r: Features)
        ensures
            r == (Features {
                no_hurt_cam: true,
                no_fog: true,
                java_cubemap: true,
                particles_disabler: true,
                java_clouds: true,
                classic_skins: true,
                cape_physics: true,
                night_vision: true,
            }),
    {
        Features {
            no_hurt_cam: true,
            no_fog: true,
            java_cubemap: true,
            particles_disabler: true,
            java_clouds: true,
            classic_skins: true,
            cape_physics: true,
            night_vision: true,
        }
    }
}

} // verus!
