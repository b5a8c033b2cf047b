//! The catalog of substitute payloads.
//!
//! The overlay does not know what the payloads hold. It is handed one byte
//! string per replacement target and installs the one that a rule names.

use vstd::prelude::*;

verus! {

/// The replacement targets: one per payload of the catalog.
#[derive(Clone, Copy, Debug, PartialEq, Eq, Structural)]
pub enum Payload {
    /// The splash texts.
    Splashes,
    /// The loading messages.
    LoadingMessages,
    /// The clouds texture.
    CloudsTexture,
    /// The classic Steve texture.
    SteveTexture,
    /// The classic Alex texture.
    AlexTexture,
    /// The skin catalog that lists the two classic skins.
    SkinCatalog,
    /// The first-person camera preset.
    FirstPersonCamera,
    /// The third-person camera preset.
    ThirdPersonCamera,
    /// The third-person camera preset that looks at the player's front.
    ThirdPersonFrontCamera,
    /// The chunk material without fog.
    NoFogMaterial,
    /// The chunk material for night vision.
    NightVisionMaterial,
    /// The player animation with cape physics.
    CapeAnimation,
    /// The player model with cape physics.
    CapeModel,
    /// The legacy cube map material.
    CubemapMaterial,
}

/// One byte string per replacement target.
pub struct PayloadCatalog {
    pub splashes: Vec<u8>,
    pub loading_messages: Vec<u8>,
    pub clouds_texture: Vec<u8>,
    pub steve_texture: Vec<u8>,
    pub alex_texture: Vec<u8>,
    pub skin_catalog: Vec<u8>,
    pub first_person_camera: Vec<u8>,
    pub third_person_camera: Vec<u8>,
    pub third_person_front_camera: Vec<u8>,
    pub no_fog_material: Vec<u8>,
    pub night_vision_material: Vec<u8>,
    pub cape_animation: Vec<u8>,
    pub cape_model: Vec<u8>,
    pub cubemap_material: Vec<u8>,
}

impl PayloadCatalog {
    /// The bytes that the catalog holds for `target`.
    pub open spec fn bytes_of(&self, target: Payload) -> Seq<u8> {
        match target {
            Payload::Splashes => self.splashes@,
            Payload::LoadingMessages => self.loading_messages@,
            Payload::CloudsTexture => self.clouds_texture@,
            Payload::SteveTexture => self.steve_texture@,
            Payload::AlexTexture => self.alex_texture@,
            Payload::SkinCatalog => self.skin_catalog@,
            Payload::FirstPersonCamera => self.first_person_camera@,
            Payload::ThirdPersonCamera => self.third_person_camera@,
            Payload::ThirdPersonFrontCamera => self.third_person_front_camera@,
            Payload::NoFogMaterial => self.no_fog_material@,
            Payload::NightVisionMaterial => self.night_vision_material@,
            Payload::CapeAnimation => self.cape_animation@,
            Payload::CapeModel => self.cape_model@,
            Payload::CubemapMaterial => self.cubemap_material@,
        }
    }

    /// The bytes that the catalog holds for `target`.
    pub fn get(&self, target: Payload) -> (r: &[u8])
        ensures
            r@ == self.bytes_of(target),
    {
        match target {
            Payload::Splashes => self.splashes.as_slice(),
            Payload::LoadingMessages => self.loading_messages.as_slice(),
            Payload::CloudsTexture => self.clouds_texture.as_slice(),
            Payload::SteveTexture => self.steve_texture.as_slice(),
            Payload::AlexTexture => self.alex_texture.as_slice(),
            Payload::SkinCatalog => self.skin_catalog.as_slice(),
            Payload::FirstPersonCamera => self.first_person_camera.as_slice(),
            Payload::ThirdPersonCamera => self.third_person_camera.as_slice(),
            Payload::ThirdPersonFrontCamera => self.third_person_front_camera.as_slice(),
            Payload::NoFogMaterial => self.no_fog_material.as_slice(),
            Payload::NightVisionMaterial => self.night_vision_material.as_slice(),
            Payload::CapeAnimation => self.cape_animation.as_slice(),
            Payload::CapeModel => self.cape_model.as_slice(),
            Payload::CubemapMaterial => self.cubemap_material.as_slice(),
        }
    }
}

} // verus!
