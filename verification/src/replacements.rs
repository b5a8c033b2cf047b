//! The replacements that go by the name of the file and a feature switch.

use crate::bytes::equal;
use crate::catalog::{Payload, PayloadCatalog};
use crate::features::Features;
use vstd::prelude::*;
use vstd::string::*;

verus! {

/// The no-fog switch is on and the file is the chunk material.
pub open spec fn wants_no_fog_material(features: Features, filename: Seq<u8>) -> bool {
    features.no_fog && filename == "RenderChunk.material.bin".spec_bytes()
}

/// The night-vision switch is on and the file is the chunk material.
pub open spec fn wants_nightvision_material(features: Features, filename: Seq<u8>) -> bool {
    features.night_vision && filename == "RenderChunk.material.bin".spec_bytes()
}

/// The cube-map switch is on and the file is the sky material.
pub open spec fn wants_java_cubemap_material(features: Features, filename: Seq<u8>) -> bool {
    features.java_cubemap && filename == "LegacyCubemap.material.bin".spec_bytes()
}

/// The cape switch is on and the file is the player model.
pub open spec fn wants_cape_model(features: Features, filename: Seq<u8>) -> bool {
    features.cape_physics && filename == "mobs.json".spec_bytes()
}

/// The cape switch is on and the file is the player animation.
pub open spec fn wants_cape_animation(features: Features, filename: Seq<u8>) -> bool {
    features.cape_physics && filename == "player.animation.json".spec_bytes()
}

/// The chunk material without fog, where the no-fog switch is on and
/// `filename` is that of the chunk material.
pub fn get_no_fog_material_data<'a>(
    features: &Features,
    catalog: &'a PayloadCatalog,
    filename: &[u8],
) -> (r: Option<&'a [u8]>)
    ensures
        r is Some <==> wants_no_fog_material(*features, filename@),
        r matches Some(bytes) ==> bytes@ == catalog.bytes_of(Payload::NoFogMaterial),
{
    if !features.no_fog {
        return None;
    }
    if equal(filename, "RenderChunk.material.bin".as_bytes()) {
        Some(catalog.get(Payload::NoFogMaterial))
    } else {
        None
    }
}

/// The chunk material for night vision, where the night-vision switch is
/// on and `filename` is that of the chunk material.
pub fn get_nightvision_material_data<'a>(
    features: &Features,
    catalog: &'a PayloadCatalog,
    filename: &[u8],
) -> (r: Option<&'a [u8]>)
    ensures
        r is Some <==> wants_nightvision_material(*features, filename@),
        r matches Some(bytes) ==> bytes@ == catalog.bytes_of(Payload::NightVisionMaterial),
{
    if !features.night_vision {
        return None;
    }
    if equal(filename, "RenderChunk.material.bin".as_bytes()) {
        Some(catalog.get(Payload::NightVisionMaterial))
    } else {
        None
    }
}

/// The legacy cube map material, where the cube-map switch is on and
/// `filename` is that of the sky material.
pub fn get_java_cubemap_material_data<'a>(
    features: &Features,
    catalog: &'a PayloadCatalog,
    filename: &[u8],
) -> (r: Option<&'a [u8]>)
    ensures
        r is Some <==> wants_java_cubemap_material(*features, filename@),
        r matches Some(bytes) ==> bytes@ == catalog.bytes_of(Payload::CubemapMaterial),
{
    if !features.java_cubemap {
        return None;
    }
    if equal(filename, "LegacyCubemap.material.bin".as_bytes()) {
        Some(catalog.get(Payload::CubemapMaterial))
    } else {
        None
    }
}

/// The player model with cape physics, where the cape switch is on and
/// `filename` is that of the player model.
pub fn get_cape_model_data<'a>(
    features: &Features,
    catalog: &'a PayloadCatalog,
    filename: &[u8],
) -> (r: Option<&'a [u8]>)
    ensures
        r is Some <==> wants_cape_model(*features, filename@),
        r matches Some(bytes) ==> bytes@ == catalog.bytes_of(Payload::CapeModel),
{
    if !features.cape_physics {
        return None;
    }
    if equal(filename, "mobs.json".as_bytes()) {
        Some(catalog.get(Payload::CapeModel))
    } else {
        None
    }
}

/// The player animation with cape physics, where the cape switch is on and
/// `filename` is that of the player animation.
pub fn get_cape_animation_data<'a>(
    features: &Features,
    catalog: &'a PayloadCatalog,
    filename: &[u8],
) -> (r: Option<&'a [u8]>)
    ensures
        r is Some <==> wants_cape_animation(*features, filename@),
        r matches Some(bytes) ==> bytes@ == catalog.bytes_of(Payload::CapeAnimation),
{
    if !features.cape_physics {
        return None;
    }
    if equal(filename, "player.animation.json".as_bytes()) {
        Some(catalog.get(Payload::CapeAnimation))
    } else {
        None
    }
}

} // verus!
