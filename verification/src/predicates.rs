//! What a path has to look like for a rule that goes by the path.
//!
//! All of them search the raw bytes of the path for fixed texts.

use crate::bytes::{
    begins_with, contains, contains_seq, ends_with, finishes_with, join, mentions, starts_with,
};
use crate::features::Features;
use vstd::prelude::*;
use vstd::string::*;

verus! {

/// The path is that of a particle or an effect file.
pub open spec fn is_particle_path(path: Seq<u8>) -> bool {
    ||| mentions(path, "/particles/")
    ||| mentions(path, "particles/")
    ||| mentions(path, "/particle/")
    ||| mentions(path, "particle/")
    ||| mentions(path, "_particle")
    ||| mentions(path, "particle_")
    ||| mentions(path, ".particle.")
    ||| mentions(path, "particles.")
    ||| mentions(path, "/effects/")
    ||| mentions(path, "effects/")
    ||| mentions(path, "_effect")
    ||| mentions(path, "effect_")
    ||| mentions(path, ".effect.")
    ||| mentions(path, "effects.")
    ||| begins_with(path, "particles")
    ||| finishes_with(path, ".particle")
    ||| finishes_with(path, "_particle.json")
}

/// The path is that of the clouds texture.
pub open spec fn is_clouds_texture_path(path: Seq<u8>) -> bool {
    ||| mentions(path, "textures/environment/clouds.png")
    ||| mentions(path, "/textures/environment/clouds.png")
    ||| mentions(path, "environment/clouds.png")
    ||| mentions(path, "/environment/clouds.png")
    ||| mentions(path, "clouds.png")
    ||| mentions(path, "textures/clouds.png")
    ||| mentions(path, "/textures/clouds.png")
    ||| mentions(path, "resource_packs/vanilla/textures/environment/clouds.png")
    ||| mentions(path, "assets/resource_packs/vanilla/textures/environment/clouds.png")
    ||| mentions(path, "vanilla/textures/environment/clouds.png")
}

/// The path is that of the file `filename` of the default skin pack.
pub open spec fn is_skin_path(path: Seq<u8>, filename: Seq<u8>) -> bool {
    ||| contains_seq(path, "vanilla/".spec_bytes() + filename)
    ||| contains_seq(path, "skin_packs/vanilla/".spec_bytes() + filename)
    ||| contains_seq(path, "resource_packs/vanilla/".spec_bytes() + filename)
    ||| contains_seq(path, "assets/skin_packs/vanilla/".spec_bytes() + filename)
}

/// The path is that of one of the persona entries that the classic skins
/// replace.
pub open spec fn is_persona_path(path: Seq<u8>) -> bool {
    ||| mentions(path, "persona/08_Kai_Dcast.json")
    ||| mentions(path, "persona/07_Zuri_Dcast.json")
    ||| mentions(path, "persona/06_Efe_Dcast.json")
    ||| mentions(path, "persona/05_Makena_Dcast.json")
    ||| mentions(path, "persona/04_Sunny_Dcast.json")
    ||| mentions(path, "persona/03_Ari_Dcast.json")
    ||| mentions(path, "persona/02_ Noor_Dcast.json")
}

/// Tells whether the particles switch is on and the path is that of a
/// particle or an effect file, which is then hidden.
pub fn is_particles_folder_to_block(features: &Features, c_path: &[u8]) -> (r: bool)
    ensures
        r == (features.particles_disabler && is_particle_path(c_path@)),
{
    if !features.particles_disabler {
        return false;
    }
    contains(c_path, "/particles/".as_bytes()) || contains(c_path, "particles/".as_bytes())
        || contains(c_path, "/particle/".as_bytes()) || contains(c_path, "particle/".as_bytes())
        || contains(c_path, "_particle".as_bytes()) || contains(c_path, "particle_".as_bytes())
        || contains(c_path, ".particle.".as_bytes()) || contains(c_path, "particles.".as_bytes())
        || contains(c_path, "/effects/".as_bytes()) || contains(c_path, "effects/".as_bytes())
        || contains(c_path, "_effect".as_bytes()) || contains(c_path, "effect_".as_bytes())
        || contains(c_path, ".effect.".as_bytes()) || contains(c_path, "effects.".as_bytes())
        || starts_with(c_path, "particles".as_bytes()) || ends_with(
        c_path,
        ".particle".as_bytes(),
    ) || ends_with(c_path, "_particle.json".as_bytes())
}

/// Tells whether the clouds switch is on and the path is that of the
/// clouds texture.
pub fn is_clouds_texture_file(features: &Features, c_path: &[u8]) -> (r: bool)
    ensures
        r == (features.java_clouds && is_clouds_texture_path(c_path@)),
{
    if !features.java_clouds {
        return false;
    }
    contains(c_path, "textures/environment/clouds.png".as_bytes()) || contains(
        c_path,
        "/textures/environment/clouds.png".as_bytes(),
    ) || contains(c_path, "environment/clouds.png".as_bytes()) || contains(
        c_path,
        "/environment/clouds.png".as_bytes(),
    ) || contains(c_path, "clouds.png".as_bytes()) || contains(
        c_path,
        "textures/clouds.png".as_bytes(),
    ) || contains(c_path, "/textures/clouds.png".as_bytes()) || contains(
        c_path,
        "resource_packs/vanilla/textures/environment/clouds.png".as_bytes(),
    ) || contains(
        c_path,
        "assets/resource_packs/vanilla/textures/environment/clouds.png".as_bytes(),
    ) || contains(c_path, "vanilla/textures/environment/clouds.png".as_bytes())
}

/// Tells whether the path contains `dir` followed by `filename`.
fn contains_joined(c_path: &[u8], dir: &str, filename: &[u8]) -> (r: bool)
    ensures
        r == contains_seq(c_path@, dir.spec_bytes() + filename@),
{
    let pattern: Vec<u8> = join(dir.as_bytes(), filename);
    contains(c_path, pattern.as_slice())
}

/// Tells whether the path is that of the file `filename` of the default
/// skin pack.
pub fn is_skin_file_path(c_path: &[u8], filename: &[u8]) -> (r: bool)
    ensures
        r == is_skin_path(c_path@, filename@),
{
    contains_joined(c_path, "vanilla/", filename) || contains_joined(
        c_path,
        "skin_packs/vanilla/",
        filename,
    ) || contains_joined(c_path, "resource_packs/vanilla/", filename) || contains_joined(
        c_path,
        "assets/skin_packs/vanilla/",
        filename,
    )
}

/// Tells whether the classic skins are on and the path is that of the
/// Steve texture.
pub fn is_classic_skins_steve_texture_file(features: &Features, c_path: &[u8]) -> (r: bool)
    ensures
        r == (features.classic_skins && is_skin_path(c_path@, "steve.png".spec_bytes())),
{
    if !features.classic_skins {
        return false;
    }
    is_skin_file_path(c_path, "steve.png".as_bytes())
}

/// Tells whether the classic skins are on and the path is that of the Alex
/// texture.
pub fn is_classic_skins_alex_texture_file(features: &Features, c_path: &[u8]) -> (r: bool)
    ensures
        r == (features.classic_skins && is_skin_path(c_path@, "alex.png".spec_bytes())),
{
    if !features.classic_skins {
        return false;
    }
    is_skin_file_path(c_path, "alex.png".as_bytes())
}

/// Tells whether the classic skins are on and the path is that of the skin
/// catalog.
pub fn is_classic_skins_json_file(features: &Features, c_path: &[u8]) -> (r: bool)
    ensures
        r == (features.classic_skins && is_skin_path(c_path@, "skins.json".spec_bytes())),
{
    if !features.classic_skins {
        return false;
    }
    is_skin_file_path(c_path, "skins.json".as_bytes())
}

/// Tells whether the classic skins are on and the path is that of a
/// persona entry, which is then hidden.
pub fn is_persona_file_to_block(features: &Features, c_path: &[u8]) -> (r: bool)
    ensures
        r == (features.classic_skins && is_persona_path(c_path@)),
{
    if !features.classic_skins {
        return false;
    }
    contains(c_path, "persona/08_Kai_Dcast.json".as_bytes()) || contains(
        c_path,
        "persona/07_Zuri_Dcast.json".as_bytes(),
    ) || contains(c_path, "persona/06_Efe_Dcast.json".as_bytes()) || contains(
        c_path,
        "persona/05_Makena_Dcast.json".as_bytes(),
    ) || contains(c_path, "persona/04_Sunny_Dcast.json".as_bytes()) || contains(
        c_path,
        "persona/03_Ari_Dcast.json".as_bytes(),
    ) || contains(c_path, "persona/02_ Noor_Dcast.json".as_bytes())
}

} // verus!
