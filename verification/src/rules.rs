//! The replacement rules and their order.
//!
//! A rule pairs a condition on the path and the feature switches with what
//! is to be done where it holds: hide the asset, put a payload of the
//! catalog in its place, or look its content up in the resource packs. The
//! rules are tried in one fixed order, and the first that applies decides.

use crate::bytes::{contains, equal, mentions};
use crate::catalog::{Payload, PayloadCatalog};
use crate::features::Features;
use crate::location::{rewrite_path, rewritten, Rewrite};
use crate::path::{file_name, spec_file_name};
use crate::predicates::{
    is_classic_skins_alex_texture_file, is_classic_skins_json_file,
    is_classic_skins_steve_texture_file, is_clouds_texture_file, is_clouds_texture_path,
    is_particle_path, is_particles_folder_to_block, is_persona_file_to_block, is_persona_path,
    is_skin_path,
};
use crate::replacements::{
    get_cape_animation_data, get_cape_model_data, get_java_cubemap_material_data,
    get_nightvision_material_data, get_no_fog_material_data, wants_cape_animation,
    wants_cape_model, wants_java_cubemap_material, wants_nightvision_material,
    wants_no_fog_material,
};
use vstd::prelude::*;
use vstd::string::*;

verus! {

/// The rules, named by what they act on.
#[derive(Clone, Copy, Debug, PartialEq, Eq, Structural)]
pub enum Rule {
    /// Hide the persona entries.
    PersonaBlock,
    /// Hide the particle and effect files.
    ParticlesBlock,
    /// Replace the splash texts.
    Splashes,
    /// Replace the loading messages.
    LoadingMessages,
    /// Replace the clouds texture.
    CloudsTexture,
    /// Replace the Steve texture.
    SteveTexture,
    /// Replace the Alex texture.
    AlexTexture,
    /// Replace the skin catalog.
    SkinCatalog,
    /// Replace the first-person camera preset.
    FirstPersonCamera,
    /// Replace the third-person camera preset.
    ThirdPersonCamera,
    /// Replace the third-person front camera preset.
    ThirdPersonFrontCamera,
    /// Replace the chunk material by the one without fog.
    NoFogMaterial,
    /// Replace the chunk material by the one for night vision.
    NightVisionMaterial,
    /// Replace the player animation.
    CapeAnimation,
    /// Replace the player model.
    CapeModel,
    /// Replace the sky material.
    CubemapMaterial,
    /// Take the interface files from the resource packs.
    InterfacePack,
    /// Take the persona files from the resource packs.
    PersonaPack,
    /// Take the renderer files from the resource packs.
    RendererPack,
    /// Take the camera presets from the resource packs.
    CameraPack,
}

/// How many rules there are.
pub const RULE_COUNT: usize = 20;

/// The rules in the order in which they are tried.
pub open spec fn rule_order() -> Seq<Rule> {
    seq![
        Rule::PersonaBlock,
        Rule::ParticlesBlock,
        Rule::Splashes,
        Rule::LoadingMessages,
        Rule::CloudsTexture,
        Rule::SteveTexture,
        Rule::AlexTexture,
        Rule::SkinCatalog,
        Rule::FirstPersonCamera,
        Rule::ThirdPersonCamera,
        Rule::ThirdPersonFrontCamera,
        Rule::NoFogMaterial,
        Rule::NightVisionMaterial,
        Rule::CapeAnimation,
        Rule::CapeModel,
        Rule::CubemapMaterial,
        Rule::InterfacePack,
        Rule::PersonaPack,
        Rule::RendererPack,
        Rule::CameraPack,
    ]
}

/// The place of a rule in the order: the lower, the earlier it is tried.
pub open spec fn priority(rule: Rule) -> int {
    match rule {
        Rule::PersonaBlock => 0,
        Rule::ParticlesBlock => 1,
        Rule::Splashes => 2,
        Rule::LoadingMessages => 3,
        Rule::CloudsTexture => 4,
        Rule::SteveTexture => 5,
        Rule::AlexTexture => 6,
        Rule::SkinCatalog => 7,
        Rule::FirstPersonCamera => 8,
        Rule::ThirdPersonCamera => 9,
        Rule::ThirdPersonFrontCamera => 10,
        Rule::NoFogMaterial => 11,
        Rule::NightVisionMaterial => 12,
        Rule::CapeAnimation => 13,
        Rule::CapeModel => 14,
        Rule::CubemapMaterial => 15,
        Rule::InterfacePack => 16,
        Rule::PersonaPack => 17,
        Rule::RendererPack => 18,
        Rule::CameraPack => 19,
    }
}

/// Every rule stands in the order, once, at its priority.
pub proof fn lemma_rule_order()
    ensures
        rule_order().len() == RULE_COUNT,
        forall|rule: Rule|
            0 <= #[trigger] priority(rule) < RULE_COUNT && rule_order()[priority(rule)] == rule,
        forall|index: int|
            0 <= index < RULE_COUNT ==> priority(#[trigger] rule_order()[index]) == index,
{
    let order = rule_order();
    assert(order.len() == 20);
    assert(order[0] == Rule::PersonaBlock);
    assert(order[1] == Rule::ParticlesBlock);
    assert(order[2] == Rule::Splashes);
    assert(order[3] == Rule::LoadingMessages);
    assert(order[4] == Rule::CloudsTexture);
    assert(order[5] == Rule::SteveTexture);
    assert(order[6] == Rule::AlexTexture);
    assert(order[7] == Rule::SkinCatalog);
    assert(order[8] == Rule::FirstPersonCamera);
    assert(order[9] == Rule::ThirdPersonCamera);
    assert(order[10] == Rule::ThirdPersonFrontCamera);
    assert(order[11] == Rule::NoFogMaterial);
    assert(order[12] == Rule::NightVisionMaterial);
    assert(order[13] == Rule::CapeAnimation);
    assert(order[14] == Rule::CapeModel);
    assert(order[15] == Rule::CubemapMaterial);
    assert(order[16] == Rule::InterfacePack);
    assert(order[17] == Rule::PersonaPack);
    assert(order[18] == Rule::RendererPack);
    assert(order[19] == Rule::CameraPack);
}

/// The rule at place `index` of the order, if the order is that long.
pub fn rule_at(index: usize) -> (r: Option<Rule>)
    ensures
        r is Some <==> index < RULE_COUNT,
        r matches Some(rule) ==> rule == rule_order()[index as int],
{
    proof {
        lemma_rule_order();
    }
    match index {
        0 => Some(Rule::PersonaBlock),
        1 => Some(Rule::ParticlesBlock),
        2 => Some(Rule::Splashes),
        3 => Some(Rule::LoadingMessages),
        4 => Some(Rule::CloudsTexture),
        5 => Some(Rule::SteveTexture),
        6 => Some(Rule::AlexTexture),
        7 => Some(Rule::SkinCatalog),
        8 => Some(Rule::FirstPersonCamera),
        9 => Some(Rule::ThirdPersonCamera),
        10 => Some(Rule::ThirdPersonFrontCamera),
        11 => Some(Rule::NoFogMaterial),
        12 => Some(Rule::NightVisionMaterial),
        13 => Some(Rule::CapeAnimation),
        14 => Some(Rule::CapeModel),
        15 => Some(Rule::CubemapMaterial),
        16 => Some(Rule::InterfacePack),
        17 => Some(Rule::PersonaPack),
        18 => Some(Rule::RendererPack),
        19 => Some(Rule::CameraPack),
        _ => None,
    }
}

/// What a rule does where it applies.
#[derive(Clone, Copy, Debug)]
pub enum Strategy {
    /// The asset is hidden: the open fails.
    Block,
    /// The payload of the catalog takes the place of the asset.
    Static(Payload),
    /// What the resource packs hold under the rewritten path takes the
    /// place of the asset.
    Resolve(Rewrite),
}

/// What `rule` does where it applies.
pub open spec fn strategy(rule: Rule) -> Strategy {
    match rule {
        Rule::PersonaBlock => Strategy::Block,
        Rule::ParticlesBlock => Strategy::Block,
        Rule::Splashes => Strategy::Static(Payload::Splashes),
        Rule::LoadingMessages => Strategy::Static(Payload::LoadingMessages),
        Rule::CloudsTexture => Strategy::Static(Payload::CloudsTexture),
        Rule::SteveTexture => Strategy::Static(Payload::SteveTexture),
        Rule::AlexTexture => Strategy::Static(Payload::AlexTexture),
        Rule::SkinCatalog => Strategy::Static(Payload::SkinCatalog),
        Rule::FirstPersonCamera => Strategy::Static(Payload::FirstPersonCamera),
        Rule::ThirdPersonCamera => Strategy::Static(Payload::ThirdPersonCamera),
        Rule::ThirdPersonFrontCamera => Strategy::Static(Payload::ThirdPersonFrontCamera),
        Rule::NoFogMaterial => Strategy::Static(Payload::NoFogMaterial),
        Rule::NightVisionMaterial => Strategy::Static(Payload::NightVisionMaterial),
        Rule::CapeAnimation => Strategy::Static(Payload::CapeAnimation),
        Rule::CapeModel => Strategy::Static(Payload::CapeModel),
        Rule::CubemapMaterial => Strategy::Static(Payload::CubemapMaterial),
        Rule::InterfacePack => Strategy::Resolve(
            Rewrite { archive_dir: "gui/dist/hbui/", pack_dir: "hbui/" },
        ),
        Rule::PersonaPack => Strategy::Resolve(
            Rewrite { archive_dir: "skin_packs/persona/", pack_dir: "persona/" },
        ),
        Rule::RendererPack => Strategy::Resolve(
            Rewrite { archive_dir: "renderer/", pack_dir: "renderer/" },
        ),
        Rule::CameraPack => Strategy::Resolve(
            Rewrite {
                archive_dir: "resource_packs/vanilla/cameras/",
                pack_dir: "vanilla_cameras/",
            },
        ),
    }
}

impl Rule {
    /// What the rule does where it applies.
    pub fn strategy(self) -> (r: Strategy)
        ensures
            r == strategy(self),
    {
        match self {
            Rule::PersonaBlock => Strategy::Block,
            Rule::ParticlesBlock => Strategy::Block,
            Rule::Splashes => Strategy::Static(Payload::Splashes),
            Rule::LoadingMessages => Strategy::Static(Payload::LoadingMessages),
            Rule::CloudsTexture => Strategy::Static(Payload::CloudsTexture),
            Rule::SteveTexture => Strategy::Static(Payload::SteveTexture),
            Rule::AlexTexture => Strategy::Static(Payload::AlexTexture),
            Rule::SkinCatalog => Strategy::Static(Payload::SkinCatalog),
            Rule::FirstPersonCamera => Strategy::Static(Payload::FirstPersonCamera),
            Rule::ThirdPersonCamera => Strategy::Static(Payload::ThirdPersonCamera),
            Rule::ThirdPersonFrontCamera => Strategy::Static(Payload::ThirdPersonFrontCamera),
            Rule::NoFogMaterial => Strategy::Static(Payload::NoFogMaterial),
            Rule::NightVisionMaterial => Strategy::Static(Payload::NightVisionMaterial),
            Rule::CapeAnimation => Strategy::Static(Payload::CapeAnimation),
            Rule::CapeModel => Strategy::Static(Payload::CapeModel),
            Rule::CubemapMaterial => Strategy::Static(Payload::CubemapMaterial),
            Rule::InterfacePack => Strategy::Resolve(
                Rewrite { archive_dir: "gui/dist/hbui/", pack_dir: "hbui/" },
            ),
            Rule::PersonaPack => Strategy::Resolve(
                Rewrite { archive_dir: "skin_packs/persona/", pack_dir: "persona/" },
            ),
            Rule::RendererPack => Strategy::Resolve(
                Rewrite { archive_dir: "renderer/", pack_dir: "renderer/" },
            ),
            Rule::CameraPack => Strategy::Resolve(
                Rewrite {
                    archive_dir: "resource_packs/vanilla/cameras/",
                    pack_dir: "vanilla_cameras/",
                },
            ),
        }
    }
}

/// The file name of the path is `text`.
pub open spec fn file_is(path: Seq<u8>, text: &str) -> bool {
    spec_file_name(path) == Some(text.spec_bytes())
}

/// The condition of `rule`.
pub open spec fn applies(rule: Rule, features: Features, path: Seq<u8>) -> bool {
    match rule {
        Rule::PersonaBlock => features.classic_skins && is_persona_path(path),
        Rule::ParticlesBlock => features.particles_disabler && is_particle_path(path),
        Rule::Splashes => file_is(path, "splashes.json"),
        Rule::LoadingMessages => file_is(path, "loading_messages.json"),
        Rule::CloudsTexture => features.java_clouds && is_clouds_texture_path(path),
        Rule::SteveTexture => features.classic_skins && is_skin_path(
            path,
            "steve.png".spec_bytes(),
        ),
        Rule::AlexTexture => features.classic_skins && is_skin_path(
            path,
            "alex.png".spec_bytes(),
        ),
        Rule::SkinCatalog => features.classic_skins && is_skin_path(
            path,
            "skins.json".spec_bytes(),
        ),
        Rule::FirstPersonCamera => features.no_hurt_cam && mentions(path, "cameras/") && file_is(
            path,
            "first_person.json",
        ),
        Rule::ThirdPersonCamera => features.no_hurt_cam && mentions(path, "cameras/") && file_is(
            path,
            "third_person.json",
        ),
        Rule::ThirdPersonFrontCamera => features.no_hurt_cam && mentions(path, "cameras/")
            && file_is(path, "third_person_front.json"),
        Rule::NoFogMaterial => spec_file_name(path) matches Some(name) && wants_no_fog_material(
            features,
            name,
        ),
        Rule::NightVisionMaterial => spec_file_name(path) matches Some(name)
            && wants_nightvision_material(features, name),
        Rule::CapeAnimation => spec_file_name(path) matches Some(name) && wants_cape_animation(
            features,
            name,
        ),
        Rule::CapeModel => spec_file_name(path) matches Some(name) && wants_cape_model(
            features,
            name,
        ),
        Rule::CubemapMaterial => spec_file_name(path) matches Some(name)
            && wants_java_cubemap_material(features, name),
        Rule::InterfacePack | Rule::PersonaPack | Rule::RendererPack | Rule::CameraPack => {
            strategy(rule) matches Strategy::Resolve(rewrite) && rewritten(path, rewrite) is Some
        },
    }
}

/// What trying one rule on one path gives.
#[derive(Debug)]
pub enum Outcome<'a> {
    /// The rule does not apply.
    NoMatch,
    /// The rule applies, and the asset is to be hidden.
    Block,
    /// The rule applies, and these bytes of the catalog are to take the
    /// place of the asset.
    Replace(&'a [u8]),
    /// The rule applies, and the resource packs are to be asked for what
    /// they hold at this location.
    Resolve(Vec<u8>),
}

/// `result` is what trying `rule` on `path` has to give.
pub open spec fn is_outcome_of(
    result: Outcome,
    rule: Rule,
    features: Features,
    catalog: PayloadCatalog,
    path: Seq<u8>,
) -> bool {
    if applies(rule, features, path) {
        match strategy(rule) {
            Strategy::Block => result is Block,
            Strategy::Static(target) => result matches Outcome::Replace(bytes) && bytes@
                == catalog.bytes_of(target),
            Strategy::Resolve(rewrite) => result matches Outcome::Resolve(location) && Some(
                location@,
            ) == rewritten(path, rewrite),
        }
    } else {
        result is NoMatch
    }
}

/// Tells whether `name` is there and is `text`.
fn name_is(name: Option<&[u8]>, text: &str) -> (r: bool)
    ensures
        r == (name matches Some(bytes) && bytes@ == text.spec_bytes()),
{
    match name {
        Some(bytes) => equal(bytes, text.as_bytes()),
        None => false,
    }
}

/// The static outcome: `bytes` where `holds`, no match where not.
fn replace_if<'a>(holds: bool, catalog: &'a PayloadCatalog, target: Payload) -> (r: Outcome<'a>)
    ensures
        holds ==> (r matches Outcome::Replace(bytes) && bytes@ == catalog.bytes_of(target)),
        !holds ==> r is NoMatch,
{
    if holds {
        Outcome::Replace(catalog.get(target))
    } else {
        Outcome::NoMatch
    }
}

/// The static outcome: the bytes that were found, no match where none
/// were.
fn replace_with<'a>(found: Option<&'a [u8]>) -> (r: Outcome<'a>)
    ensures
        match found {
            Some(bytes) => r == Outcome::Replace(bytes),
            None => r is NoMatch,
        },
{
    match found {
        Some(bytes) => Outcome::Replace(bytes),
        None => Outcome::NoMatch,
    }
}

/// Tries `rule` on `path`, whose file name is `name`.
pub(crate) fn evaluate_named<'a>(
    rule: Rule,
    features: &Features,
    catalog: &'a PayloadCatalog,
    path: &[u8],
    name: Option<&[u8]>,
) -> (r: Outcome<'a>)
    requires
        match name {
            Some(bytes) => spec_file_name(path@) == Some(bytes@),
            None => spec_file_name(path@) is None,
        },
    ensures
        is_outcome_of(r, rule, *features, *catalog, path@),
{
    match rule {
        Rule::PersonaBlock => if is_persona_file_to_block(features, path) {
            Outcome::Block
        } else {
            Outcome::NoMatch
        },
        Rule::ParticlesBlock => if is_particles_folder_to_block(features, path) {
            Outcome::Block
        } else {
            Outcome::NoMatch
        },
        Rule::Splashes => replace_if(name_is(name, "splashes.json"), catalog, Payload::Splashes),
        Rule::LoadingMessages => replace_if(
            name_is(name, "loading_messages.json"),
            catalog,
            Payload::LoadingMessages,
        ),
        Rule::CloudsTexture => replace_if(
            is_clouds_texture_file(features, path),
            catalog,
            Payload::CloudsTexture,
        ),
        Rule::SteveTexture => replace_if(
            is_classic_skins_steve_texture_file(features, path),
            catalog,
            Payload::SteveTexture,
        ),
        Rule::AlexTexture => replace_if(
            is_classic_skins_alex_texture_file(features, path),
            catalog,
            Payload::AlexTexture,
        ),
        Rule::SkinCatalog => replace_if(
            is_classic_skins_json_file(features, path),
            catalog,
            Payload::SkinCatalog,
        ),
        Rule::FirstPersonCamera => replace_if(
            features.no_hurt_cam && contains(path, "cameras/".as_bytes()) && name_is(
                name,
                "first_person.json",
            ),
            catalog,
            Payload::FirstPersonCamera,
        ),
        Rule::ThirdPersonCamera => replace_if(
            features.no_hurt_cam && contains(path, "cameras/".as_bytes()) && name_is(
                name,
                "third_person.json",
            ),
            catalog,
            Payload::ThirdPersonCamera,
        ),
        Rule::ThirdPersonFrontCamera => replace_if(
            features.no_hurt_cam && contains(path, "cameras/".as_bytes()) && name_is(
                name,
                "third_person_front.json",
            ),
            catalog,
            Payload::ThirdPersonFrontCamera,
        ),
        Rule::NoFogMaterial => match name {
            Some(filename) => replace_with(get_no_fog_material_data(features, catalog, filename)),
            None => Outcome::NoMatch,
        },
        Rule::NightVisionMaterial => match name {
            Some(filename) => replace_with(
                get_nightvision_material_data(features, catalog, filename),
            ),
            None => Outcome::NoMatch,
        },
        Rule::CapeAnimation => match name {
            Some(filename) => replace_with(get_cape_animation_data(features, catalog, filename)),
            None => Outcome::NoMatch,
        },
        Rule::CapeModel => match name {
            Some(filename) => replace_with(get_cape_model_data(features, catalog, filename)),
            None => Outcome::NoMatch,
        },
        Rule::CubemapMaterial => match name {
            Some(filename) => replace_with(
                get_java_cubemap_material_data(features, catalog, filename),
            ),
            None => Outcome::NoMatch,
        },
        Rule::InterfacePack | Rule::PersonaPack | Rule::RendererPack | Rule::CameraPack => {
            match rule.strategy() {
                Strategy::Resolve(rewrite) => match rewrite_path(path, &rewrite) {
                    Some(location) => Outcome::Resolve(location),
                    None => Outcome::NoMatch,
                },
                _ => Outcome::NoMatch,
            }
        },
    }
}

/// Tries `rule` on `path`.
pub fn evaluate<'a>(
    rule: Rule,
    features: &Features,
    catalog: &'a PayloadCatalog,
    path: &[u8],
) -> (r: Outcome<'a>)
    ensures
        is_outcome_of(r, rule, *features, *catalog, path@),
{
    evaluate_named(rule, features, catalog, path, file_name(path))
}

/// The first rule of the order from place `from` on that applies.
pub open spec fn first_applicable_from(features: Features, path: Seq<u8>, from: int) -> Option<
    Rule,
>
    decreases rule_order().len() - from,
{
    if from < 0 || from >= rule_order().len() {
        None
    } else if applies(rule_order()[from], features, path) {
        Some(rule_order()[from])
    } else {
        first_applicable_from(features, path, from + 1)
    }
}

/// The rule that decides: the first of the order that applies.
pub open spec fn first_applicable(features: Features, path: Seq<u8>) -> Option<Rule> {
    first_applicable_from(features, path, 0)
}

/// The rule that decides applies, and no rule before it in the order does;
/// where no rule decides, none applies.
pub proof fn lemma_first_applicable(features: Features, path: Seq<u8>)
    ensures
        match first_applicable(features, path) {
            Some(rule) => {
                &&& applies(rule, features, path)
                &&& forall|other: Rule|
                    applies(other, features, path) ==> priority(rule) <= #[trigger] priority(other)
            },
            None => forall|other: Rule| !#[trigger] applies(other, features, path),
        },
{
    lemma_rule_order();
    lemma_first_applicable_from(features, path, 0);
    assert forall|other: Rule| #[trigger] applies(other, features, path) implies match first_applicable(
        features,
        path,
    ) {
        Some(rule) => priority(rule) <= priority(other),
        None => false,
    } by {
        assert(rule_order()[priority(other)] == other);
    }
}

/// The first rule from place `from` on that applies stands at or behind
/// `from`, and no place between the two holds a rule that applies.
proof fn lemma_first_applicable_from(features: Features, path: Seq<u8>, from: int)
    requires
        0 <= from <= rule_order().len(),
    ensures
        match first_applicable_from(features, path, from) {
            Some(rule) => {
                &&& applies(rule, features, path)
                &&& from <= priority(rule)
                &&& forall|index: int|
                    from <= index < priority(rule) ==> !applies(
                        #[trigger] rule_order()[index],
                        features,
                        path,
                    )
            },
            None => forall|index: int|
                from <= index < rule_order().len() ==> !applies(
                    #[trigger] rule_order()[index],
                    features,
                    path,
                ),
        },
    decreases rule_order().len() - from,
{
    lemma_rule_order();
    if from < rule_order().len() && !applies(rule_order()[from], features, path) {
        lemma_first_applicable_from(features, path, from + 1);
    }
}

} // verus!
