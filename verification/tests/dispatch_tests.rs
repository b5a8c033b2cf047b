use asset_overlay::catalog::{Payload, PayloadCatalog};
use asset_overlay::dispatch::{on_resolved, on_transcoded, open, resolve, OpenStep};
use asset_overlay::facade::{close, len, read, rem, Served};
use asset_overlay::features::Features;
use asset_overlay::location::{opt_path_join, rewrite_path, Rewrite};
use asset_overlay::registry::Registry;
use asset_overlay::replacements::{
    get_cape_animation_data, get_cape_model_data, get_java_cubemap_material_data,
    get_nightvision_material_data, get_no_fog_material_data,
};
use asset_overlay::rules::{evaluate, rule_at, Outcome, Rule, Strategy, RULE_COUNT};

const SPLASHES: &[u8] = br#"{"splashes":["One","Two","Three"]}"#;

fn catalog() -> PayloadCatalog {
    PayloadCatalog {
        splashes: SPLASHES.to_vec(),
        loading_messages: b"loading messages".to_vec(),
        clouds_texture: vec![0x89, b'P', b'N', b'G', 1],
        steve_texture: vec![0x89, b'P', b'N', b'G', 2],
        alex_texture: vec![0x89, b'P', b'N', b'G', 3],
        skin_catalog: b"skin catalog".to_vec(),
        first_person_camera: b"first person".to_vec(),
        third_person_camera: b"third person".to_vec(),
        third_person_front_camera: b"third person front".to_vec(),
        no_fog_material: b"no fog material".to_vec(),
        night_vision_material: b"night vision material".to_vec(),
        cape_animation: b"cape animation".to_vec(),
        cape_model: b"cape model".to_vec(),
        cubemap_material: b"cubemap material".to_vec(),
    }
}

fn only(set: fn(&mut Features)) -> Features {
    let mut features = Features::none();
    set(&mut features);
    features
}

fn content(registry: &Registry, id: u64) -> Option<Vec<u8>> {
    registry.lookup(id).map(|buffer| buffer.bytes().to_vec())
}

fn assert_installed(features: &Features, path: &[u8], expected: &[u8]) {
    let mut registry = Registry::new();
    let step = open(&mut registry, features, &catalog(), Some(7), path);
    assert!(matches!(step, OpenStep::Installed), "{:?}", step);
    assert_eq!(content(&registry, 7).as_deref(), Some(expected));
    assert_eq!(registry.lookup(7).unwrap().position(), 0);
}

fn assert_passed_through(features: &Features, path: &[u8]) {
    let mut registry = Registry::new();
    let step = open(&mut registry, features, &catalog(), Some(7), path);
    assert!(matches!(step, OpenStep::PassThrough), "{:?}", step);
    assert!(!registry.contains(7));
}

fn assert_blocked(features: &Features, path: &[u8]) {
    let mut registry = Registry::new();
    let step = open(&mut registry, features, &catalog(), Some(7), path);
    assert!(matches!(step, OpenStep::Blocked), "{:?}", step);
    assert!(!registry.contains(7));
}

fn assert_transcode(features: &Features, path: &[u8], expected: &[u8]) {
    let mut registry = Registry::new();
    match open(&mut registry, features, &catalog(), Some(7), path) {
        OpenStep::Transcode { bytes } => assert_eq!(bytes, expected),
        other => panic!("{:?}", other),
    }
    assert!(!registry.contains(7));
}

fn assert_resolve(features: &Features, path: &[u8], expected: &[u8], is_material: bool) {
    let mut registry = Registry::new();
    match open(&mut registry, features, &catalog(), Some(7), path) {
        OpenStep::Resolve { location, material } => {
            assert_eq!(location, expected);
            assert_eq!(material, is_material);
        }
        other => panic!("{:?}", other),
    }
    assert!(!registry.contains(7));
}

#[test]
fn catalog_get_returns_each_payload() {
    let catalog = catalog();
    assert_eq!(catalog.get(Payload::Splashes), SPLASHES);
    assert_eq!(catalog.get(Payload::LoadingMessages), b"loading messages");
    assert_eq!(catalog.get(Payload::CloudsTexture), &[0x89, b'P', b'N', b'G', 1]);
    assert_eq!(catalog.get(Payload::SteveTexture), &[0x89, b'P', b'N', b'G', 2]);
    assert_eq!(catalog.get(Payload::AlexTexture), &[0x89, b'P', b'N', b'G', 3]);
    assert_eq!(catalog.get(Payload::SkinCatalog), b"skin catalog");
    assert_eq!(catalog.get(Payload::FirstPersonCamera), b"first person");
    assert_eq!(catalog.get(Payload::ThirdPersonCamera), b"third person");
    assert_eq!(catalog.get(Payload::ThirdPersonFrontCamera), b"third person front");
    assert_eq!(catalog.get(Payload::NoFogMaterial), b"no fog material");
    assert_eq!(catalog.get(Payload::NightVisionMaterial), b"night vision material");
    assert_eq!(catalog.get(Payload::CapeAnimation), b"cape animation");
    assert_eq!(catalog.get(Payload::CapeModel), b"cape model");
    assert_eq!(catalog.get(Payload::CubemapMaterial), b"cubemap material");
}

#[test]
fn rules_stand_in_their_order() {
    let expected = [
        Rule::PersonaBlock,
        Rule::ParticlesBlock,
        Rule::Splashes,
        Rule::LoadingMessages,
        Rule::CloudsTexture,
        Rule::SteveTexture,
        Rule::AlexTexture,
        Rule::SkinCatalog,
        Rule::FirstPersonCamera,
        Rule::ThirdPersonCamera,
        Rule::ThirdPersonFrontCamera,
        Rule::NoFogMaterial,
        Rule::NightVisionMaterial,
        Rule::CapeAnimation,
        Rule::CapeModel,
        Rule::CubemapMaterial,
        Rule::InterfacePack,
        Rule::PersonaPack,
        Rule::RendererPack,
        Rule::CameraPack,
    ];
    assert_eq!(RULE_COUNT, expected.len());
    for (index, rule) in expected.iter().enumerate() {
        assert_eq!(rule_at(index), Some(*rule));
    }
    assert_eq!(rule_at(RULE_COUNT), None);
    assert_eq!(rule_at(usize::MAX), None);
}

#[test]
fn rule_strategies() {
    assert!(matches!(Rule::PersonaBlock.strategy(), Strategy::Block));
    assert!(matches!(Rule::ParticlesBlock.strategy(), Strategy::Block));
    assert!(matches!(Rule::Splashes.strategy(), Strategy::Static(Payload::Splashes)));
    assert!(matches!(Rule::NoFogMaterial.strategy(), Strategy::Static(Payload::NoFogMaterial)));
    assert!(matches!(Rule::CapeModel.strategy(), Strategy::Static(Payload::CapeModel)));
    let pairs = [
        (Rule::InterfacePack, "gui/dist/hbui/", "hbui/"),
        (Rule::PersonaPack, "skin_packs/persona/", "persona/"),
        (Rule::RendererPack, "renderer/", "renderer/"),
        (Rule::CameraPack, "resource_packs/vanilla/cameras/", "vanilla_cameras/"),
    ];
    for (rule, archive_dir, pack_dir) in pairs {
        match rule.strategy() {
            Strategy::Resolve(rewrite) => {
                assert_eq!(rewrite.archive_dir, archive_dir);
                assert_eq!(rewrite.pack_dir, pack_dir);
            }
            other => panic!("{:?}", other),
        }
    }
}

#[test]
fn material_getters_want_switch_and_file_name() {
    let catalog = catalog();
    let on = Features::all();
    let off = Features::none();
    assert_eq!(
        get_no_fog_material_data(&on, &catalog, b"RenderChunk.material.bin"),
        Some(&b"no fog material"[..])
    );
    assert_eq!(get_no_fog_material_data(&off, &catalog, b"RenderChunk.material.bin"), None);
    assert_eq!(get_no_fog_material_data(&on, &catalog, b"renderchunk.material.bin"), None);
    assert_eq!(get_no_fog_material_data(&on, &catalog, b"LegacyCubemap.material.bin"), None);
    assert_eq!(
        get_nightvision_material_data(&on, &catalog, b"RenderChunk.material.bin"),
        Some(&b"night vision material"[..])
    );
    assert_eq!(get_nightvision_material_data(&off, &catalog, b"RenderChunk.material.bin"), None);
    assert_eq!(get_nightvision_material_data(&on, &catalog, b"RenderChunk.material"), None);
    assert_eq!(
        get_java_cubemap_material_data(&on, &catalog, b"LegacyCubemap.material.bin"),
        Some(&b"cubemap material"[..])
    );
    assert_eq!(get_java_cubemap_material_data(&off, &catalog, b"LegacyCubemap.material.bin"), None);
    assert_eq!(get_java_cubemap_material_data(&on, &catalog, b"RenderChunk.material.bin"), None);
    assert_eq!(get_cape_model_data(&on, &catalog, b"mobs.json"), Some(&b"cape model"[..]));
    assert_eq!(get_cape_model_data(&off, &catalog, b"mobs.json"), None);
    assert_eq!(get_cape_model_data(&on, &catalog, b"mob.json"), None);
    assert_eq!(
        get_cape_animation_data(&on, &catalog, b"player.animation.json"),
        Some(&b"cape animation"[..])
    );
    assert_eq!(get_cape_animation_data(&off, &catalog, b"player.animation.json"), None);
    assert_eq!(get_cape_animation_data(&on, &catalog, b""), None);
}

#[test]
fn material_getters_go_by_their_own_switch_only() {
    let catalog = catalog();
    let name: &[u8] = b"RenderChunk.material.bin";
    let fog = only(|f| f.no_fog = true);
    let night = only(|f| f.night_vision = true);
    assert!(get_no_fog_material_data(&fog, &catalog, name).is_some());
    assert!(get_nightvision_material_data(&fog, &catalog, name).is_none());
    assert!(get_no_fog_material_data(&night, &catalog, name).is_none());
    assert!(get_nightvision_material_data(&night, &catalog, name).is_some());
}

#[test]
fn opt_path_join_puts_the_parts_in_a_row() {
    assert_eq!(opt_path_join(&[]), Vec::<u8>::new());
    assert_eq!(opt_path_join(&[b"hbui/"]), b"hbui/".to_vec());
    assert_eq!(opt_path_join(&[b"hbui/", b"index.html"]), b"hbui/index.html".to_vec());
    assert_eq!(opt_path_join(&[b"a", b"", b"b", b"/c"]), b"ab/c".to_vec());
    let long = vec![b'x'; 200];
    let mut expected = b"renderer/".to_vec();
    expected.extend_from_slice(&long);
    assert_eq!(opt_path_join(&[b"renderer/", &long]), expected);
}

#[test]
fn rewrite_path_moves_a_path_into_the_packs() {
    let hbui = Rewrite { archive_dir: "gui/dist/hbui/", pack_dir: "hbui/" };
    assert_eq!(
        rewrite_path(b"assets/gui/dist/hbui/index.html", &hbui),
        Some(b"hbui/index.html".to_vec())
    );
    assert_eq!(
        rewrite_path(b"gui/dist/hbui/js/app.js", &hbui),
        Some(b"hbui/js/app.js".to_vec())
    );
    assert_eq!(rewrite_path(b"assets//gui/dist//hbui/./a/", &hbui), Some(b"hbui/a".to_vec()));
    assert_eq!(rewrite_path(b"gui/dist/hbui", &hbui), Some(b"hbui/".to_vec()));
    assert_eq!(rewrite_path(b"gui/dist/hbuix/a", &hbui), None);
    assert_eq!(rewrite_path(b"assets/assets/gui/dist/hbui/a", &hbui), None);
    assert_eq!(rewrite_path(b"/gui/dist/hbui/a", &hbui), None);
    assert_eq!(rewrite_path(b"x/gui/dist/hbui/a", &hbui), None);
    assert_eq!(rewrite_path(b"", &hbui), None);
}

#[test]
fn evaluate_one_rule_at_a_time() {
    let catalog = catalog();
    let all = Features::all();
    let path: &[u8] = b"assets/skin_packs/persona/08_Kai_Dcast.json";
    assert!(matches!(evaluate(Rule::PersonaBlock, &all, &catalog, path), Outcome::Block));
    assert!(matches!(evaluate(Rule::ParticlesBlock, &all, &catalog, path), Outcome::NoMatch));
    assert!(matches!(evaluate(Rule::Splashes, &all, &catalog, path), Outcome::NoMatch));
    match evaluate(Rule::PersonaPack, &all, &catalog, path) {
        Outcome::Resolve(location) => assert_eq!(location, b"persona/08_Kai_Dcast.json"),
        other => panic!("{:?}", other),
    }
    match evaluate(Rule::Splashes, &Features::none(), &catalog, b"a/splashes.json") {
        Outcome::Replace(bytes) => assert_eq!(bytes, SPLASHES),
        other => panic!("{:?}", other),
    }
    match evaluate(Rule::NoFogMaterial, &all, &catalog, b"a/RenderChunk.material.bin") {
        Outcome::Replace(bytes) => assert_eq!(bytes, b"no fog material"),
        other => panic!("{:?}", other),
    }
    assert!(matches!(
        evaluate(Rule::NoFogMaterial, &all, &catalog, b"RenderChunk.material.bin/.."),
        Outcome::NoMatch
    ));
    assert!(matches!(
        evaluate(Rule::ParticlesBlock, &all, &catalog, b"particles/.."),
        Outcome::Block
    ));
}

#[test]
fn failed_open_is_passed_through() {
    let mut registry = Registry::new();
    let features = Features::all();
    for path in [&b"splashes.json"[..], b"particles/a.json", b"renderer/a.material.bin", b"x"] {
        let step = open(&mut registry, &features, &catalog(), None, path);
        assert!(matches!(step, OpenStep::PassThrough), "{:?}", step);
    }
    assert!(!registry.contains(0));
}

#[test]
fn path_without_file_name_is_passed_through() {
    let features = Features::all();
    for path in [&b""[..], b"/", b".", b"..", b"particles/..", b"renderer/..", b"//", b"./"] {
        assert_passed_through(&features, path);
    }
}

#[test]
fn path_that_no_rule_names_is_passed_through() {
    assert_passed_through(&Features::all(), b"assets/textures/terrain.png");
    assert_passed_through(&Features::none(), b"assets/textures/environment/clouds.png");
    assert_passed_through(
        &Features::none(),
        b"assets/resource_packs/vanilla/camera/first_person.json",
    );
}

#[test]
fn splashes_are_replaced_whatever_the_switches() {
    assert_installed(&Features::none(), b"splashes.json", SPLASHES);
    assert_installed(&Features::none(), b"assets/texts/splashes.json", SPLASHES);
    assert_installed(&Features::all(), b"assets/texts/splashes.json", SPLASHES);
    assert_installed(&only(|f| f.no_fog = true), b"splashes.json", SPLASHES);
    assert_installed(&only(|f| f.java_clouds = true), b"a/b/c/splashes.json/", SPLASHES);
    assert_passed_through(&Features::none(), b"assets/texts/splashes.jsonx");
    assert_passed_through(&Features::none(), b"assets/texts/xsplashes.json");
    assert_passed_through(&Features::none(), b"splashes.json/a");
}

#[test]
fn loading_messages_are_replaced_whatever_the_switches() {
    assert_installed(&Features::none(), b"x/loading_messages.json", b"loading messages");
    assert_installed(&Features::all(), b"loading_messages.json", b"loading messages");
}

#[test]
fn classic_steve_texture_wants_the_switch() {
    let path: &[u8] = b"assets/skin_packs/vanilla/steve.png";
    assert_passed_through(&Features::none(), path);
    let mut others = Features::all();
    others.classic_skins = false;
    assert_passed_through(&others, path);
    assert_installed(&only(|f| f.classic_skins = true), path, &[0x89, b'P', b'N', b'G', 2]);
    assert_installed(&Features::all(), path, &[0x89, b'P', b'N', b'G', 2]);
}

#[test]
fn classic_alex_texture_and_skin_catalog() {
    let on = only(|f| f.classic_skins = true);
    assert_installed(&on, b"skin_packs/vanilla/alex.png", &[0x89, b'P', b'N', b'G', 3]);
    assert_installed(&on, b"skin_packs/vanilla/skins.json", b"skin catalog");
    assert_passed_through(&Features::none(), b"skin_packs/vanilla/alex.png");
    assert_passed_through(&Features::none(), b"skin_packs/vanilla/skins.json");
}

#[test]
fn clouds_texture_wants_the_switch() {
    let path: &[u8] = b"assets/resource_packs/vanilla/textures/environment/clouds.png";
    assert_installed(&only(|f| f.java_clouds = true), path, &[0x89, b'P', b'N', b'G', 1]);
    assert_passed_through(&Features::none(), path);
}

#[test]
fn camera_presets_want_switch_directory_and_name() {
    let on = only(|f| f.no_hurt_cam = true);
    assert_installed(&on, b"vanilla/cameras/first_person.json", b"first person");
    assert_installed(&on, b"vanilla/cameras/third_person.json", b"third person");
    assert_installed(&on, b"vanilla/cameras/third_person_front.json", b"third person front");
    assert_installed(&on, b"cameras/x/first_person.json", b"first person");
    assert_passed_through(&on, b"vanilla/camera/first_person.json");
    assert_passed_through(&on, b"first_person.json");
    assert_passed_through(&on, b"vanilla/cameras/second_person.json");
    assert_passed_through(&Features::none(), b"vanilla/cameras/first_person.json");
}

#[test]
fn camera_preset_comes_before_the_camera_pack() {
    let path: &[u8] = b"assets/resource_packs/vanilla/cameras/presets/first_person.json";
    assert_installed(&only(|f| f.no_hurt_cam = true), path, b"first person");
    assert_resolve(&Features::none(), path, b"vanilla_cameras/presets/first_person.json", false);
}

#[test]
fn cape_files_are_installed_as_they_are() {
    let on = only(|f| f.cape_physics = true);
    assert_installed(&on, b"a/player.animation.json", b"cape animation");
    assert_installed(&on, b"a/mobs.json", b"cape model");
    assert_passed_through(&Features::none(), b"a/mobs.json");
    assert_passed_through(&Features::none(), b"a/player.animation.json");
}

#[test]
fn material_payloads_go_to_the_transcoder() {
    let path: &[u8] = b"materials/RenderChunk.material.bin";
    assert_transcode(&only(|f| f.no_fog = true), path, b"no fog material");
    assert_transcode(&only(|f| f.night_vision = true), path, b"night vision material");
    assert_transcode(
        &only(|f| f.java_cubemap = true),
        b"materials/LegacyCubemap.material.bin",
        b"cubemap material",
    );
    assert_passed_through(&Features::none(), path);
    assert_passed_through(&only(|f| f.java_cubemap = true), path);
}

#[test]
fn no_fog_comes_before_night_vision() {
    let mut both = Features::none();
    both.no_fog = true;
    both.night_vision = true;
    assert_transcode(&both, b"materials/RenderChunk.material.bin", b"no fog material");
}

#[test]
fn material_payload_comes_before_the_renderer_pack() {
    let path: &[u8] = b"assets/renderer/materials/RenderChunk.material.bin";
    assert_transcode(&only(|f| f.no_fog = true), path, b"no fog material");
    assert_resolve(&Features::none(), path, b"renderer/materials/RenderChunk.material.bin", true);
}

#[test]
fn hard_block_wins_over_every_later_rule() {
    let classic = only(|f| f.classic_skins = true);
    let path: &[u8] = b"assets/skin_packs/persona/08_Kai_Dcast.json";
    assert_blocked(&classic, path);
    assert_blocked(&Features::all(), path);
    assert_resolve(&Features::none(), path, b"persona/08_Kai_Dcast.json", false);
    let particles = only(|f| f.particles_disabler = true);
    assert_blocked(&particles, b"assets/particles/splashes.json");
    assert_installed(&Features::none(), b"assets/particles/splashes.json", SPLASHES);
    assert_blocked(&particles, b"assets/renderer/effects/Glow.material.bin");
    assert_blocked(&Features::all(), b"effects/loading_messages.json");
}

#[test]
fn blocked_open_leaves_other_handles_alone() {
    let mut registry = Registry::new();
    let features = Features::all();
    assert!(matches!(
        open(&mut registry, &features, &catalog(), Some(1), b"splashes.json"),
        OpenStep::Installed
    ));
    assert!(matches!(
        open(&mut registry, &features, &catalog(), Some(2), b"particles/a.json"),
        OpenStep::Blocked
    ));
    assert!(registry.contains(1));
    assert!(!registry.contains(2));
    assert_eq!(content(&registry, 1).as_deref(), Some(SPLASHES));
}

#[test]
fn pack_rules_rewrite_the_path() {
    let none = Features::none();
    assert_resolve(&none, b"assets/gui/dist/hbui/index.html", b"hbui/index.html", false);
    assert_resolve(&none, b"gui/dist/hbui/index.html", b"hbui/index.html", false);
    assert_resolve(&none, b"assets/skin_packs/persona/a/b.json", b"persona/a/b.json", false);
    assert_resolve(
        &none,
        b"assets/renderer/materials/Sky.material.bin",
        b"renderer/materials/Sky.material.bin",
        true,
    );
    assert_resolve(&none, b"renderer/shader.glsl", b"renderer/shader.glsl", false);
    assert_resolve(
        &none,
        b"assets/resource_packs/vanilla/cameras/a.json",
        b"vanilla_cameras/a.json",
        false,
    );
    assert_resolve(&none, b"assets//renderer/./x.material.bin/", b"renderer/x.material.bin", true);
    assert_resolve(&none, b"renderer", b"renderer/", false);
    assert_passed_through(&none, b"assets/renderers/x");
    assert_passed_through(&none, b"/renderer/x");
    assert_passed_through(&none, b"x/renderer/x");
}

#[test]
fn resolver_miss_leaves_the_handle_to_the_archive() {
    let mut registry = Registry::new();
    let path: &[u8] = b"assets/gui/dist/hbui/a.js";
    let step = open(&mut registry, &Features::none(), &catalog(), Some(7), path);
    let material = match step {
        OpenStep::Resolve { location, material } => {
            assert_eq!(location, b"hbui/a.js");
            material
        }
        other => panic!("{:?}", other),
    };
    let step = on_resolved(&mut registry, 7, material, None);
    assert!(matches!(step, OpenStep::PassThrough));
    assert!(!registry.contains(7));
    assert!(matches!(len(&registry, 7), Served::PassThrough));
}

#[test]
fn resolved_bytes_are_installed() {
    let mut registry = Registry::new();
    let step = on_resolved(&mut registry, 7, false, Some(b"from the packs".to_vec()));
    assert!(matches!(step, OpenStep::Installed));
    assert_eq!(content(&registry, 7).as_deref(), Some(&b"from the packs"[..]));
    assert_eq!(registry.lookup(7).unwrap().position(), 0);
    let step = on_resolved(&mut registry, 8, false, Some(Vec::new()));
    assert!(matches!(step, OpenStep::Installed));
    assert_eq!(content(&registry, 8).as_deref(), Some(&b""[..]));
}

#[test]
fn resolved_material_goes_to_the_transcoder_first() {
    let mut registry = Registry::new();
    match on_resolved(&mut registry, 7, true, Some(b"material".to_vec())) {
        OpenStep::Transcode { bytes } => assert_eq!(bytes, b"material"),
        other => panic!("{:?}", other),
    }
    assert!(!registry.contains(7));
    assert!(matches!(on_resolved(&mut registry, 7, true, None), OpenStep::PassThrough));
    assert!(!registry.contains(7));
}

#[test]
fn transcoded_bytes_take_the_place_of_the_given_ones() {
    let mut registry = Registry::new();
    let step = on_transcoded(&mut registry, 7, b"old".to_vec(), Some(b"new bytes".to_vec()));
    assert!(matches!(step, OpenStep::Installed));
    assert_eq!(content(&registry, 7).as_deref(), Some(&b"new bytes"[..]));
}

#[test]
fn given_bytes_stay_where_the_transcoder_made_nothing() {
    let mut registry = Registry::new();
    let step = on_transcoded(&mut registry, 7, b"old".to_vec(), None);
    assert!(matches!(step, OpenStep::Installed));
    assert_eq!(content(&registry, 7).as_deref(), Some(&b"old"[..]));
}

#[test]
fn resolve_reads_an_empty_answer_as_a_miss() {
    assert_eq!(resolve(None), None);
    assert_eq!(resolve(Some(Vec::new())), None);
    assert_eq!(resolve(Some(vec![0])), Some(vec![0]));
    assert_eq!(resolve(Some(b"abc".to_vec())), Some(b"abc".to_vec()));
}

#[test]
fn whole_open_of_a_material_from_the_packs() {
    let mut registry = Registry::new();
    let path: &[u8] = b"assets/renderer/materials/Sky.material.bin";
    let step = open(&mut registry, &Features::none(), &catalog(), Some(11), path);
    let (location, material) = match step {
        OpenStep::Resolve { location, material } => (location, material),
        other => panic!("{:?}", other),
    };
    assert_eq!(location, b"renderer/materials/Sky.material.bin");
    let found = resolve(Some(b"sky in version one".to_vec()));
    let given = match on_resolved(&mut registry, 11, material, found) {
        OpenStep::Transcode { bytes } => bytes,
        other => panic!("{:?}", other),
    };
    let step = on_transcoded(&mut registry, 11, given, Some(b"sky in version two".to_vec()));
    assert!(matches!(step, OpenStep::Installed));
    assert!(matches!(len(&registry, 11), Served::Virtual(18)));
    let mut dst = [0u8; 32];
    assert!(matches!(read(&mut registry, 11, &mut dst), Served::Virtual(18)));
    assert_eq!(&dst[..18], b"sky in version two");
    assert!(matches!(rem(&registry, 11), Served::Virtual(0)));
    assert!(matches!(close(&mut registry, 11), Served::Virtual(())));
    assert!(!registry.contains(11));
}

#[test]
fn only_matching_rule_installs_its_payload() {
    let cases: [(fn(&mut Features), &[u8], &[u8]); 6] = [
        (
            |f| f.java_clouds = true,
            b"textures/environment/clouds.png",
            &[0x89, b'P', b'N', b'G', 1],
        ),
        (|f| f.classic_skins = true, b"skin_packs/vanilla/steve.png", &[0x89, b'P', b'N', b'G', 2]),
        (|f| f.classic_skins = true, b"skin_packs/vanilla/alex.png", &[0x89, b'P', b'N', b'G', 3]),
        (|f| f.no_hurt_cam = true, b"x/cameras/third_person.json", b"third person"),
        (|f| f.cape_physics = true, b"x/mobs.json", b"cape model"),
        (|f| f.cape_physics = true, b"x/player.animation.json", b"cape animation"),
    ];
    for (set, path, payload) in cases {
        assert_installed(&only(set), path, payload);
    }
}
