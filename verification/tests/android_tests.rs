use flappy_bevy::android::{DefaultAndroidPlugins, EngineFeatures, EnginePlugin};

const NOTHING: EngineFeatures = EngineFeatures {
    bevy_asset: false,
    debug_asset_server: false,
    bevy_scene: false,
    bevy_winit: false,
    bevy_render: false,
    bevy_core_pipeline: false,
    bevy_sprite: false,
    bevy_text: false,
    bevy_ui: false,
    bevy_pbr: false,
    bevy_gltf: false,
    bevy_gilrs: false,
    bevy_animation: false,
};

#[test]
fn bare_build_loads_the_core_plugins() {
    let group = DefaultAndroidPlugins.build(&NOTHING);
    assert_eq!(
        group,
        vec![
            EnginePlugin::Log,
            EnginePlugin::Core,
            EnginePlugin::Time,
            EnginePlugin::Transform,
            EnginePlugin::Hierarchy,
            EnginePlugin::Diagnostics,
            EnginePlugin::Input,
            EnginePlugin::Window,
        ]
    );
}

#[test]
fn optional_plugins_follow_in_order() {
    let mut features = NOTHING;
    features.bevy_sprite = true;
    features.bevy_asset = true;
    features.bevy_animation = true;
    features.bevy_render = true;
    let group = DefaultAndroidPlugins.build(&features);
    assert_eq!(group.len(), 12);
    assert_eq!(
        group[8..].to_vec(),
        vec![
            EnginePlugin::Asset,
            EnginePlugin::Render,
            EnginePlugin::Sprite,
            EnginePlugin::Animation,
        ]
    );
}

#[test]
fn full_build_loads_every_plugin_once() {
    let features = EngineFeatures {
        bevy_asset: true,
        debug_asset_server: true,
        bevy_scene: true,
        bevy_winit: true,
        bevy_render: true,
        bevy_core_pipeline: true,
        bevy_sprite: true,
        bevy_text: true,
        bevy_ui: true,
        bevy_pbr: true,
        bevy_gltf: true,
        bevy_gilrs: true,
        bevy_animation: true,
    };
    let group = DefaultAndroidPlugins.build(&features);
    assert_eq!(group.len(), 21);
    assert_eq!(group[8], EnginePlugin::Asset);
    assert_eq!(group[9], EnginePlugin::DebugAssetServer);
    assert_eq!(group[20], EnginePlugin::Animation);
    let mut i: usize = 0;
    while i < group.len() {
        let mut j: usize = i + 1;
        while j < group.len() {
            assert_ne!(group[i], group[j]);
            j += 1;
        }
        i += 1;
    }
}
