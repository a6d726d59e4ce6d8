//! The engine plugins of a build for a handheld device, where the engine's
//! stock group cannot be used whole.

use vstd::prelude::*;

verus! {

/// A plugin of the engine.
#[derive(PartialEq, Eq, Clone, Copy, Debug, Structural)]
pub enum EnginePlugin {
    Log,
    Core,
    Time,
    Transform,
    Hierarchy,
    Diagnostics,
    Input,
    Window,
    Asset,
    DebugAssetServer,
    Scene,
    Winit,
    Render,
    CorePipeline,
    Sprite,
    Text,
    Ui,
    Pbr,
    Gltf,
    Gilrs,
    Animation,
}

/// The optional parts of the engine that a build has switched on.
#[derive(PartialEq, Eq, Clone, Copy, Debug, Structural)]
pub struct EngineFeatures {
    pub bevy_asset: bool,
    pub debug_asset_server: bool,
    pub bevy_scene: bool,
    pub bevy_winit: bool,
    pub bevy_render: bool,
    pub bevy_core_pipeline: bool,
    pub bevy_sprite: bool,
    pub bevy_text: bool,
    pub bevy_ui: bool,
    pub bevy_pbr: bool,
    pub bevy_gltf: bool,
    pub bevy_gilrs: bool,
    pub bevy_animation: bool,
}

/// The plugin, where `enabled`, and nothing else.
pub open spec fn optional(enabled: bool, plugin: EnginePlugin) -> Seq<EnginePlugin> {
    if enabled {
        seq![plugin]
    } else {
        Seq::empty()
    }
}

/// The plugins that every build loads, in their order.
pub open spec fn core_plugins() -> Seq<EnginePlugin> {
    seq![
        EnginePlugin::Log,
        EnginePlugin::Core,
        EnginePlugin::Time,
        EnginePlugin::Transform,
        EnginePlugin::Hierarchy,
        EnginePlugin::Diagnostics,
        EnginePlugin::Input,
        EnginePlugin::Window,
    ]
}

/// The plugins of a build with the given features, in the order in which
/// they are added: those of every build, then each optional one that is
/// switched on.
pub open spec fn plugin_list(features: EngineFeatures) -> Seq<EnginePlugin> {
    core_plugins() + optional(features.bevy_asset, EnginePlugin::Asset) + optional(
        features.debug_asset_server,
        EnginePlugin::DebugAssetServer,
    ) + optional(features.bevy_scene, EnginePlugin::Scene) + optional(
        features.bevy_winit,
        EnginePlugin::Winit,
    ) + optional(features.bevy_render, EnginePlugin::Render) + optional(
        features.bevy_core_pipeline,
        EnginePlugin::CorePipeline,
    ) + optional(features.bevy_sprite, EnginePlugin::Sprite) + optional(
        features.bevy_text,
        EnginePlugin::Text,
    ) + optional(features.bevy_ui, EnginePlugin::Ui) + optional(
        features.bevy_pbr,
        EnginePlugin::Pbr,
    ) + optional(features.bevy_gltf, EnginePlugin::Gltf) + optional(
        features.bevy_gilrs,
        EnginePlugin::Gilrs,
    ) + optional(features.bevy_animation, EnginePlugin::Animation)
}

/// The group of engine plugins for a handheld device.
#[derive(PartialEq, Eq, Clone, Copy, Debug, Structural)]
pub struct DefaultAndroidPlugins;

fn add_if(group: &mut Vec<EnginePlugin>, enabled: bool, plugin: EnginePlugin)
    ensures
        final(group)@ == old(group)@ + optional(enabled, plugin),
{
    if enabled {
        group.push(plugin);
        assert(group@ =~= old(group)@ + optional(enabled, plugin));
    } else {
        assert(group@ =~= old(group)@ + optional(enabled, plugin));
    }
}

impl DefaultAndroidPlugins {
    /// The plugins of the group for a build with the given features, in
    /// the order in which they are to be added.
    pub fn build(&self, features: &EngineFeatures) -> (group: Vec<EnginePlugin>)
        ensures
            group@ == plugin_list(*features),
    {
        let mut group: Vec<EnginePlugin> = Vec::new();
        group.push(EnginePlugin::Log);
        group.push(EnginePlugin::Core);
        group.push(EnginePlugin::Time);
        group.push(EnginePlugin::Transform);
        group.push(EnginePlugin::Hierarchy);
        group.push(EnginePlugin::Diagnostics);
        group.push(EnginePlugin::Input);
        group.push(EnginePlugin::Window);
        assert(group@ =~= core_plugins());
        add_if(&mut group, features.bevy_asset, EnginePlugin::Asset);
        add_if(&mut group, features.debug_asset_server, EnginePlugin::DebugAssetServer);
        add_if(&mut group, features.bevy_scene, EnginePlugin::Scene);
        add_if(&mut group, features.bevy_winit, EnginePlugin::Winit);
        add_if(&mut group, features.bevy_render, EnginePlugin::Render);
        add_if(&mut group, features.bevy_core_pipeline, EnginePlugin::CorePipeline);
        add_if(&mut group, features.bevy_sprite, EnginePlugin::Sprite);
        add_if(&mut group, features.bevy_text, EnginePlugin::Text);
        add_if(&mut group, features.bevy_ui, EnginePlugin::Ui);
        add_if(&mut group, features.bevy_pbr, EnginePlugin::Pbr);
        add_if(&mut group, features.bevy_gltf, EnginePlugin::Gltf);
        add_if(&mut group, features.bevy_gilrs, EnginePlugin::Gilrs);
        add_if(&mut group, features.bevy_animation, EnginePlugin::Animation);
        group
    }
}

} // verus!
