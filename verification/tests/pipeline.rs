use plane_cut::pipeline::{binding_slot, plugin, FIRST_EXTENSION_SLOT};
use plane_cut::{
    AlreadyRegistered, ExtensionKind, Face, NPlaneCutExt, PlaneCutExt, PlaneCutPlugin,
    PrimitiveState, Registry,
};

#[test]
fn binding_slots_are_100_and_101() {
    assert_eq!(binding_slot(ExtensionKind::PlaneCut), 100);
    assert_eq!(binding_slot(ExtensionKind::NPlaneCut), 101);
    assert_eq!(FIRST_EXTENSION_SLOT, 100);
}

#[test]
fn plugin_registers_once() {
    let mut registry = Registry::new();
    assert!(!registry.is_registered(ExtensionKind::PlaneCut));
    assert_eq!(PlaneCutPlugin.build(&mut registry), Ok(100));
    assert!(registry.is_registered(ExtensionKind::PlaneCut));
    assert!(!registry.is_registered(ExtensionKind::NPlaneCut));
    assert_eq!(
        PlaneCutPlugin.build(&mut registry),
        Err(AlreadyRegistered { kind: ExtensionKind::PlaneCut })
    );
    assert!(registry.is_registered(ExtensionKind::PlaneCut));
    assert!(!registry.is_registered(ExtensionKind::NPlaneCut));
}

#[test]
fn both_extensions_register_side_by_side() {
    let mut registry = Registry::new();
    assert_eq!(plugin(&mut registry), Ok(101));
    assert_eq!(PlaneCutPlugin.build(&mut registry), Ok(100));
    assert_eq!(
        plugin(&mut registry),
        Err(AlreadyRegistered { kind: ExtensionKind::NPlaneCut })
    );
    assert_eq!(
        registry.register(ExtensionKind::PlaneCut),
        Err(AlreadyRegistered { kind: ExtensionKind::PlaneCut })
    );
}

#[test]
fn shader_paths() {
    assert_eq!(
        PlaneCutExt::fragment_shader(),
        "embedded://bevy_plane_cut/plane_cut.wgsl"
    );
    assert_eq!(
        PlaneCutExt::deferred_fragment_shader(),
        "embedded://bevy_plane_cut/plane_cut.wgsl"
    );
    assert_eq!(
        NPlaneCutExt::fragment_shader(),
        "embedded://bevy_plane_cut/nplane_cut.wgsl"
    );
    assert_eq!(
        NPlaneCutExt::deferred_fragment_shader(),
        "embedded://bevy_plane_cut/nplane_cut.wgsl"
    );
}

#[test]
fn specialize_turns_culling_off() {
    for start in [Some(Face::Back), Some(Face::Front), None] {
        let mut state = PrimitiveState { cull_mode: start };
        PlaneCutExt::specialize(&mut state);
        assert_eq!(state.cull_mode, None);
        let mut state = PrimitiveState { cull_mode: start };
        NPlaneCutExt::specialize(&mut state);
        assert_eq!(state.cull_mode, None);
    }
}
