//! What the extensions ask of the host renderer: a binding slot each, one
//! shader for the forward and the deferred pass, and no face culling.
//!
//! The host is not part of this library. These functions decide; the caller
//! carries the decisions out.

use vstd::prelude::*;
use crate::nplane::{NPlaneCutExt, NPLANE_CUT_BINDING};
use crate::sixplane::{PlaneCutExt, PLANE_CUT_BINDING};

verus! {

/// The first binding slot that does not belong to the base material.
pub const FIRST_EXTENSION_SLOT: u32 = 100;

/// The material extensions of this library.
#[derive(Clone, Copy, Debug, PartialEq, Eq, Structural)]
pub enum ExtensionKind {
    /// [`PlaneCutExt`]: six planes, one colour.
    PlaneCut,
    /// [`NPlaneCutExt`]: up to six planes, a colour each.
    NPlaneCut,
}

/// A face of a triangle, as the rasterizer tells them apart.
#[derive(Clone, Copy, Debug, PartialEq, Eq, Structural)]
pub enum Face {
    /// The side the triangle's winding faces.
    Front,
    /// The other side.
    Back,
}

/// The part of the pipeline state that an extension changes.
#[derive(Clone, Copy, Debug, PartialEq, Eq, Structural)]
pub struct PrimitiveState {
    /// The face that is not drawn, if any.
    pub cull_mode: Option<Face>,
}

/// An extension that is registered already was registered again.
#[derive(Clone, Copy, Debug, PartialEq, Eq, Structural)]
pub struct AlreadyRegistered {
    /// The extension in question.
    pub kind: ExtensionKind,
}

/// The binding slot of each extension's uniform block.
pub open spec fn binding_of(kind: ExtensionKind) -> u32 {
    match kind {
        ExtensionKind::PlaneCut => PLANE_CUT_BINDING,
        ExtensionKind::NPlaneCut => NPLANE_CUT_BINDING,
    }
}

/// The binding slot of an extension's uniform block. All slots are assigned
/// here, in one place, so that two extensions on one material cannot collide.
pub fn binding_slot(kind: ExtensionKind) -> (slot: u32)
    ensures
        slot == binding_of(kind),
        slot >= FIRST_EXTENSION_SLOT,
{
    match kind {
        ExtensionKind::PlaneCut => PLANE_CUT_BINDING,
        ExtensionKind::NPlaneCut => NPLANE_CUT_BINDING,
    }
}

/// Different extensions have different binding slots, and none of them is a
/// slot of the base material.
pub proof fn lemma_binding_slots_distinct(a: ExtensionKind, b: ExtensionKind)
    ensures
        a != b ==> binding_of(a) != binding_of(b),
        binding_of(a) >= FIRST_EXTENSION_SLOT,
{
}

/// The extensions that a host has registered so far.
#[derive(Clone, Copy, Debug)]
pub struct Registry {
    plane_cut: bool,
    nplane_cut: bool,
}

impl View for Registry {
    type V = Set<ExtensionKind>;

    closed spec fn view(&self) -> Set<ExtensionKind> {
        Set::new(
            |kind: ExtensionKind|
                match kind {
                    ExtensionKind::PlaneCut => self.plane_cut,
                    ExtensionKind::NPlaneCut => self.nplane_cut,
                },
        )
    }
}

impl Registry {
    /// A registry with nothing registered.
    pub fn new() -> (registry: Registry)
        ensures
            registry@ == Set::<ExtensionKind>::empty(),
    {
        let registry = Registry { plane_cut: false, nplane_cut: false };
        assert(registry@ =~= Set::<ExtensionKind>::empty());
        registry
    }

    /// Whether `kind` has been registered.
    pub fn is_registered(&self, kind: ExtensionKind) -> (yes: bool)
        ensures
            yes == self@.contains(kind),
    {
        match kind {
            ExtensionKind::PlaneCut => self.plane_cut,
            ExtensionKind::NPlaneCut => self.nplane_cut,
        }
    }

    /// Registers `kind` and returns its binding slot. Registering an
    /// extension a second time fails and changes nothing.
    pub fn register(&mut self, kind: ExtensionKind) -> (r: Result<u32, AlreadyRegistered>)
        ensures
            old(self)@.contains(kind) ==> r == Err::<u32, _>(AlreadyRegistered { kind })
                && final(self)@ == old(self)@,
            !old(self)@.contains(kind) ==> r == Ok::<_, AlreadyRegistered>(binding_of(kind))
                && final(self)@ == old(self)@.insert(kind),
    {
        if self.is_registered(kind) {
            Err(AlreadyRegistered { kind })
        } else {
            match kind {
                ExtensionKind::PlaneCut => {
                    self.plane_cut = true;
                },
                ExtensionKind::NPlaneCut => {
                    self.nplane_cut = true;
                },
            }
            assert(final(self)@ =~= old(self)@.insert(kind));
            Ok(binding_slot(kind))
        }
    }
}

/// The plane cut plugin.
#[derive(Clone, Copy, Debug)]
pub struct PlaneCutPlugin;

impl PlaneCutPlugin {
    /// Registers [`PlaneCutExt`] with the host and returns the binding slot
    /// of its uniform block. Fails when it is registered already.
    pub fn build(&self, registry: &mut Registry) -> (r: Result<u32, AlreadyRegistered>)
        ensures
            old(registry)@.contains(ExtensionKind::PlaneCut) ==> r == Err::<u32, _>(
                AlreadyRegistered { kind: ExtensionKind::PlaneCut },
            ) && final(registry)@ == old(registry)@,
            !old(registry)@.contains(ExtensionKind::PlaneCut) ==> r == Ok::<_, AlreadyRegistered>(
                PLANE_CUT_BINDING,
            ) && final(registry)@ == old(registry)@.insert(ExtensionKind::PlaneCut),
    {
        registry.register(ExtensionKind::PlaneCut)
    }
}

/// Registers [`NPlaneCutExt`] with the host and returns the binding slot of
/// its uniform block. Fails when it is registered already.
pub fn plugin(registry: &mut Registry) -> (r: Result<u32, AlreadyRegistered>)
    ensures
        old(registry)@.contains(ExtensionKind::NPlaneCut) ==> r == Err::<u32, _>(
            AlreadyRegistered { kind: ExtensionKind::NPlaneCut },
        ) && final(registry)@ == old(registry)@,
        !old(registry)@.contains(ExtensionKind::NPlaneCut) ==> r == Ok::<_, AlreadyRegistered>(
            NPLANE_CUT_BINDING,
        ) && final(registry)@ == old(registry)@.insert(ExtensionKind::NPlaneCut),
{
    registry.register(ExtensionKind::NPlaneCut)
}

/// The shader of [`PlaneCutExt`], as an asset path.
pub open spec fn plane_cut_shader() -> Seq<char> {
    "embedded://bevy_plane_cut/plane_cut.wgsl"@
}

/// The shader of [`NPlaneCutExt`], as an asset path.
pub open spec fn nplane_cut_shader() -> Seq<char> {
    "embedded://bevy_plane_cut/nplane_cut.wgsl"@
}

impl PlaneCutExt {
    /// The shader that draws the fragments in the forward pass.
    pub fn fragment_shader() -> (path: &'static str)
        ensures
            path@ == plane_cut_shader(),
    {
        "embedded://bevy_plane_cut/plane_cut.wgsl"
    }

    /// The shader that draws the fragments in the deferred pass: the same
    /// one. There the shading flag has no effect, since lighting is applied
    /// afterwards.
    pub fn deferred_fragment_shader() -> (path: &'static str)
        ensures
            path@ == plane_cut_shader(),
    {
        "embedded://bevy_plane_cut/plane_cut.wgsl"
    }

    /// Turns face culling off: a cut opens the mesh, and the inside of its
    /// far faces has to be drawn.
    pub fn specialize(descriptor: &mut PrimitiveState)
        ensures
            final(descriptor).cull_mode is None,
    {
        descriptor.cull_mode = None;
    }
}

impl NPlaneCutExt {
    /// The shader that draws the fragments in the forward pass.
    pub fn fragment_shader() -> (path: &'static str)
        ensures
            path@ == nplane_cut_shader(),
    {
        "embedded://bevy_plane_cut/nplane_cut.wgsl"
    }

    /// The shader that draws the fragments in the deferred pass: the same
    /// one. There the shading flag has no effect, since lighting is applied
    /// afterwards.
    pub fn deferred_fragment_shader() -> (path: &'static str)
        ensures
            path@ == nplane_cut_shader(),
    {
        "embedded://bevy_plane_cut/nplane_cut.wgsl"
    }

    /// Turns face culling off: a cut opens the mesh, and the inside of its
    /// far faces has to be drawn.
    pub fn specialize(descriptor: &mut PrimitiveState)
        ensures
            final(descriptor).cull_mode is None,
    {
        descriptor.cull_mode = None;
    }
}

} // verus!
