//! Plane cuts for physically-based materials: the data model of a cut set and
//! its exact mapping to the uniform block a fragment shader reads.
//!
//! A plane cut discards the part of a mesh that lies below a plane and gives
//! the cut surface a colour of its own. The clipping itself is done by a
//! fragment shader; this library holds the planes, colours and modes, and
//! lays them out, bit for bit, as that shader declares them.

pub mod flags;
pub mod layout;
pub mod nplane;
pub mod pipeline;
pub mod plane;
pub mod side;
pub mod sixplane;
pub mod space;

pub use crate::nplane::{
    ConfigurationError, CutSetView, LookupError, NPlaneCutExt, NPlaneCutExtUniform, PLANE_MAX,
};
pub use crate::pipeline::{
    AlreadyRegistered, ExtensionKind, Face, PlaneCutPlugin, PrimitiveState, Registry,
};
pub use crate::plane::{LinearColor, Plane};
pub use crate::side::Side;
pub use crate::sixplane::{PlaneCutExt, PlaneCutExtUniform};
pub use crate::space::Space;
