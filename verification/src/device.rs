//! The calls that change render state on the device. The caches name them;
//! the caller makes them.

use crate::render_state::DepthTest;
use vstd::prelude::*;

verus! {

/// A capability of the device that is switched on or off as a whole.
#[derive(Clone, Copy, Debug, PartialEq, Eq, Structural)]
pub enum Capability {
    CullFace,
    DepthTest,
    Blend,
}

/// The faces that the device culls while culling is enabled.
#[derive(Clone, Copy, Debug, PartialEq, Eq, Structural)]
pub enum Face {
    Front,
    Back,
    FrontAndBack,
}

/// One call to the device.
#[derive(Clone, Copy, Debug, PartialEq, Eq, Structural)]
pub enum DeviceCall {
    /// Switch a capability on.
    Enable(Capability),
    /// Switch a capability off.
    Disable(Capability),
    /// Choose the faces to cull.
    CullFace(Face),
    /// Choose the depth comparison.
    DepthFunc(DepthTest),
    /// Allow or forbid writes to the depth buffer.
    DepthMask(bool),
}

/// The piece of render state that a call changes.
#[derive(Clone, Copy, Debug, PartialEq, Eq, Structural)]
pub enum StateField {
    Cull,
    DepthTest,
    DepthWrite,
    AlphaBlending,
}

impl DeviceCall {
    /// The piece of render state that this call changes.
    pub open spec fn field(self) -> StateField {
        match self {
            DeviceCall::Enable(Capability::CullFace) => StateField::Cull,
            DeviceCall::Disable(Capability::CullFace) => StateField::Cull,
            DeviceCall::CullFace(_) => StateField::Cull,
            DeviceCall::Enable(Capability::DepthTest) => StateField::DepthTest,
            DeviceCall::Disable(Capability::DepthTest) => StateField::DepthTest,
            DeviceCall::DepthFunc(_) => StateField::DepthTest,
            DeviceCall::DepthMask(_) => StateField::DepthWrite,
            DeviceCall::Enable(Capability::Blend) => StateField::AlphaBlending,
            DeviceCall::Disable(Capability::Blend) => StateField::AlphaBlending,
        }
    }
}

} // verus!
