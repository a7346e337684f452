//! The render state that a material may ask for.

use vstd::prelude::*;

verus! {

/// Which faces are culled.
#[derive(Clone, Copy, Debug, PartialEq, Eq, Structural)]
pub enum CullMode {
    Off,
    Front,
    Back,
    FrontAndBack,
}

/// The comparison that a fragment's depth must pass.
#[derive(Clone, Copy, Debug, PartialEq, Eq, Structural)]
pub enum DepthTest {
    Never,
    Always,
    Less,
    LessEqual,
    Greater,
    NotEqual,
    GreaterEqual,
    Equal,
}

/// A sparse overlay of render state. A field that is `None` says nothing:
/// it neither sets nor resets that piece of state.
#[derive(Clone, Copy, Debug, PartialEq, Eq)]
pub struct MaterialState {
    pub cull: Option<CullMode>,
    pub depth_test: Option<DepthTest>,
    pub depth_write: Option<bool>,
    pub alpha_blending: Option<bool>,
}

/// Face culling at the start of a pass.
pub const BASELINE_CULL: CullMode = CullMode::Back;

/// The depth test at the start of a pass.
pub const BASELINE_DEPTH_TEST: DepthTest = DepthTest::Less;

/// Whether depth is written at the start of a pass.
pub const BASELINE_DEPTH_WRITE: bool = true;

/// Whether blending is on at the start of a pass.
pub const BASELINE_ALPHA_BLENDING: bool = false;

/// The value of one field once `over` has been laid upon `base`: that of
/// `over` where it has one, else that of `base`.
pub open spec fn laid_over<T>(over: Option<T>, base: Option<T>) -> Option<T> {
    match over {
        Some(value) => Some(value),
        None => base,
    }
}

impl MaterialState {
    /// The overlay that says nothing.
    pub open spec fn unset() -> MaterialState {
        MaterialState { cull: None, depth_test: None, depth_write: None, alpha_blending: None }
    }

    /// The baseline that a pass starts from: every field set, to the
    /// constants above.
    pub open spec fn baseline() -> MaterialState {
        MaterialState {
            cull: Some(BASELINE_CULL),
            depth_test: Some(BASELINE_DEPTH_TEST),
            depth_write: Some(BASELINE_DEPTH_WRITE),
            alpha_blending: Some(BASELINE_ALPHA_BLENDING),
        }
    }

    /// This overlay laid upon `base`, field by field.
    pub open spec fn over(self, base: MaterialState) -> MaterialState {
        MaterialState {
            cull: laid_over(self.cull, base.cull),
            depth_test: laid_over(self.depth_test, base.depth_test),
            depth_write: laid_over(self.depth_write, base.depth_write),
            alpha_blending: laid_over(self.alpha_blending, base.alpha_blending),
        }
    }
}

impl Default for MaterialState {
    fn default() -> (state: MaterialState)
        ensures
            state == MaterialState::unset(),
    {
        MaterialState { cull: None, depth_test: None, depth_write: None, alpha_blending: None }
    }
}

} // verus!
