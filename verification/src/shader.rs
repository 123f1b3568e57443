//! Shader stages and the compiled single-stage units a pipeline borrows.
use vstd::prelude::*;
use crate::glenum;

verus! {

/// Number of stage kinds, and so of slots in a pipeline.
pub const STAGE_COUNT: usize = 6;

/// The closed set of programmable stages.
#[derive(Clone, Copy, Debug, PartialEq, Eq, Structural)]
pub enum ShaderType {
    Vertex,
    TesselationControl,
    TesselationEvaluation,
    Geometry,
    Fragment,
    Compute,
}

impl ShaderType {
    /// The fixed slot of each stage kind.
    pub open spec fn spec_slot(self) -> int {
        match self {
            ShaderType::Vertex => 0,
            ShaderType::TesselationControl => 1,
            ShaderType::TesselationEvaluation => 2,
            ShaderType::Geometry => 3,
            ShaderType::Fragment => 4,
            ShaderType::Compute => 5,
        }
    }

    /// The stage kind that owns a slot; slots past the last map to `Compute`.
    pub open spec fn spec_from_slot(slot: int) -> ShaderType {
        if slot == 0 {
            ShaderType::Vertex
        } else if slot == 1 {
            ShaderType::TesselationControl
        } else if slot == 2 {
            ShaderType::TesselationEvaluation
        } else if slot == 3 {
            ShaderType::Geometry
        } else if slot == 4 {
            ShaderType::Fragment
        } else {
            ShaderType::Compute
        }
    }

    /// The driver's enumerant for this stage.
    pub open spec fn spec_gl_enum(self) -> u32 {
        match self {
            ShaderType::Vertex => glenum::VERTEX_SHADER,
            ShaderType::TesselationControl => glenum::TESS_CONTROL_SHADER,
            ShaderType::TesselationEvaluation => glenum::TESS_EVALUATION_SHADER,
            ShaderType::Geometry => glenum::GEOMETRY_SHADER,
            ShaderType::Fragment => glenum::FRAGMENT_SHADER,
            ShaderType::Compute => glenum::COMPUTE_SHADER,
        }
    }

    /// Slot of this stage kind in a pipeline's per-stage arrays.
    pub fn to_array_index(self) -> (slot: usize)
        ensures
            slot == self.spec_slot(),
            slot < STAGE_COUNT,
            ShaderType::spec_from_slot(slot as int) == self,
    {
        match self {
            ShaderType::Vertex => 0,
            ShaderType::TesselationControl => 1,
            ShaderType::TesselationEvaluation => 2,
            ShaderType::Geometry => 3,
            ShaderType::Fragment => 4,
            ShaderType::Compute => 5,
        }
    }

    /// The stage kind that owns `slot`.
    pub fn from_array_index(slot: usize) -> (stage: ShaderType)
        requires
            slot < STAGE_COUNT,
        ensures
            stage == ShaderType::spec_from_slot(slot as int),
            stage.spec_slot() == slot,
    {
        if slot == 0 {
            ShaderType::Vertex
        } else if slot == 1 {
            ShaderType::TesselationControl
        } else if slot == 2 {
            ShaderType::TesselationEvaluation
        } else if slot == 3 {
            ShaderType::Geometry
        } else if slot == 4 {
            ShaderType::Fragment
        } else {
            ShaderType::Compute
        }
    }

    /// The driver's enumerant for this stage.
    pub fn to_gl_enum(self) -> (e: u32)
        ensures
            e == self.spec_gl_enum(),
    {
        match self {
            ShaderType::Vertex => glenum::VERTEX_SHADER,
            ShaderType::TesselationControl => glenum::TESS_CONTROL_SHADER,
            ShaderType::TesselationEvaluation => glenum::TESS_EVALUATION_SHADER,
            ShaderType::Geometry => glenum::GEOMETRY_SHADER,
            ShaderType::Fragment => glenum::FRAGMENT_SHADER,
            ShaderType::Compute => glenum::COMPUTE_SHADER,
        }
    }
}

/// Two stage kinds share a slot only if they are the same kind.
pub proof fn lemma_slot_identifies_stage(a: ShaderType, b: ShaderType)
    ensures
        a.spec_slot() == b.spec_slot() <==> a == b,
        0 <= a.spec_slot() < STAGE_COUNT,
{
}

/// An already compiled single-stage unit: its stage kind and driver handle.
#[derive(Clone, Copy, Debug, PartialEq, Eq, Structural)]
pub struct Shader {
    pub stage: ShaderType,
    pub id: u32,
}

impl Shader {
    pub fn new(stage: ShaderType, id: u32) -> (s: Shader)
        ensures
            s.stage == stage,
            s.id == id,
    {
        Shader { stage, id }
    }

    pub fn get_type(&self) -> (stage: ShaderType)
        ensures
            stage == self.stage,
    {
        self.stage
    }

    pub fn get_id(&self) -> (id: u32)
        ensures
            id == self.id,
    {
        self.id
    }
}

} // verus!
