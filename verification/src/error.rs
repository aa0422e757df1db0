//! Errors the pipeline can raise.

use vstd::prelude::*;

verus! {

/// A structural input error, fatal to the draw call that met it.
#[derive(Clone, Copy, Debug, PartialEq, Eq, Structural)]
pub enum RenderError {
    /// An index buffer whose length is not a multiple of three, an index
    /// out of the vertex buffer's bounds, or fewer than three vertices.
    MalformedMesh,
    /// Camera parameters outside the valid ranges: the far plane must lie
    /// beyond the near plane, both positive, and the field of view must
    /// be strictly between zero and a half turn.
    DegenerateProjection,
}

} // verus!
