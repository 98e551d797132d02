//! Integer layout rules of the render target and of the per-instance vertex
//! buffer.
use vstd::prelude::*;

verus! {

/// Bytes in one column of a 4x4 single-precision matrix.
pub const MATRIX_COLUMN_BYTES: u64 = 16;

/// Columns in a 4x4 matrix.
pub const MATRIX_COLUMNS: u32 = 4;

/// Shader location of the first column of the per-instance model matrix.
pub const INSTANCE_FIRST_LOCATION: u32 = 5;

/// Bytes between consecutive instances: one whole 4x4 matrix.
pub const INSTANCE_STRIDE: u64 = 64;

/// A surface extent, with each side at least one pixel.
pub open spec fn clamped_side(n: u32) -> u32 {
    if n == 0 {
        1
    } else {
        n
    }
}

/// The extent a surface is configured with for a window of `width` by
/// `height` pixels: a zero side is raised to one, since a surface cannot be
/// empty.
pub fn surface_size(width: u32, height: u32) -> (r: (u32, u32))
    ensures
        r.0 == clamped_side(width),
        r.1 == clamped_side(height),
{
    let w: u32 = if width == 0 {
        1
    } else {
        width
    };
    let h: u32 = if height == 0 {
        1
    } else {
        height
    };
    (w, h)
}

/// One attribute of a vertex buffer: a column of four single-precision floats
/// at `offset` bytes into each element, fed to `shader_location`.
#[derive(Clone, Copy, Debug, PartialEq, Eq, Structural)]
pub struct VertexAttribute {
    pub offset: u64,
    pub shader_location: u32,
}

/// The per-instance attributes: the model matrix, one column per attribute,
/// column `i` at byte `16 * i` and location `5 + i`.
pub fn instance_attributes() -> (r: Vec<VertexAttribute>)
    ensures
        r@.len() == MATRIX_COLUMNS,
        forall|i: int|
            0 <= i < r@.len() ==> (#[trigger] r@[i]).offset == MATRIX_COLUMN_BYTES * i
                && r@[i].shader_location == INSTANCE_FIRST_LOCATION + i,
        r@.len() * MATRIX_COLUMN_BYTES == INSTANCE_STRIDE,
{
    let mut r: Vec<VertexAttribute> = Vec::new();
    let mut i: u32 = 0;
    while i < MATRIX_COLUMNS
        invariant
            i <= MATRIX_COLUMNS,
            r@.len() == i,
            forall|k: int|
                0 <= k < r@.len() ==> (#[trigger] r@[k]).offset == MATRIX_COLUMN_BYTES * k
                    && r@[k].shader_location == INSTANCE_FIRST_LOCATION + k,
        decreases MATRIX_COLUMNS - i,
    {
        r.push(
            VertexAttribute {
                offset: MATRIX_COLUMN_BYTES * (i as u64),
                shader_location: INSTANCE_FIRST_LOCATION + i,
            },
        );
        i = i + 1;
    }
    r
}

} // verus!
