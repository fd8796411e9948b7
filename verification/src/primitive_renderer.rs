use vstd::prelude::*;
use crate::screen_multiplexer::DrawArea;
use crate::vertex::Vertex;

verus! {

/// The uniform buffer holds one 4x4 matrix: sixteen 32-bit words.
pub const MATRIX_WORDS: usize = 16;

/// What one render pass is to do.  The pass always begins by clearing its
/// target to black; it confines itself to `viewport` and `scissor`, and
/// draws the first `vertex_count` vertices of the line buffer as a line
/// list — or nothing beyond the clear, when no line buffer has been set.
#[derive(Clone, Copy, Debug, PartialEq, Eq)]
pub struct DrawPlan {
    pub viewport: DrawArea,
    pub scissor: DrawArea,
    pub vertex_count: Option<usize>,
}

/// The renderer's buffer state: the contents of the vertex buffer, if one
/// has been uploaded, and the contents of the uniform buffer that holds the
/// camera matrix.  Matrix entries are carried as the raw 32-bit words the
/// GPU receives; the host encodes its matrix into words and decodes them
/// back, so the library never touches their numeric reading.
pub struct PrimitiveRenderer {
    pub lines: Option<Vec<Vertex>>,
    pub camera_matrix: Vec<u32>,
}

impl PrimitiveRenderer {
    /// A fresh renderer: no line buffer yet, and the uniform buffer
    /// zero-initialised, as buffers come from the GPU.
    pub fn new() -> (r: PrimitiveRenderer)
        ensures
            r.lines is None,
            r.camera_matrix@.len() == MATRIX_WORDS,
            forall|i: int| 0 <= i < r.camera_matrix@.len() ==> r.camera_matrix@[i] == 0,
    {
        let mut camera_matrix: Vec<u32> = Vec::new();
        while camera_matrix.len() < MATRIX_WORDS
            invariant
                camera_matrix@.len() <= MATRIX_WORDS,
                forall|i: int| 0 <= i < camera_matrix@.len() ==> camera_matrix@[i] == 0,
            decreases MATRIX_WORDS - camera_matrix.len(),
        {
            camera_matrix.push(0);
        }
        PrimitiveRenderer { lines: None, camera_matrix }
    }

    /// Overwrites the uniform buffer with a full camera matrix.  A payload
    /// of any other length is a programming error, ruled out here outright;
    /// exactly sixteen words always succeed.
    pub fn set_camera_matrix(&mut self, data: Vec<u32>)
        requires
            data@.len() == MATRIX_WORDS,
        ensures
            final(self).camera_matrix == data,
            final(self).lines == old(self).lines,
    {
        self.camera_matrix = data;
    }

    /// Replaces the vertex buffer wholesale with `lines`; the previous
    /// buffer, if any, is released.  There are no partial updates.
    pub fn set_lines(&mut self, lines: Vec<Vertex>)
        ensures
            final(self).lines == Some(lines),
            final(self).camera_matrix == old(self).camera_matrix,
    {
        self.lines = Some(lines);
    }

    /// The render pass for one frame, confined to `area`: clear, then draw
    /// every vertex of the line buffer — or clear alone, when no lines have
    /// been set.
    pub fn draw(&self, area: DrawArea) -> (plan: DrawPlan)
        ensures
            plan.viewport == area,
            plan.scissor == area,
            plan.vertex_count == (match self.lines {
                Some(v) => Some(v@.len() as usize),
                None => None,
            }),
    {
        let vertex_count = match &self.lines {
            Some(v) => Some(v.len()),
            None => None,
        };
        DrawPlan { viewport: area, scissor: area, vertex_count }
    }
}

} // verus!
