//! The name of a buffer object that holds vertex indices, with their number.

use vstd::prelude::*;

verus! {

/// A buffer object bound to the element array buffer target.
pub struct IndexBuffer {
    renderer_id: u32,
    pub count: i32,
}

/// The indices of `triangles`, corner by corner.
pub open spec fn flattened(triangles: Seq<[u32; 3]>) -> Seq<u32> {
    Seq::new(3 * triangles.len(), |k: int| triangles[k / 3][k % 3])
}

impl IndexBuffer {
    /// The name OpenGL gave the buffer.
    pub closed spec fn id(&self) -> u32 {
        self.renderer_id
    }

    /// The number of indices the buffer holds, as the `count` field has it.
    pub closed spec fn index_count(&self) -> i32 {
        self.count
    }

    /// The handle of the buffer named `renderer_id` once `data` is uploaded
    /// to it. The count wraps as a cast to `i32` does.
    pub fn new(renderer_id: u32, data: &[u32]) -> (buffer: Self)
        ensures
            buffer.id() == renderer_id,
            buffer.index_count() == data@.len() as i32,
    {
        Self { renderer_id, count: #[verifier::truncate] (data.len() as i32) }
    }

    /// The name OpenGL gave the buffer.
    pub fn renderer_id(&self) -> (id: u32)
        ensures
            id == self.id(),
    {
        self.renderer_id
    }

    /// The number of indices the buffer holds.
    pub fn count(&self) -> (n: i32)
        ensures
            n == self.index_count(),
    {
        self.count
    }

    /// Bytes to upload for `data`.
    pub fn byte_len(data: &[u32]) -> (bytes: isize)
        requires
            4 * data@.len() <= isize::MAX,
        ensures
            bytes == 4 * data@.len(),
    {
        (data.len() * 4) as isize
    }

    /// The indices of `triangles` as one list, three per triangle.
    pub fn flatten(triangles: &[[u32; 3]]) -> (indices: Vec<u32>)
        ensures
            indices@ == flattened(triangles@),
    {
        let mut indices: Vec<u32> = Vec::new();
        let n = triangles.len();
        for i in 0..n
            invariant
                n == triangles@.len(),
                indices@ == flattened(triangles@.take(i as int)),
        {
            let triangle = &triangles[i];
            indices.push(triangle[0]);
            indices.push(triangle[1]);
            indices.push(triangle[2]);
            assert(indices@ =~= flattened(triangles@.take(i + 1)));
        }
        assert(triangles@.take(n as int) == triangles@);
        indices
    }
}

} // verus!
