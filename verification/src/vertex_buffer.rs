//! The name of a buffer object that holds vertex data.

use vstd::prelude::*;
use vstd::layout::size_of;

verus! {

/// A buffer object bound to the array buffer target.
pub struct VertexBuffer {
    renderer_id: u32,
}

impl VertexBuffer {
    /// The name OpenGL gave the buffer.
    pub closed spec fn id(&self) -> u32 {
        self.renderer_id
    }

    /// The handle of the buffer that OpenGL named `renderer_id`.
    pub fn new(renderer_id: u32) -> (buffer: Self)
        ensures
            buffer.id() == renderer_id,
    {
        Self { renderer_id }
    }

    /// The name OpenGL gave the buffer.
    pub fn renderer_id(&self) -> (id: u32)
        ensures
            id == self.id(),
    {
        self.renderer_id
    }

    /// Bytes to upload for `data`.
    pub fn byte_len<T>(data: &[T]) -> (bytes: isize)
        requires
            data@.len() * size_of::<T>() <= isize::MAX,
        ensures
            bytes == data@.len() * size_of::<T>(),
    {
        let unit = core::mem::size_of::<T>();
        (data.len() * unit) as isize
    }
}

} // verus!
