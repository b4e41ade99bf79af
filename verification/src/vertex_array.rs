//! Vertex array objects, and the attribute pointers a layout gives rise to.

use vstd::prelude::*;
use crate::enums::{gl_false, gl_true, FALSE, TRUE};
use crate::vertex_buffer::VertexBuffer;
use crate::vertex_buffer_layout::{
    component_size, fits_i32, total_size, well_formed, VertexBufferElement, VertexBufferLayout,
};

verus! {

/// Arguments of one attribute pointer definition.
#[derive(Clone, Copy, Debug, PartialEq, Eq)]
pub struct VertexAttribute {
    pub index: u32,
    pub count: i32,
    pub el_type: u32,
    pub normalized: u8,
    pub stride: i32,
    pub offset: i32,
}

/// What binding a buffer to a vertex array takes: the two objects to bind,
/// then the attributes to enable and define, in order.
pub struct BufferBinding {
    pub array: u32,
    pub buffer: u32,
    pub attributes: Vec<VertexAttribute>,
}

/// The pointer for attribute `i` of `elements`: it starts where the
/// attributes before it end, and its index wraps as a cast to `u32` does.
pub open spec fn attribute_at(elements: Seq<VertexBufferElement>, i: int) -> VertexAttribute {
    VertexAttribute {
        index: i as u32,
        count: elements[i].count,
        el_type: elements[i].el_type,
        normalized: if elements[i].normalized {
            TRUE
        } else {
            FALSE
        },
        stride: total_size(elements) as i32,
        offset: total_size(elements.take(i)) as i32,
    }
}

/// The pointers for all attributes of `elements`.
pub open spec fn attributes_of(elements: Seq<VertexBufferElement>) -> Seq<VertexAttribute> {
    Seq::new(elements.len(), |i: int| attribute_at(elements, i))
}

/// The attributes of a layout lie end to end: the first starts at offset 0,
/// each next one where the one before it ends, and the last ends at the
/// stride, which all of them share.
pub proof fn lemma_attributes_end_to_end(elements: Seq<VertexBufferElement>, i: int)
    requires
        well_formed(elements),
        0 <= i < elements.len(),
    ensures
        attributes_of(elements)[0].offset == 0,
        attributes_of(elements)[i].stride == total_size(elements),
        i + 1 < elements.len() ==> attributes_of(elements)[i + 1].offset == attributes_of(
            elements,
        )[i].offset + elements[i].byte_size(),
        i + 1 == elements.len() ==> attributes_of(elements)[i].stride == attributes_of(
            elements,
        )[i].offset + elements[i].byte_size(),
{
    assert(elements.take(0) =~= Seq::<VertexBufferElement>::empty());
    assert(elements.take(i + 1).drop_last() == elements.take(i));
    assert(elements.take(i + 1).last() == elements[i]);
    assert(elements.take(elements.len() as int) == elements);
    assert(fits_i32(total_size(elements.take(0))));
    assert(fits_i32(total_size(elements.take(i))));
    assert(fits_i32(total_size(elements.take(i + 1))));
    assert(fits_i32(total_size(elements.take(elements.len() as int))));
}

/// A vertex array object.
pub struct VertexArray {
    renderer_id: u32,
}

impl VertexArray {
    /// The name OpenGL gave the vertex array.
    pub closed spec fn id(&self) -> u32 {
        self.renderer_id
    }

    /// The handle of the vertex array that OpenGL named `renderer_id`.
    pub fn new(renderer_id: u32) -> (array: Self)
        ensures
            array.id() == renderer_id,
    {
        Self { renderer_id }
    }

    /// The name OpenGL gave the vertex array.
    pub fn renderer_id(&self) -> (id: u32)
        ensures
            id == self.id(),
    {
        self.renderer_id
    }

    /// What to bind and which attribute pointers to define so that this
    /// vertex array reads `vb` as `layout` describes.
    pub fn add_buffer(&self, vb: &VertexBuffer, layout: VertexBufferLayout) -> (binding:
        BufferBinding)
        ensures
            binding.array == self.id(),
            binding.buffer == vb.id(),
            binding.attributes@ == attributes_of(layout@),
            well_formed(layout@),
    {
        let stride = layout.get_stride();
        let elements = layout.get_elements();
        let n = elements.len();
        let mut attributes: Vec<VertexAttribute> = Vec::new();
        let mut offset: i32 = 0;
        for i in 0..n
            invariant
                n == elements@.len(),
                elements@ == layout@,
                well_formed(elements@),
                stride == total_size(elements@),
                offset == total_size(elements@.take(i as int)),
                attributes@ == attributes_of(elements@).take(i as int),
        {
            let element = &elements[i];
            let normalized = if element.normalized {
                gl_true()
            } else {
                gl_false()
            };
            attributes.push(
                VertexAttribute {
                    index: #[verifier::truncate] (i as u32),
                    count: element.count,
                    el_type: element.el_type,
                    normalized,
                    stride,
                    offset,
                },
            );
            let unit = element.type_size();
            proof {
                let next = elements@.take(i + 1);
                assert(next.drop_last() == elements@.take(i as int));
                assert(next.last() == elements@[i as int]);
                assert(element.count * unit == elements@[i as int].byte_size()) by (nonlinear_arith)
                    requires
                        unit == component_size(element.el_type),
                        elements@[i as int].byte_size() == element.count
                            * component_size(element.el_type),
                ;
                assert(total_size(next) == offset + elements@[i as int].byte_size());
                assert(fits_i32(total_size(elements@.take(i + 1))));
                assert(fits_i32(elements@[i as int].byte_size()));
                assert(attributes@ =~= attributes_of(elements@).take(i + 1));
            }
            offset = offset + element.count * unit;
        }
        assert(attributes_of(elements@).take(n as int) == attributes_of(elements@));
        BufferBinding { array: self.renderer_id, buffer: vb.renderer_id(), attributes }
    }
}

} // verus!
