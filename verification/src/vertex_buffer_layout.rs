//! Vertex attribute layouts: which components a vertex is made of, and how
//! many bytes one vertex takes.

use vstd::prelude::*;
use crate::enums::{float, unsigned_byte, unsigned_int, FLOAT, UNSIGNED_BYTE, UNSIGNED_INT};

verus! {

/// Whether `el_type` is one of the component types a layout can hold.
pub open spec fn supported(el_type: u32) -> bool {
    el_type == FLOAT || el_type == UNSIGNED_INT || el_type == UNSIGNED_BYTE
}

/// Bytes taken by one component of type `el_type`; 0 where the type is not
/// supported.
pub open spec fn component_size(el_type: u32) -> int {
    if el_type == FLOAT {
        4
    } else if el_type == UNSIGNED_INT {
        4
    } else if el_type == UNSIGNED_BYTE {
        1
    } else {
        0
    }
}

/// One attribute of a vertex: `count` components of type `el_type`.
#[derive(Clone, Copy, Debug, PartialEq, Eq)]
pub struct VertexBufferElement {
    pub el_type: u32,
    pub count: i32,
    pub normalized: bool,
}

impl VertexBufferElement {
    /// Bytes taken by the whole attribute.
    pub open spec fn byte_size(self) -> int {
        self.count * component_size(self.el_type)
    }

    /// Bytes taken by one component of this attribute.
    pub fn type_size(&self) -> (size: i32)
        requires
            supported(self.el_type),
        ensures
            size == component_size(self.el_type),
    {
        if self.el_type == float() {
            4
        } else if self.el_type == unsigned_int() {
            4
        } else {
            1
        }
    }
}

/// Bytes taken by the attributes in `elements`, laid out one after another.
pub open spec fn total_size(elements: Seq<VertexBufferElement>) -> int
    decreases elements.len(),
{
    if elements.len() == 0 {
        0
    } else {
        total_size(elements.drop_last()) + elements.last().byte_size()
    }
}

/// Whether `value` can be held in an `i32`.
pub open spec fn fits_i32(value: int) -> bool {
    i32::MIN <= value <= i32::MAX
}

/// What every layout satisfies: only supported component types, and the size
/// of each attribute and the offset after each attribute fit in an `i32`.
pub open spec fn well_formed(elements: Seq<VertexBufferElement>) -> bool {
    &&& forall|i: int| 0 <= i < elements.len() ==> supported(#[trigger] elements[i].el_type)
    &&& forall|i: int| 0 <= i < elements.len() ==> fits_i32(#[trigger] elements[i].byte_size())
    &&& forall|i: int| 0 <= i <= elements.len() ==> fits_i32(#[trigger] total_size(elements.take(i)))
}

/// Whether `count` components of type `el_type` can be appended to
/// `elements`: their size and the size of the whole fit in an `i32`.
pub open spec fn has_room(elements: Seq<VertexBufferElement>, el_type: u32, count: i32) -> bool {
    &&& fits_i32(count * component_size(el_type))
    &&& fits_i32(total_size(elements) + count * component_size(el_type))
}

/// Marker for 32-bit floating point components.
pub struct Float;

/// Appending `count` components of the type that `T` stands for.
pub trait Push<T>: View<V = Seq<VertexBufferElement>> {
    /// The OpenGL type tag of the components that `T` stands for.
    spec fn el_type() -> u32;

    /// Whether `push` can take `count` components.
    fn fits(&self, count: i32) -> (ok: bool)
        ensures
            ok == has_room(self@, Self::el_type(), count),
    ;

    /// Appends `count` components, not normalized.
    fn push(&mut self, count: i32)
        requires
            has_room(old(self)@, Self::el_type(), count),
        ensures
            final(self)@ == old(self)@.push(
                (VertexBufferElement { el_type: Self::el_type(), count, normalized: false }),
            ),
            total_size(final(self)@) == total_size(old(self)@) + count * component_size(
                Self::el_type(),
            ),
    ;
}

/// The attributes of one vertex, in order, with the size of a vertex.
pub struct VertexBufferLayout {
    elements: Vec<VertexBufferElement>,
    stride: i32,
}

impl View for VertexBufferLayout {
    type V = Seq<VertexBufferElement>;

    closed spec fn view(&self) -> Seq<VertexBufferElement> {
        self.elements@
    }
}

impl VertexBufferLayout {
    #[verifier::type_invariant]
    spec fn inv(self) -> bool {
        &&& well_formed(self.elements@)
        &&& self.stride == total_size(self.elements@)
    }

    /// The layout of a vertex with no attributes.
    pub fn new() -> (layout: Self)
        ensures
            layout@ == Seq::<VertexBufferElement>::empty(),
    {
        Self { elements: Vec::new(), stride: 0 }
    }

    /// Bytes from one vertex to the next.
    pub fn get_stride(&self) -> (stride: i32)
        ensures
            stride == total_size(self@),
    {
        proof {
            use_type_invariant(self);
        }
        self.stride
    }

    /// The attributes in the order they were pushed.
    pub fn get_elements(&self) -> (elements: &[VertexBufferElement])
        ensures
            elements@ == self@,
            well_formed(self@),
    {
        proof {
            use_type_invariant(self);
        }
        self.elements.as_slice()
    }

    /// Appends `count` components of the type that `T` stands for.
    pub fn push<T>(&mut self, count: i32) where Self: Push<T>
        requires
            has_room(old(self)@, <Self as Push<T>>::el_type(), count),
        ensures
            final(self)@ == old(self)@.push(
                (VertexBufferElement {
                    el_type: <Self as Push<T>>::el_type(),
                    count,
                    normalized: false,
                }),
            ),
            total_size(final(self)@) == total_size(old(self)@) + count * component_size(
                <Self as Push<T>>::el_type(),
            ),
    {
        <Self as Push<T>>::push(self, count);
    }

    /// Whether `count` components of the type that `T` stands for can be
    /// appended.
    pub fn fits<T>(&self, count: i32) -> (ok: bool) where Self: Push<T>
        ensures
            ok == has_room(self@, <Self as Push<T>>::el_type(), count),
    {
        <Self as Push<T>>::fits(self, count)
    }

    /// Whether `count` components tagged `el_type` can be appended.
    fn room_for(&self, el_type: u32, count: i32) -> (ok: bool)
        requires
            supported(el_type),
        ensures
            ok == has_room(self@, el_type, count),
    {
        proof {
            use_type_invariant(self);
        }
        let unit: i64 = if el_type == unsigned_byte() {
            1
        } else {
            4
        };
        assert(unit == component_size(el_type));
        let size: i64 = unit * (count as i64);
        let end: i64 = self.stride as i64 + size;
        -0x8000_0000 <= size && size <= 0x7FFF_FFFF && -0x8000_0000 <= end && end <= 0x7FFF_FFFF
    }

    /// Appends `count` unnormalized components tagged `el_type`.
    fn append(&mut self, el_type: u32, count: i32)
        requires
            supported(el_type),
            has_room(old(self)@, el_type, count),
        ensures
            final(self)@ == old(self)@.push((VertexBufferElement { el_type, count, normalized: false })),
            total_size(final(self)@) == total_size(old(self)@) + count * component_size(el_type),
    {
        proof {
            use_type_invariant(&*self);
        }
        let vbe = VertexBufferElement { el_type, count, normalized: false };
        let ghost before = self.elements@;
        let unit = vbe.type_size();
        assert(unit * count == vbe.byte_size()) by (nonlinear_arith)
            requires
                unit == component_size(vbe.el_type),
                vbe.byte_size() == count * component_size(vbe.el_type),
        ;
        let size = unit * count;
        proof {
            lemma_total_size_push(before, vbe);
            lemma_well_formed_push(before, vbe);
        }
        let mut taken = Self { elements: Vec::new(), stride: 0 };
        core::mem::swap(self, &mut taken);
        let stride = taken.stride + size;
        let mut elements = taken.elements;
        elements.push(vbe);
        *self = Self { elements, stride };
    }
}

impl Push<Float> for VertexBufferLayout {
    open spec fn el_type() -> u32 {
        FLOAT
    }

    fn fits(&self, count: i32) -> (ok: bool) {
        self.room_for(float(), count)
    }

    fn push(&mut self, count: i32) {
        self.append(float(), count);
    }
}

impl Push<u32> for VertexBufferLayout {
    open spec fn el_type() -> u32 {
        UNSIGNED_INT
    }

    fn fits(&self, count: i32) -> (ok: bool) {
        self.room_for(unsigned_int(), count)
    }

    fn push(&mut self, count: i32) {
        self.append(unsigned_int(), count);
    }
}

impl Push<u8> for VertexBufferLayout {
    open spec fn el_type() -> u32 {
        UNSIGNED_BYTE
    }

    fn fits(&self, count: i32) -> (ok: bool) {
        self.room_for(unsigned_byte(), count)
    }

    fn push(&mut self, count: i32) {
        self.append(unsigned_byte(), count);
    }
}

/// The size of a layout grows by the size of the attribute appended.
pub proof fn lemma_total_size_push(elements: Seq<VertexBufferElement>, element: VertexBufferElement)
    ensures
        total_size(elements.push(element)) == total_size(elements) + element.byte_size(),
{
    assert(elements.push(element).drop_last() == elements);
}

/// Appending a supported attribute whose size and end offset fit keeps a
/// layout well formed.
pub proof fn lemma_well_formed_push(elements: Seq<VertexBufferElement>, element: VertexBufferElement)
    requires
        well_formed(elements),
        supported(element.el_type),
        fits_i32(element.byte_size()),
        fits_i32(total_size(elements) + element.byte_size()),
    ensures
        well_formed(elements.push(element)),
{
    let extended = elements.push(element);
    lemma_total_size_push(elements, element);
    assert forall|i: int| 0 <= i <= extended.len() implies fits_i32(
        #[trigger] total_size(extended.take(i)),
    ) by {
        if i < extended.len() {
            assert(extended.take(i) == elements.take(i));
        } else {
            assert(extended.take(i) == extended);
        }
    }
    assert(elements.take(elements.len() as int) == elements);
}

} // verus!
