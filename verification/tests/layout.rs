use glframe::enums::{FALSE, FLOAT, TRUE, UNSIGNED_BYTE, UNSIGNED_INT};
use glframe::{Float, VertexArray, VertexBuffer, VertexBufferElement, VertexBufferLayout};

#[test]
fn enumerants_match_the_bindings() {
    assert_eq!(FLOAT, gl::FLOAT);
    assert_eq!(UNSIGNED_INT, gl::UNSIGNED_INT);
    assert_eq!(UNSIGNED_BYTE, gl::UNSIGNED_BYTE);
    assert_eq!(TRUE, gl::TRUE);
    assert_eq!(FALSE, gl::FALSE);
    assert_eq!(glframe::enums::TEXTURE0, gl::TEXTURE0);
    assert_eq!(glframe::enums::VERTEX_SHADER, gl::VERTEX_SHADER);
    assert_eq!(glframe::enums::FRAGMENT_SHADER, gl::FRAGMENT_SHADER);
}

#[test]
fn type_size_of_each_component_type() {
    let float = VertexBufferElement { el_type: gl::FLOAT, count: 3, normalized: false };
    let uint = VertexBufferElement { el_type: gl::UNSIGNED_INT, count: 1, normalized: false };
    let byte = VertexBufferElement { el_type: gl::UNSIGNED_BYTE, count: 4, normalized: true };
    assert_eq!(float.type_size(), 4);
    assert_eq!(uint.type_size(), 4);
    assert_eq!(byte.type_size(), 1);
}

#[test]
fn new_layout_is_empty() {
    let layout = VertexBufferLayout::new();
    assert_eq!(layout.get_stride(), 0);
    assert!(layout.get_elements().is_empty());
}

#[test]
fn push_appends_and_grows_the_stride() {
    let mut layout = VertexBufferLayout::new();
    layout.push::<Float>(2);
    assert_eq!(layout.get_stride(), 8);
    layout.push::<Float>(2);
    assert_eq!(layout.get_stride(), 16);
    layout.push::<u32>(1);
    assert_eq!(layout.get_stride(), 20);
    layout.push::<u8>(3);
    assert_eq!(layout.get_stride(), 23);
    let elements = layout.get_elements();
    assert_eq!(elements.len(), 4);
    assert_eq!(
        elements[0],
        VertexBufferElement { el_type: gl::FLOAT, count: 2, normalized: false }
    );
    assert_eq!(
        elements[1],
        VertexBufferElement { el_type: gl::FLOAT, count: 2, normalized: false }
    );
    assert_eq!(
        elements[2],
        VertexBufferElement { el_type: gl::UNSIGNED_INT, count: 1, normalized: false }
    );
    assert_eq!(
        elements[3],
        VertexBufferElement { el_type: gl::UNSIGNED_BYTE, count: 3, normalized: false }
    );
}

#[test]
fn push_of_zero_components_keeps_the_stride() {
    let mut layout = VertexBufferLayout::new();
    layout.push::<Float>(0);
    assert_eq!(layout.get_stride(), 0);
    assert_eq!(layout.get_elements().len(), 1);
}

#[test]
fn push_up_to_the_largest_stride() {
    let mut layout = VertexBufferLayout::new();
    layout.push::<u8>(i32::MAX);
    assert_eq!(layout.get_stride(), i32::MAX);
}

#[test]
fn add_buffer_lays_attributes_end_to_end() {
    let mut layout = VertexBufferLayout::new();
    layout.push::<Float>(2);
    layout.push::<Float>(2);
    layout.push::<u8>(4);
    layout.push::<u32>(1);
    let va = VertexArray::new(7);
    let vb = VertexBuffer::new(9);
    let binding = va.add_buffer(&vb, layout);
    assert_eq!(binding.array, 7);
    assert_eq!(binding.buffer, 9);
    let offsets: Vec<i32> = binding.attributes.iter().map(|a| a.offset).collect();
    assert_eq!(offsets, vec![0, 8, 16, 20]);
    for (i, attribute) in binding.attributes.iter().enumerate() {
        assert_eq!(attribute.index, i as u32);
        assert_eq!(attribute.stride, 24);
        assert_eq!(attribute.normalized, gl::FALSE);
    }
    assert_eq!(binding.attributes[0].count, 2);
    assert_eq!(binding.attributes[0].el_type, gl::FLOAT);
    assert_eq!(binding.attributes[2].count, 4);
    assert_eq!(binding.attributes[2].el_type, gl::UNSIGNED_BYTE);
    assert_eq!(binding.attributes[3].count, 1);
    assert_eq!(binding.attributes[3].el_type, gl::UNSIGNED_INT);
}

#[test]
fn add_buffer_of_an_empty_layout_has_no_attributes() {
    let va = VertexArray::new(1);
    let vb = VertexBuffer::new(2);
    let binding = va.add_buffer(&vb, VertexBufferLayout::new());
    assert_eq!(binding.array, 1);
    assert_eq!(binding.buffer, 2);
    assert!(binding.attributes.is_empty());
}

#[test]
fn fits_tells_when_the_stride_would_overflow() {
    let mut layout = VertexBufferLayout::new();
    assert!(layout.fits::<Float>(2));
    assert!(layout.fits::<u8>(i32::MAX));
    assert!(layout.fits::<u8>(i32::MIN));
    assert!(layout.fits::<Float>(i32::MAX / 4));
    assert!(!layout.fits::<Float>(i32::MAX / 4 + 1));
    assert!(!layout.fits::<u32>(i32::MIN));
    layout.push::<u8>(i32::MAX - 3);
    assert!(layout.fits::<u8>(3));
    assert!(!layout.fits::<u8>(4));
    assert!(!layout.fits::<Float>(1));
    assert!(layout.fits::<Float>(0));
    assert!(layout.fits::<u32>(-5));
    layout.push::<u32>(-5);
    assert_eq!(layout.get_stride(), i32::MAX - 23);
}
