//! Textures: turning a decoded image into the bytes OpenGL takes, and the
//! handle of the texture object they are uploaded to.

use vstd::prelude::*;
use image::GenericImageView;
use crate::enums::{texture0, TEXTURE0};

verus! {

#[verifier::external_type_specification]
#[verifier::external_body]
pub struct ExDynamicImage(image::DynamicImage);

/// The width of a decoded image in pixels.
pub uninterp spec fn width_of(img: image::DynamicImage) -> nat;

/// The height of a decoded image in pixels.
pub uninterp spec fn height_of(img: image::DynamicImage) -> nat;

/// The pixels of a decoded image as 8-bit RGBA, four bytes per pixel, row by
/// row from the top row down.
pub uninterp spec fn rgba_of(img: image::DynamicImage) -> Seq<u8>;

/// `s`, read as `height` rows of `width` pixels of four bytes, with the
/// order of the rows reversed.
pub open spec fn flip_rows(s: Seq<u8>, width: nat, height: nat) -> Seq<u8> {
    let row_len = 4 * width as int;
    Seq::new(s.len(), |k: int| s[(height - 1 - k / row_len) * row_len + k % row_len])
}

/// Whether a vector can hold the RGBA pixels of a `width` by `height`
/// image: the bytes of one row can be counted, and those of all rows are no
/// more than a vector takes.
pub open spec fn holdable(width: nat, height: nat) -> bool {
    4 * width <= usize::MAX && 4 * width * height <= isize::MAX
}

/// Calls `width` on the image. Trusted: it returns the image's width.
#[verifier::external_body]
fn image_width(img: &image::DynamicImage) -> (width: u32)
    ensures
        width == width_of(*img),
{
    img.width()
}

/// Calls `height` on the image. Trusted: it returns the image's height.
#[verifier::external_body]
fn image_height(img: &image::DynamicImage) -> (height: u32)
    ensures
        height == height_of(*img),
{
    img.height()
}

/// Calls `flipv` on the image. Trusted: the result has the same size, and
/// the pixel at row `y` of the image is at row `height - 1 - y` of the
/// result, so its RGBA rows are those of the image in reverse order.
#[verifier::external_body]
fn flip_vertically(img: &image::DynamicImage) -> (flipped: image::DynamicImage)
    ensures
        width_of(flipped) == width_of(*img),
        height_of(flipped) == height_of(*img),
        rgba_of(flipped) == flip_rows(rgba_of(*img), width_of(*img), height_of(*img)),
{
    img.flipv()
}

/// Calls `to_rgba8` on the image and takes the buffer's bytes. Trusted: the
/// buffer holds four bytes for each pixel and nothing else. The call
/// multiplies 4 by the width and then by the height and panics where either
/// product is more than a `usize` holds, and its vector panics on more than
/// `isize::MAX` bytes, so such images are left out.
#[verifier::external_body]
fn rgba_bytes(img: &image::DynamicImage) -> (bytes: Vec<u8>)
    requires
        holdable(width_of(*img), height_of(*img)),
    ensures
        bytes@ == rgba_of(*img),
        bytes@.len() == 4 * width_of(*img) * height_of(*img),
{
    img.to_rgba8().into_raw()
}

/// Whether a vector can hold the RGBA pixels of a `width` by `height` image.
fn can_hold(width: u32, height: u32) -> (fits: bool)
    ensures
        fits == holdable(width as nat, height as nat),
{
    let row: u64 = 4 * (width as u64);
    assert(row * height <= 0x3_FFFF_FFFC * 0xFFFF_FFFF) by (nonlinear_arith)
        requires
            0 <= row <= 0x3_FFFF_FFFC,
            0 <= height <= 0xFFFF_FFFF,
    ;
    assert(4 * width * height == row * height) by (nonlinear_arith)
        requires
            row == 4 * width,
    ;
    let bytes: u128 = (row as u128) * (height as u128);
    row <= usize::MAX as u64 && bytes <= isize::MAX as u128
}

/// Width, height and pixels of `img` turned upside down, as 8-bit RGBA from
/// the bottom row up; `None` if a vector cannot hold the pixels.
pub fn flipped_rgba(img: &image::DynamicImage) -> (pixels: Option<(u32, u32, Vec<u8>)>)
    ensures
        !holdable(width_of(*img), height_of(*img)) ==> pixels is None,
        holdable(width_of(*img), height_of(*img)) ==> {
            &&& pixels matches Some((width, height, data))
            &&& width == width_of(*img)
            &&& height == height_of(*img)
            &&& data@.len() == 4 * width * height
            &&& data@ == flip_rows(rgba_of(*img), width as nat, height as nat)
        },
{
    let width = image_width(img);
    let height = image_height(img);
    if !can_hold(width, height) {
        return None;
    }
    let flipped = flip_vertically(img);
    let data = rgba_bytes(&flipped);
    Some((width, height, data))
}

/// The texture unit to make active and the texture to bind to it.
#[derive(Clone, Copy, Debug, PartialEq, Eq)]
pub struct TextureBinding {
    pub unit: u32,
    pub texture: u32,
}

/// A two-dimensional texture object and the size of its image.
pub struct Texture {
    filepath: String,
    render_id: u32,
    pub width: u32,
    pub height: u32,
}

impl Texture {
    /// The name OpenGL gave the texture.
    pub closed spec fn id(&self) -> u32 {
        self.render_id
    }

    /// The path of the image file.
    pub closed spec fn path(&self) -> Seq<char> {
        self.filepath@
    }

    /// Width and height of the image, as the fields have them.
    pub closed spec fn size(&self) -> (u32, u32) {
        (self.width, self.height)
    }

    /// The texture that OpenGL named `render_id`, holding the `width` by
    /// `height` image read from `filepath`.
    pub fn new(filepath: &str, render_id: u32, width: u32, height: u32) -> (texture: Self)
        ensures
            texture.id() == render_id,
            texture.path() == filepath@,
            texture.size() == (width, height),
    {
        Self { filepath: filepath.to_owned(), render_id, width, height }
    }

    /// The name OpenGL gave the texture.
    pub fn renderer_id(&self) -> (id: u32)
        ensures
            id == self.id(),
    {
        self.render_id
    }

    /// The width of the image in pixels.
    pub fn width(&self) -> (width: u32)
        ensures
            width == self.size().0,
    {
        self.width
    }

    /// The height of the image in pixels.
    pub fn height(&self) -> (height: u32)
        ensures
            height == self.size().1,
    {
        self.height
    }

    /// What binding the texture to texture unit number `slot` takes.
    pub fn bind_slot(&self, slot: u32) -> (binding: TextureBinding)
        requires
            TEXTURE0 + slot <= u32::MAX,
        ensures
            binding.unit == TEXTURE0 + slot,
            binding.texture == self.id(),
    {
        TextureBinding { unit: texture0() + slot, texture: self.render_id }
    }

    /// What binding the texture to the first texture unit takes.
    pub fn bind(&self) -> (binding: TextureBinding)
        ensures
            binding.unit == TEXTURE0,
            binding.texture == self.id(),
    {
        self.bind_slot(0)
    }
}

} // verus!
