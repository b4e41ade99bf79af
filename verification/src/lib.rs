//! The bookkeeping behind a small OpenGL scaffold: vertex layouts and the
//! attribute pointers they give rise to, shader files and uniform locations,
//! texture images, the frame counter and the menu of demo scenes. No
//! function here talks to OpenGL; each says what to hand to it.
//!
//! The logic is verified. What it takes from outside is not: the readers of
//! the `gl` enumerants in `enums`, the calls into `image` in `texture` and
//! the one call of `String::push` in `shader` are small wrappers whose
//! contracts are believed, each with a comment that says what it claims.

pub mod enums;
pub mod fps;
pub mod index_buffer;
pub mod matrix;
pub mod menu;
pub mod shader;
pub mod shader_source;
pub mod texture;
pub mod vertex_array;
pub mod vertex_buffer;
pub mod vertex_buffer_layout;

pub use index_buffer::IndexBuffer;
pub use menu::TestMenu;
pub use shader::Shader;
pub use texture::Texture;
pub use vertex_array::{BufferBinding, VertexArray, VertexAttribute};
pub use vertex_buffer::VertexBuffer;
pub use vertex_buffer_layout::{Float, Push, VertexBufferElement, VertexBufferLayout};
