//! A linked shader program and the uniform locations already asked for.

use vstd::prelude::*;
use vstd::hash_map::StringHashMap;
use crate::enums::{fragment_shader, vertex_shader, FRAGMENT_SHADER, VERTEX_SHADER};

verus! {

/// What to call a shader of kind `shader_type` in a message.
pub open spec fn kind_name(shader_type: u32) -> Seq<char> {
    if shader_type == VERTEX_SHADER {
        "vertex"@
    } else if shader_type == FRAGMENT_SHADER {
        "fragment"@
    } else {
        "unknown"@
    }
}

/// What to call a shader of kind `shader_type` in a message.
pub fn shader_type_name(shader_type: u32) -> (name: &'static str)
    ensures
        name@ == kind_name(shader_type),
{
    if shader_type == vertex_shader() {
        "vertex"
    } else if shader_type == fragment_shader() {
        "fragment"
    } else {
        "unknown"
    }
}

/// The character that one byte of an info log stands for: the one whose
/// code point is the byte read as unsigned.
pub open spec fn log_char(byte: i8) -> char {
    (byte as u8) as char
}

/// Calls `String::push`. Trusted: it appends `c` to the string.
#[verifier::external_body]
fn push_char(text: &mut String, c: char)
    ensures
        final(text)@ == old(text)@.push(c),
{
    text.push(c)
}

/// The text of the info log `message`, one character for each byte.
pub fn info_log_text(message: &[i8]) -> (text: String)
    ensures
        text@ == message@.map_values(|byte: i8| log_char(byte)),
{
    let mut text = String::new();
    let n = message.len();
    for k in 0..n
        invariant
            n == message@.len(),
            text@ == message@.take(k as int).map_values(|byte: i8| log_char(byte)),
    {
        let byte = #[verifier::truncate] (message[k] as u8);
        push_char(&mut text, byte as char);
        assert(text@ =~= message@.take(k + 1).map_values(|byte: i8| log_char(byte)));
    }
    assert(message@.take(n as int) == message@);
    text
}

/// A shader program with a cache of its uniform locations by name.
pub struct Shader {
    filepath: String,
    renderer_id: u32,
    uniform_location_cache: StringHashMap<i32>,
}

impl Shader {
    /// The name OpenGL gave the program.
    pub closed spec fn id(&self) -> u32 {
        self.renderer_id
    }

    /// The path of the file the program was read from.
    pub closed spec fn path(&self) -> Seq<char> {
        self.filepath@
    }

    /// The locations known so far, by uniform name.
    pub closed spec fn cache(&self) -> Map<Seq<char>, i32> {
        self.uniform_location_cache@
    }

    /// The program that OpenGL named `renderer_id`, read from `filepath`,
    /// with no location known yet.
    pub fn new(filepath: &str, renderer_id: u32) -> (shader: Self)
        ensures
            shader.id() == renderer_id,
            shader.path() == filepath@,
            shader.cache() == Map::<Seq<char>, i32>::empty(),
    {
        Self {
            filepath: filepath.to_owned(),
            renderer_id,
            uniform_location_cache: StringHashMap::new(),
        }
    }

    /// The name OpenGL gave the program.
    pub fn renderer_id(&self) -> (id: u32)
        ensures
            id == self.id(),
    {
        self.renderer_id
    }

    /// The location of the uniform `name`. A name seen before is answered
    /// from the cache and `query` is not called; a new name is asked of
    /// `query`, with the program's name, and the answer is remembered.
    pub fn get_uniform_location<F: FnOnce(u32, &str) -> i32>(
        &mut self,
        name: &str,
        query: F,
    ) -> (location: i32)
        requires
            !old(self).cache().contains_key(name@) ==> query.requires((old(self).id(), name)),
        ensures
            final(self).id() == old(self).id(),
            final(self).path() == old(self).path(),
            old(self).cache().contains_key(name@) ==> {
                &&& location == old(self).cache()[name@]
                &&& final(self).cache() == old(self).cache()
            },
            !old(self).cache().contains_key(name@) ==> {
                &&& query.ensures((old(self).id(), name), location)
                &&& final(self).cache() == old(self).cache().insert(name@, location)
            },
    {
        match self.uniform_location_cache.get(name) {
            Some(location) => *location,
            None => {
                let location = query(self.renderer_id, name);
                self.uniform_location_cache.insert(name.to_owned(), location);
                location
            },
        }
    }
}

} // verus!
