//! Splitting one shader file into its vertex and its fragment program.
//!
//! A file is read line by line. The line `#shader vertex` sends the lines
//! after it to the vertex program, `#shader fragment` to the fragment
//! program; lines before the first marker go to the vertex program.

use vstd::prelude::*;
use vstd::utf8::valid_utf8;

verus! {

/// The program a line of a shader file belongs to.
#[derive(Clone, Copy, Debug, PartialEq, Eq)]
pub enum Stage {
    Vertex,
    Fragment,
}

/// The two programs of one shader file, each ending in a zero byte.
pub struct ShaderSource {
    pub vertex: Vec<u8>,
    pub fragment: Vec<u8>,
}

/// The bytes of `#shader vertex`.
pub open spec fn vertex_marker() -> Seq<u8> {
    seq![35u8, 115, 104, 97, 100, 101, 114, 32, 118, 101, 114, 116, 101, 120]
}

/// The bytes of `#shader fragment`.
pub open spec fn fragment_marker() -> Seq<u8> {
    seq![35u8, 115, 104, 97, 100, 101, 114, 32, 102, 114, 97, 103, 109, 101, 110, 116]
}

/// Bytes from `from` up to the next line feed, or to the end of `s`.
pub open spec fn line_len(s: Seq<u8>, from: int) -> nat
    decreases s.len() - from,
{
    if from < 0 || from >= s.len() || s[from] == 10 {
        0
    } else {
        1 + line_len(s, from + 1)
    }
}

/// The line that starts at `from`, without its line feed and without the
/// carriage return before that line feed, if there is one.
pub open spec fn line_at(s: Seq<u8>, from: int) -> Seq<u8> {
    let end = from + line_len(s, from);
    if end < s.len() && from < end && s[end - 1] == 13 {
        s.subrange(from, end - 1)
    } else {
        s.subrange(from, end)
    }
}

/// The lines of `s` from position `from` on. A line feed ends a line; what
/// follows the last line feed is a line only if it is not empty.
pub open spec fn lines_from(s: Seq<u8>, from: int) -> Seq<Seq<u8>>
    decreases s.len() - from,
{
    if from < 0 || from >= s.len() {
        Seq::empty()
    } else {
        let next = from + line_len(s, from) + 1;
        if next < s.len() {
            seq![line_at(s, from)] + lines_from(s, next)
        } else {
            seq![line_at(s, from)]
        }
    }
}

/// The lines of `s`.
pub open spec fn lines(s: Seq<u8>) -> Seq<Seq<u8>> {
    lines_from(s, 0)
}

/// The program that a line after `lines` would go to.
pub open spec fn stage_after(lines: Seq<Seq<u8>>) -> Stage
    decreases lines.len(),
{
    if lines.len() == 0 {
        Stage::Vertex
    } else if lines.last() == vertex_marker() {
        Stage::Vertex
    } else if lines.last() == fragment_marker() {
        Stage::Fragment
    } else {
        stage_after(lines.drop_last())
    }
}

/// The text that `lines` hold for `stage`: each of its lines that is no
/// marker, followed by a line feed.
pub open spec fn stage_text(lines: Seq<Seq<u8>>, stage: Stage) -> Seq<u8>
    decreases lines.len(),
{
    if lines.len() == 0 {
        Seq::empty()
    } else {
        let before = lines.drop_last();
        let line = lines.last();
        if line != vertex_marker() && line != fragment_marker() && stage_after(before) == stage {
            stage_text(before, stage) + line + seq![10u8]
        } else {
            stage_text(before, stage)
        }
    }
}

/// Whether the bytes of `source` from `from` to `to` are those of `marker`.
fn is_marker(source: &[u8], from: usize, to: usize, marker: &[u8]) -> (same: bool)
    requires
        from <= to <= source@.len(),
    ensures
        same == (source@.subrange(from as int, to as int) == marker@),
{
    let len = to - from;
    if marker.len() != len {
        return false;
    }
    let mut k: usize = 0;
    while k < len
        invariant
            from <= to <= source@.len(),
            len == to - from,
            marker@.len() == len,
            k <= len,
            forall|j: int| 0 <= j < k ==> source@[from + j] == marker@[j],
        decreases len - k,
    {
        if source[from + k] != marker[k] {
            assert(source@.subrange(from as int, to as int)[k as int] != marker@[k as int]);
            return false;
        }
        k += 1;
    }
    assert(source@.subrange(from as int, to as int) =~= marker@);
    true
}

/// Appends the bytes of `source` from `from` to `to`, then a line feed.
fn push_line(text: &mut Vec<u8>, source: &[u8], from: usize, to: usize)
    requires
        from <= to <= source@.len(),
    ensures
        final(text)@ == old(text)@ + source@.subrange(from as int, to as int) + seq![10u8],
{
    let mut k = from;
    while k < to
        invariant
            from <= k <= to <= source@.len(),
            text@ == old(text)@ + source@.subrange(from as int, k as int),
        decreases to - k,
    {
        text.push(source[k]);
        k += 1;
        assert(text@ =~= old(text)@ + source@.subrange(from as int, k as int));
    }
    text.push(10);
    assert(text@ =~= old(text)@ + source@.subrange(from as int, to as int) + seq![10u8]);
}

/// The vertex and the fragment program held in the shader file `source`,
/// which is text.
pub fn parse_shader(source: &[u8]) -> (parsed: ShaderSource)
    requires
        valid_utf8(source@),
    ensures
        parsed.vertex@ == stage_text(lines(source@), Stage::Vertex).push(0),
        parsed.fragment@ == stage_text(lines(source@), Stage::Fragment).push(0),
{
    let vertex_mark: [u8; 14] = [35, 115, 104, 97, 100, 101, 114, 32, 118, 101, 114, 116, 101, 120];
    let fragment_mark: [u8; 16] = [
        35, 115, 104, 97, 100, 101, 114, 32, 102, 114, 97, 103, 109, 101, 110, 116,
    ];
    assert(vertex_mark@ =~= vertex_marker());
    assert(fragment_mark@ =~= fragment_marker());
    let n = source.len();
    let mut vertex: Vec<u8> = Vec::new();
    let mut fragment: Vec<u8> = Vec::new();
    let mut active = Stage::Vertex;
    let mut pos: usize = 0;
    let ghost mut done: Seq<Seq<u8>> = Seq::empty();
    while pos < n
        invariant
            n == source@.len(),
            pos <= n,
            vertex_mark@ == vertex_marker(),
            fragment_mark@ == fragment_marker(),
            lines(source@) == done + lines_from(source@, pos as int),
            active == stage_after(done),
            vertex@ == stage_text(done, Stage::Vertex),
            fragment@ == stage_text(done, Stage::Fragment),
        decreases n - pos,
    {
        let mut end = pos;
        while end < n && source[end] != 10
            invariant
                n == source@.len(),
                pos <= end <= n,
                line_len(source@, pos as int) == (end - pos) + line_len(source@, end as int),
            decreases n - end,
        {
            end += 1;
        }
        let text_end = if end < n && pos < end && source[end - 1] == 13 {
            end - 1
        } else {
            end
        };
        let ghost line = source@.subrange(pos as int, text_end as int);
        let ghost before = done;
        proof {
            assert(line == line_at(source@, pos as int));
            done = done.push(line);
            assert(done.drop_last() == before);
            assert(done + lines_from(source@, end + 1) =~= before + lines_from(source@, pos as int));
        }
        if is_marker(source, pos, text_end, vertex_mark.as_slice()) {
            active = Stage::Vertex;
        } else if is_marker(source, pos, text_end, fragment_mark.as_slice()) {
            active = Stage::Fragment;
        } else {
            match active {
                Stage::Vertex => push_line(&mut vertex, source, pos, text_end),
                Stage::Fragment => push_line(&mut fragment, source, pos, text_end),
            }
        }
        pos = if end < n {
            end + 1
        } else {
            n
        };
    }
    assert(lines(source@) == done);
    vertex.push(0);
    fragment.push(0);
    ShaderSource { vertex, fragment }
}

} // verus!
