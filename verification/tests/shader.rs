use glframe::shader::Shader;
use glframe::shader_source::parse_shader;
use std::cell::Cell;
use std::io::BufRead;

fn text(bytes: &[u8]) -> String {
    String::from_utf8(bytes.to_vec()).unwrap()
}

#[test]
fn parse_shader_splits_at_the_markers() {
    let source = "#shader vertex\nvoid main() {}\n#shader fragment\nout vec4 color;\nvoid main() {}\n";
    let parsed = parse_shader(source.as_bytes());
    assert_eq!(text(&parsed.vertex), "void main() {}\n\0");
    assert_eq!(text(&parsed.fragment), "out vec4 color;\nvoid main() {}\n\0");
}

#[test]
fn parse_shader_of_nothing_gives_two_empty_programs() {
    let parsed = parse_shader(b"");
    assert_eq!(parsed.vertex, vec![0]);
    assert_eq!(parsed.fragment, vec![0]);
}

#[test]
fn parse_shader_sends_leading_lines_to_the_vertex_program() {
    let parsed = parse_shader(b"a\nb\n#shader fragment\nc\n");
    assert_eq!(text(&parsed.vertex), "a\nb\n\0");
    assert_eq!(text(&parsed.fragment), "c\n\0");
}

#[test]
fn parse_shader_ends_an_unfinished_last_line() {
    let parsed = parse_shader(b"#shader fragment\nx\n#shader vertex\nlast");
    assert_eq!(text(&parsed.vertex), "last\n\0");
    assert_eq!(text(&parsed.fragment), "x\n\0");
}

#[test]
fn parse_shader_drops_carriage_returns_before_line_feeds() {
    let parsed = parse_shader(b"#shader vertex\r\na\r\n\r\n#shader fragment\r\nb\rc\r\nd\r");
    assert_eq!(text(&parsed.vertex), "a\n\n\0");
    assert_eq!(text(&parsed.fragment), "b\rc\nd\r\n\0");
}

#[test]
fn parse_shader_keeps_empty_lines_and_switches_back() {
    let parsed = parse_shader(b"\n\n#shader fragment\nf\n#shader vertex\nv\n#shader fragment\ng\n");
    assert_eq!(text(&parsed.vertex), "\n\nv\n\0");
    assert_eq!(text(&parsed.fragment), "f\ng\n\0");
}

#[test]
fn parse_shader_takes_only_exact_marker_lines() {
    let parsed = parse_shader(b" #shader fragment\n#shader fragment \n#shader vertexx\n#shader\n");
    assert_eq!(
        text(&parsed.vertex),
        " #shader fragment\n#shader fragment \n#shader vertexx\n#shader\n\0"
    );
    assert_eq!(parsed.fragment, vec![0]);
}

#[test]
fn parse_shader_matches_a_line_by_line_reading() {
    let source = "intro\r\n#shader vertex\nlayout(location = 0) in vec4 position;\n\nvoid main()\n{\n}\n#shader fragment\r\nuniform vec4 u_color;\nvoid main() { }";
    let mut vs: Vec<u8> = Vec::new();
    let mut fs: Vec<u8> = Vec::new();
    let mut to_fragment = false;
    for line in source.as_bytes().lines().map(|l| l.unwrap()) {
        match &line[..] {
            "#shader vertex" => to_fragment = false,
            "#shader fragment" => to_fragment = true,
            _ => {
                let active = if to_fragment { &mut fs } else { &mut vs };
                active.extend_from_slice(line.as_bytes());
                active.push(b'\n');
            }
        }
    }
    vs.push(0);
    fs.push(0);
    let parsed = parse_shader(source.as_bytes());
    assert_eq!(parsed.vertex, vs);
    assert_eq!(parsed.fragment, fs);
}

#[test]
fn new_shader_keeps_its_name() {
    let shader = Shader::new("res/shaders/basic.shader", 3);
    assert_eq!(shader.renderer_id(), 3);
}

#[test]
fn uniform_location_is_asked_once_per_name() {
    let calls = Cell::new(0);
    let mut shader = Shader::new("basic.shader", 11);
    let first = shader.get_uniform_location("u_mvp\0", |program, name| {
        calls.set(calls.get() + 1);
        assert_eq!(program, 11);
        assert_eq!(name, "u_mvp\0");
        4
    });
    assert_eq!(first, 4);
    let second = shader.get_uniform_location("u_mvp\0", |_, _| {
        calls.set(calls.get() + 1);
        99
    });
    assert_eq!(second, 4);
    assert_eq!(calls.get(), 1);
    let other = shader.get_uniform_location("u_color\0", |_, _| {
        calls.set(calls.get() + 1);
        5
    });
    assert_eq!(other, 5);
    assert_eq!(calls.get(), 2);
    assert_eq!(shader.get_uniform_location("u_color\0", |_, _| 0), 5);
    assert_eq!(shader.get_uniform_location("u_mvp\0", |_, _| 0), 4);
}

#[test]
fn missing_uniform_is_remembered_too() {
    let mut shader = Shader::new("basic.shader", 1);
    assert_eq!(shader.get_uniform_location("nope", |_, _| -1), -1);
    assert_eq!(shader.get_uniform_location("nope", |_, _| 7), -1);
}

#[test]
fn shader_type_name_of_each_kind() {
    assert_eq!(glframe::shader::shader_type_name(gl::VERTEX_SHADER), "vertex");
    assert_eq!(glframe::shader::shader_type_name(gl::FRAGMENT_SHADER), "fragment");
    assert_eq!(glframe::shader::shader_type_name(gl::GEOMETRY_SHADER), "unknown");
    assert_eq!(glframe::shader::shader_type_name(0), "unknown");
}

#[test]
fn info_log_text_reads_each_byte_as_a_code_point() {
    let log: &[i8] = &[69, 82, 82, 79, 82, 58, 32, 48, 10, 0];
    assert_eq!(glframe::shader::info_log_text(log), "ERROR: 0\n\0");
    assert_eq!(glframe::shader::info_log_text(&[-1, -128, 127]), "\u{ff}\u{80}\u{7f}");
    assert_eq!(glframe::shader::info_log_text(&[]), "");
}
