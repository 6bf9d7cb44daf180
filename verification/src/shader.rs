//! The fixed shader pair and the rule that every source submitted for
//! compilation is headed by the GLSL version pragma.

use vstd::prelude::*;
use vstd::string::StringExecFns;

verus! {

/// The version pragma that heads every shader source handed to the GL
/// compiler.
pub open spec fn spec_version_pragma() -> Seq<char> {
    "#version 300 es"@
}

/// A shader source as submitted for compilation: the version pragma, a line
/// break, then the shader body.
pub open spec fn spec_with_version(body: Seq<char>) -> Seq<char> {
    spec_version_pragma() + "\n"@ + body
}

/// Holds when a source text starts with the version pragma followed by a
/// line break.
pub open spec fn starts_with_version_pragma(source: Seq<char>) -> bool {
    &&& source.len() > spec_version_pragma().len()
    &&& source.subrange(0, spec_version_pragma().len() as int) == spec_version_pragma()
    &&& source[spec_version_pragma().len() as int] == '\n'
}

/// Law: a source built by putting the version pragma in front of a body
/// starts with the pragma and a line break, whatever the body.
pub proof fn lemma_version_prefix(body: Seq<char>)
    ensures
        starts_with_version_pragma(spec_with_version(body)),
{
    reveal_strlit("#version 300 es");
    reveal_strlit("\n");
    assert(spec_with_version(body).subrange(0, spec_version_pragma().len() as int)
        =~= spec_version_pragma());
}

/// Builds the text submitted for compilation from a shader body: the version
/// pragma, a line break, then the body.
pub fn with_version_pragma(body: &str) -> (source: String)
    ensures
        source@ == spec_with_version(body@),
        starts_with_version_pragma(source@),
{
    let mut source: String = "#version 300 es".to_owned();
    source.append("\n");
    source.append(body);
    proof {
        lemma_version_prefix(body@);
    }
    source
}

/// The body of the vertex shader: places the three triangle corners and
/// hands the position on to the fragment stage.
pub open spec fn spec_vertex_shader_body() -> Seq<char> {
    r#"const vec2 verts[3] = vec2[3](
    vec2(0.5, 1.0),
    vec2(0.0, 0.0),
    vec2(1.0, 0.0)
);
out vec2 vert;
void main() {
    vert = verts[gl_VertexID];
    gl_Position = vec4(vert - 0.5, 0.0, 1.0);
}"#@
}

/// The body of the fragment shader: colours each pixel from the
/// interpolated vertex position.
pub open spec fn spec_fragment_shader_body() -> Seq<char> {
    r#"precision mediump float;
in vec2 vert;
out vec4 color;
void main() {
    color = vec4(vert, 0.5, 1.0);
}"#@
}

/// The full vertex shader source as submitted for compilation.
pub fn vertex_shader_source() -> (source: String)
    ensures
        source@ == spec_with_version(spec_vertex_shader_body()),
        starts_with_version_pragma(source@),
{
    with_version_pragma(
        r#"const vec2 verts[3] = vec2[3](
    vec2(0.5, 1.0),
    vec2(0.0, 0.0),
    vec2(1.0, 0.0)
);
out vec2 vert;
void main() {
    vert = verts[gl_VertexID];
    gl_Position = vec4(vert - 0.5, 0.0, 1.0);
}"#,
    )
}

/// The full fragment shader source as submitted for compilation.
pub fn fragment_shader_source() -> (source: String)
    ensures
        source@ == spec_with_version(spec_fragment_shader_body()),
        starts_with_version_pragma(source@),
{
    with_version_pragma(
        r#"precision mediump float;
in vec2 vert;
out vec4 color;
void main() {
    color = vec4(vert, 0.5, 1.0);
}"#,
    )
}

} // verus!
