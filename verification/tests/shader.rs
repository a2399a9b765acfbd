use luminance_gl::glenum;
use luminance_gl::shader::{
    bind_vertex_attribs_locations, bool_uniform_values, gl33_link_status, gl33_stage_status, webgl2_link_status,
    webgl2_stage_status, ProgramError, StageError, check_types_match, check_uniform_type_match, get_vertex_attrib_location,
    glsl_pragma_src, opengl_shader_type, patch_shader_src, texture_binding_uniform_type, uniform_block_index,
    uniform_location, uniform_type_match, webgl2_uniform_type_match, webgl_shader_type, PixelType, SemanticsDesc,
    StageType, UniformIndices, UniformType, UniformWarning, VertexAttribWarning,
};
use luminance_gl::texture::Dim;

#[test]
fn stage_types() {
    assert_eq!(opengl_shader_type(StageType::VertexShader), glenum::VERTEX_SHADER);
    assert_eq!(opengl_shader_type(StageType::TessellationControlShader), glenum::TESS_CONTROL_SHADER);
    assert_eq!(opengl_shader_type(StageType::TessellationEvaluationShader), glenum::TESS_EVALUATION_SHADER);
    assert_eq!(opengl_shader_type(StageType::GeometryShader), glenum::GEOMETRY_SHADER);
    assert_eq!(opengl_shader_type(StageType::FragmentShader), glenum::FRAGMENT_SHADER);
    assert_eq!(webgl_shader_type(StageType::VertexShader), Some(glenum::VERTEX_SHADER));
    assert_eq!(webgl_shader_type(StageType::FragmentShader), Some(glenum::FRAGMENT_SHADER));
    assert_eq!(webgl_shader_type(StageType::GeometryShader), None);
    assert_eq!(webgl_shader_type(StageType::TessellationControlShader), None);
}

#[test]
fn sources_get_the_glsl_prelude() {
    assert_eq!(
        glsl_pragma_src("void main() {}"),
        "#version 330 core\n#extension GL_ARB_separate_shader_objects : require\nlayout(std140) uniform;\nvoid main() {}"
    );
    assert_eq!(
        patch_shader_src("void main() {}"),
        "#version 300 es\nprecision highp float;\nprecision highp int;\n                           layout(std140) uniform;\nvoid main() {}"
    );
}

#[test]
fn gl33_uniform_types_are_checked() {
    assert_eq!(check_uniform_type_match("t", UniformType::Float, glenum::FLOAT), Ok(()));
    assert_eq!(check_uniform_type_match("t", UniformType::Sampler2D, glenum::SAMPLER_2D), Ok(()));
    assert_eq!(check_uniform_type_match("t", UniformType::Double, glenum::DOUBLE), Ok(()));
    assert_eq!(
        check_uniform_type_match("t", UniformType::Float, glenum::INT),
        Err(UniformWarning::TypeMismatch("t".to_string(), UniformType::Float))
    );
    assert_eq!(
        uniform_type_match("arr", UniformType::Int, 4, 3, glenum::INT),
        Err(UniformWarning::SizeMismatch { name: "arr".to_string(), size: 4, found_size: 3 })
    );
    // a size of zero is not checked
    assert_eq!(uniform_type_match("x", UniformType::Int, 0, 3, glenum::INT), Ok(()));
    assert_eq!(uniform_type_match("x", UniformType::Int, 3, 3, glenum::INT), Ok(()));
}

#[test]
fn webgl2_uniform_types_are_checked() {
    assert_eq!(check_types_match("t", UniformType::Vec3, glenum::FLOAT_VEC3), Ok(()));
    assert_eq!(
        check_types_match("t", UniformType::Double, glenum::DOUBLE),
        Err(UniformWarning::UnsupportedType("t".to_string(), UniformType::Double))
    );
    assert_eq!(
        check_types_match("t", UniformType::Sampler1D, glenum::SAMPLER_2D),
        Err(UniformWarning::UnsupportedType("t".to_string(), UniformType::Sampler1D))
    );
    assert_eq!(
        check_types_match("t", UniformType::Vec3, glenum::FLOAT_VEC4),
        Err(UniformWarning::TypeMismatch("t".to_string(), UniformType::Vec3))
    );
    // the size is always checked
    assert_eq!(
        webgl2_uniform_type_match("x", UniformType::Int, 0, 1, glenum::INT),
        Err(UniformWarning::SizeMismatch { name: "x".to_string(), size: 0, found_size: 1 })
    );
    assert_eq!(webgl2_uniform_type_match("x", UniformType::Int, 1, 1, glenum::INT), Ok(()));
}

#[test]
fn uniform_locations() {
    assert_eq!(uniform_location("u", 3), Ok(3));
    assert_eq!(uniform_location("u", -1), Err(UniformWarning::Inactive("u".to_string())));
    assert_eq!(uniform_block_index("b", 2), Ok(2));
    assert_eq!(uniform_block_index("b", u32::MAX), Err(UniformWarning::Inactive("b".to_string())));
}

#[test]
fn texture_bindings_get_the_matching_sampler_type() {
    assert_eq!(texture_binding_uniform_type(PixelType::NormUnsigned, Dim::Dim2), UniformType::Sampler2D);
    assert_eq!(texture_binding_uniform_type(PixelType::Floating, Dim::Cubemap), UniformType::Cubemap);
    assert_eq!(texture_binding_uniform_type(PixelType::Integral, Dim::Dim3), UniformType::ISampler3D);
    assert_eq!(texture_binding_uniform_type(PixelType::Unsigned, Dim::Dim2Array), UniformType::UISampler2DArray);
    assert_eq!(texture_binding_uniform_type(PixelType::NormIntegral, Dim::Dim1Array), UniformType::Sampler1DArray);
    assert_eq!(texture_binding_uniform_type(PixelType::Unsigned, Dim::Cubemap), UniformType::UICubemap);
}

#[test]
fn vertex_attributes_are_bound_to_their_semantics() {
    assert_eq!(get_vertex_attrib_location("co", 2), Ok(2));
    assert_eq!(get_vertex_attrib_location("co", -1), Err(VertexAttribWarning::Inactive("co".to_string())));

    let semantics = vec![
        SemanticsDesc { index: 0, name: "co".to_string() },
        SemanticsDesc { index: 1, name: "color".to_string() },
        SemanticsDesc { index: 2, name: "weight".to_string() },
    ];
    let (binds, warnings) = bind_vertex_attribs_locations(&semantics, &vec![0, -1, 5]);
    assert_eq!(binds, vec![(0, 0), (2, 2)]);
    assert_eq!(warnings, vec![VertexAttribWarning::Inactive("color".to_string())]);
}

#[test]
fn gl33_stages_and_programs() {
    assert_eq!(gl33_stage_status(StageType::VertexShader, true, 1, ""), Ok(()));
    assert_eq!(
        gl33_stage_status(StageType::VertexShader, false, 1, "ignored"),
        Err(StageError::CompilationFailed(StageType::VertexShader, "unable to create shader stage".to_string()))
    );
    assert_eq!(
        gl33_stage_status(StageType::FragmentShader, true, 0, "0:1: syntax error"),
        Err(StageError::CompilationFailed(StageType::FragmentShader, "0:1: syntax error".to_string()))
    );
    assert_eq!(gl33_link_status(1, ""), Ok(()));
    assert_eq!(gl33_link_status(0, "bad link"), Err(ProgramError::LinkFailed("bad link".to_string())));
}

#[test]
fn webgl2_stages_and_programs() {
    assert_eq!(webgl2_stage_status(StageType::VertexShader, true, Some(true), None), Ok(()));
    assert_eq!(
        webgl2_stage_status(StageType::GeometryShader, true, Some(true), None),
        Err(StageError::CompilationFailed(StageType::GeometryShader, "unsupported shader type".to_string()))
    );
    assert_eq!(
        webgl2_stage_status(StageType::FragmentShader, false, None, None),
        Err(StageError::CompilationFailed(StageType::FragmentShader, "unable to create shader stage".to_string()))
    );
    assert_eq!(
        webgl2_stage_status(StageType::FragmentShader, true, None, None),
        Err(StageError::CompilationFailed(
            StageType::FragmentShader,
            "cannot determine compilation status".to_string()
        ))
    );
    assert_eq!(
        webgl2_stage_status(StageType::FragmentShader, true, Some(false), None),
        Err(StageError::CompilationFailed(StageType::FragmentShader, "no compilation error".to_string()))
    );
    assert_eq!(
        webgl2_stage_status(StageType::FragmentShader, true, Some(false), Some("oops".to_string())),
        Err(StageError::CompilationFailed(StageType::FragmentShader, "oops".to_string()))
    );
    assert_eq!(
        webgl2_link_status(false, Some(true), None),
        Err(ProgramError::CreationFailed("unable to allocate GPU shader program".to_string()))
    );
    assert_eq!(webgl2_link_status(true, None, None), Err(ProgramError::LinkFailed("unknown link status".to_string())));
    assert_eq!(webgl2_link_status(true, Some(true), None), Ok(()));
    assert_eq!(
        webgl2_link_status(true, Some(false), None),
        Err(ProgramError::LinkFailed("unknown link error".to_string()))
    );
    assert_eq!(
        webgl2_link_status(true, Some(false), Some("log".to_string())),
        Err(ProgramError::LinkFailed("log".to_string()))
    );
}

#[test]
fn boolean_uniforms_are_sent_as_integers() {
    assert_eq!(bool_uniform_values(&[true, false, true]), vec![1, 0, 1]);
    assert_eq!(bool_uniform_values(&[]), Vec::<u32>::new());
}

#[test]
fn uniform_indices_grow_with_each_found_uniform() {
    let mut indices = UniformIndices::new();
    assert_eq!(indices.ask_uniform("t", true), Ok(0));
    assert_eq!(indices.ask_uniform("missing", false), Err(UniformWarning::Inactive("missing".to_string())));
    assert_eq!(indices.ask_uniform("aspect_ratio", true), Ok(1));
    assert_eq!(indices.ask_uniform("view", true), Ok(2));
}
