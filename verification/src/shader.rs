//! Shader stages and uniforms: stage types, shader sources, uniform type checking.
use vstd::prelude::*;

use crate::glenum;
use crate::texture::Dim;
use vstd::string::StringExecFns;

verus! {

/// A shader stage.
#[derive(Clone, Copy, Debug, PartialEq, Eq, Structural)]
pub enum StageType {
    VertexShader,
    TessellationControlShader,
    TessellationEvaluationShader,
    GeometryShader,
    FragmentShader,
}

/// The GL shader type of a stage.
pub open spec fn stage_glenum(t: StageType) -> u32 {
    match t {
        StageType::TessellationControlShader => glenum::TESS_CONTROL_SHADER,
        StageType::TessellationEvaluationShader => glenum::TESS_EVALUATION_SHADER,
        StageType::VertexShader => glenum::VERTEX_SHADER,
        StageType::GeometryShader => glenum::GEOMETRY_SHADER,
        StageType::FragmentShader => glenum::FRAGMENT_SHADER,
    }
}

/// The OpenGL shader type of a stage.
pub fn opengl_shader_type(t: StageType) -> (r: u32)
    ensures
        r == stage_glenum(t),
{
    match t {
        StageType::TessellationControlShader => glenum::TESS_CONTROL_SHADER,
        StageType::TessellationEvaluationShader => glenum::TESS_EVALUATION_SHADER,
        StageType::VertexShader => glenum::VERTEX_SHADER,
        StageType::GeometryShader => glenum::GEOMETRY_SHADER,
        StageType::FragmentShader => glenum::FRAGMENT_SHADER,
    }
}

/// The WebGL 2 shader type of a stage; WebGL 2 only has vertex and fragment shaders.
pub fn webgl_shader_type(t: StageType) -> (r: Option<u32>)
    ensures
        r == (match t {
            StageType::VertexShader => Some(glenum::VERTEX_SHADER),
            StageType::FragmentShader => Some(glenum::FRAGMENT_SHADER),
            _ => None,
        }),
{
    match t {
        StageType::VertexShader => Some(glenum::VERTEX_SHADER),
        StageType::FragmentShader => Some(glenum::FRAGMENT_SHADER),
        _ => None,
    }
}

/// Why a shader stage could not be made.
#[derive(Clone, Debug, PartialEq, Eq)]
pub enum StageError {
    /// The stage failed to compile; the reason is the compiler's log or a description.
    CompilationFailed(StageType, String),
}

/// Why a shader program could not be made.
#[derive(Clone, Debug, PartialEq, Eq)]
pub enum ProgramError {
    /// The program object could not be created.
    CreationFailed(String),
    /// The program failed to link; the reason is the linker's log or a description.
    LinkFailed(String),
}

/// The outcome of making an OpenGL 3.3 stage of type `ty`: `created` tells whether the context
/// handed out a shader object, `compiled` is the compile status it reports and `log` its info
/// log.
pub fn gl33_stage_status(ty: StageType, created: bool, compiled: i32, log: &str) -> (r: Result<(), StageError>)
    ensures
        !created ==> (r matches Err(StageError::CompilationFailed(t, m)) && t == ty
            && m@ == "unable to create shader stage"@),
        created && compiled == glenum::TRUE ==> r is Ok,
        created && compiled != glenum::TRUE ==> (r matches Err(StageError::CompilationFailed(t, m)) && t == ty
            && m@ == log@),
{
    if !created {
        Err(StageError::CompilationFailed(ty, "unable to create shader stage".to_owned()))
    } else if compiled == glenum::TRUE as i32 {
        Ok(())
    } else {
        Err(StageError::CompilationFailed(ty, log.to_owned()))
    }
}

/// The outcome of making a WebGL 2 stage of type `ty`: the stage type must exist in WebGL 2;
/// `created` tells whether the context handed out a shader object, `compiled` is the compile
/// status it reports (if it reports one) and `log` its info log (if any).
pub fn webgl2_stage_status(ty: StageType, created: bool, compiled: Option<bool>, log: Option<String>) -> (r: Result<
    (),
    StageError,
>)
    ensures
        ({
            let reason = if !(ty is VertexShader || ty is FragmentShader) {
                Some("unsupported shader type"@)
            } else if !created {
                Some("unable to create shader stage"@)
            } else if compiled is None {
                Some("cannot determine compilation status"@)
            } else if compiled == Some(true) {
                None
            } else if log is None {
                Some("no compilation error"@)
            } else {
                Some(log.unwrap()@)
            };
            &&& reason is None ==> r is Ok
            &&& reason is Some ==> (r matches Err(StageError::CompilationFailed(t, m)) && t == ty && m@
                == reason.unwrap())
        }),
{
    if webgl_shader_type(ty).is_none() {
        return Err(StageError::CompilationFailed(ty, "unsupported shader type".to_owned()));
    }
    if !created {
        return Err(StageError::CompilationFailed(ty, "unable to create shader stage".to_owned()));
    }
    match compiled {
        None => Err(StageError::CompilationFailed(ty, "cannot determine compilation status".to_owned())),
        Some(true) => Ok(()),
        Some(false) => match log {
            None => Err(StageError::CompilationFailed(ty, "no compilation error".to_owned())),
            Some(l) => Err(StageError::CompilationFailed(ty, l)),
        },
    }
}

/// The outcome of linking an OpenGL 3.3 program, from the link status the context reports and
/// its info log.
pub fn gl33_link_status(linked: i32, log: &str) -> (r: Result<(), ProgramError>)
    ensures
        linked == glenum::TRUE ==> r is Ok,
        linked != glenum::TRUE ==> (r matches Err(ProgramError::LinkFailed(m)) && m@ == log@),
{
    if linked == glenum::TRUE as i32 {
        Ok(())
    } else {
        Err(ProgramError::LinkFailed(log.to_owned()))
    }
}

/// The outcome of making and linking a WebGL 2 program: `created` tells whether the context
/// handed out a program object, `linked` is the link status it reports (if it reports one) and
/// `log` its info log (if any).
pub fn webgl2_link_status(created: bool, linked: Option<bool>, log: Option<String>) -> (r: Result<(), ProgramError>)
    ensures
        !created ==> (r matches Err(ProgramError::CreationFailed(m)) && m@ == "unable to allocate GPU shader program"@),
        created && linked is None ==> (r matches Err(ProgramError::LinkFailed(m)) && m@ == "unknown link status"@),
        created && linked == Some(true) ==> r is Ok,
        created && linked == Some(false) ==> (r matches Err(ProgramError::LinkFailed(m)) && m@ == (match log {
            Some(l) => l@,
            None => "unknown link error"@,
        })),
{
    if !created {
        return Err(ProgramError::CreationFailed("unable to allocate GPU shader program".to_owned()));
    }
    match linked {
        None => Err(ProgramError::LinkFailed("unknown link status".to_owned())),
        Some(true) => Ok(()),
        Some(false) => match log {
            Some(l) => Err(ProgramError::LinkFailed(l)),
            None => Err(ProgramError::LinkFailed("unknown link error".to_owned())),
        },
    }
}

/// Type of a uniform, as a shader interface declares it.
#[derive(Clone, Copy, Debug, PartialEq, Eq, Structural)]
pub enum UniformType {
    Int,
    UInt,
    Float,
    Double,
    Bool,
    IVec2,
    IVec3,
    IVec4,
    UIVec2,
    UIVec3,
    UIVec4,
    Vec2,
    Vec3,
    Vec4,
    DVec2,
    DVec3,
    DVec4,
    BVec2,
    BVec3,
    BVec4,
    M22,
    M33,
    M44,
    DM22,
    DM33,
    DM44,
    ISampler1D,
    ISampler2D,
    ISampler3D,
    ISampler1DArray,
    ISampler2DArray,
    UISampler1D,
    UISampler2D,
    UISampler3D,
    UISampler1DArray,
    UISampler2DArray,
    Sampler1D,
    Sampler2D,
    Sampler3D,
    Sampler1DArray,
    Sampler2DArray,
    ICubemap,
    UICubemap,
    Cubemap,
    ShaderDataBinding,
}

/// How the texels of a texture are sampled in shaders.
#[derive(Clone, Copy, Debug, PartialEq, Eq, Structural)]
pub enum PixelType {
    /// Signed integers, normalized to [-1, 1].
    NormIntegral,
    /// Unsigned integers, normalized to [0, 1].
    NormUnsigned,
    /// Signed integers.
    Integral,
    /// Unsigned integers.
    Unsigned,
    /// Floating-point numbers.
    Floating,
}

/// The sampler uniform type that binds a texture of dimension `dim` sampled as `pixel`: integral
/// textures get an integer sampler, unsigned ones an unsigned-integer sampler, and the others
/// (normalized or floating) a plain sampler.
pub open spec fn sampler_type_spec(pixel: PixelType, dim: Dim) -> UniformType {
    match pixel {
        PixelType::Integral => match dim {
            Dim::Dim1 => UniformType::ISampler1D,
            Dim::Dim2 => UniformType::ISampler2D,
            Dim::Dim3 => UniformType::ISampler3D,
            Dim::Cubemap => UniformType::ICubemap,
            Dim::Dim1Array => UniformType::ISampler1DArray,
            Dim::Dim2Array => UniformType::ISampler2DArray,
        },
        PixelType::Unsigned => match dim {
            Dim::Dim1 => UniformType::UISampler1D,
            Dim::Dim2 => UniformType::UISampler2D,
            Dim::Dim3 => UniformType::UISampler3D,
            Dim::Cubemap => UniformType::UICubemap,
            Dim::Dim1Array => UniformType::UISampler1DArray,
            Dim::Dim2Array => UniformType::UISampler2DArray,
        },
        _ => match dim {
            Dim::Dim1 => UniformType::Sampler1D,
            Dim::Dim2 => UniformType::Sampler2D,
            Dim::Dim3 => UniformType::Sampler3D,
            Dim::Cubemap => UniformType::Cubemap,
            Dim::Dim1Array => UniformType::Sampler1DArray,
            Dim::Dim2Array => UniformType::Sampler2DArray,
        },
    }
}

/// The uniform type of a texture binding, from how the texture is sampled and its dimension.
pub fn texture_binding_uniform_type(pixel: PixelType, dim: Dim) -> (r: UniformType)
    ensures
        r == sampler_type_spec(pixel, dim),
{
    match (pixel, dim) {
        (PixelType::NormIntegral, Dim::Dim1) => UniformType::Sampler1D,
        (PixelType::NormUnsigned, Dim::Dim1) => UniformType::Sampler1D,
        (PixelType::Integral, Dim::Dim1) => UniformType::ISampler1D,
        (PixelType::Unsigned, Dim::Dim1) => UniformType::UISampler1D,
        (PixelType::Floating, Dim::Dim1) => UniformType::Sampler1D,
        (PixelType::NormIntegral, Dim::Dim2) => UniformType::Sampler2D,
        (PixelType::NormUnsigned, Dim::Dim2) => UniformType::Sampler2D,
        (PixelType::Integral, Dim::Dim2) => UniformType::ISampler2D,
        (PixelType::Unsigned, Dim::Dim2) => UniformType::UISampler2D,
        (PixelType::Floating, Dim::Dim2) => UniformType::Sampler2D,
        (PixelType::NormIntegral, Dim::Dim3) => UniformType::Sampler3D,
        (PixelType::NormUnsigned, Dim::Dim3) => UniformType::Sampler3D,
        (PixelType::Integral, Dim::Dim3) => UniformType::ISampler3D,
        (PixelType::Unsigned, Dim::Dim3) => UniformType::UISampler3D,
        (PixelType::Floating, Dim::Dim3) => UniformType::Sampler3D,
        (PixelType::NormIntegral, Dim::Cubemap) => UniformType::Cubemap,
        (PixelType::NormUnsigned, Dim::Cubemap) => UniformType::Cubemap,
        (PixelType::Integral, Dim::Cubemap) => UniformType::ICubemap,
        (PixelType::Unsigned, Dim::Cubemap) => UniformType::UICubemap,
        (PixelType::Floating, Dim::Cubemap) => UniformType::Cubemap,
        (PixelType::NormIntegral, Dim::Dim1Array) => UniformType::Sampler1DArray,
        (PixelType::NormUnsigned, Dim::Dim1Array) => UniformType::Sampler1DArray,
        (PixelType::Integral, Dim::Dim1Array) => UniformType::ISampler1DArray,
        (PixelType::Unsigned, Dim::Dim1Array) => UniformType::UISampler1DArray,
        (PixelType::Floating, Dim::Dim1Array) => UniformType::Sampler1DArray,
        (PixelType::NormIntegral, Dim::Dim2Array) => UniformType::Sampler2DArray,
        (PixelType::NormUnsigned, Dim::Dim2Array) => UniformType::Sampler2DArray,
        (PixelType::Integral, Dim::Dim2Array) => UniformType::ISampler2DArray,
        (PixelType::Unsigned, Dim::Dim2Array) => UniformType::UISampler2DArray,
        (PixelType::Floating, Dim::Dim2Array) => UniformType::Sampler2DArray,
    }
}

/// The GL type that an OpenGL 3.3 program reports for a uniform of the given type, when the
/// backend supports that type.
pub open spec fn gl33_uniform_glenum(ty: UniformType) -> Option<u32> {
    match ty {
        UniformType::Int => Some(glenum::INT),
        UniformType::UInt => Some(glenum::UNSIGNED_INT),
        UniformType::Float => Some(glenum::FLOAT),
        UniformType::Double => Some(glenum::DOUBLE),
        UniformType::Bool => Some(glenum::BOOL),
        UniformType::IVec2 => Some(glenum::INT_VEC2),
        UniformType::IVec3 => Some(glenum::INT_VEC3),
        UniformType::IVec4 => Some(glenum::INT_VEC4),
        UniformType::UIVec2 => Some(glenum::UNSIGNED_INT_VEC2),
        UniformType::UIVec3 => Some(glenum::UNSIGNED_INT_VEC3),
        UniformType::UIVec4 => Some(glenum::UNSIGNED_INT_VEC4),
        UniformType::Vec2 => Some(glenum::FLOAT_VEC2),
        UniformType::Vec3 => Some(glenum::FLOAT_VEC3),
        UniformType::Vec4 => Some(glenum::FLOAT_VEC4),
        UniformType::DVec2 => Some(glenum::DOUBLE_VEC2),
        UniformType::DVec3 => Some(glenum::DOUBLE_VEC3),
        UniformType::DVec4 => Some(glenum::DOUBLE_VEC4),
        UniformType::BVec2 => Some(glenum::BOOL_VEC2),
        UniformType::BVec3 => Some(glenum::BOOL_VEC3),
        UniformType::BVec4 => Some(glenum::BOOL_VEC4),
        UniformType::M22 => Some(glenum::FLOAT_MAT2),
        UniformType::M33 => Some(glenum::FLOAT_MAT3),
        UniformType::M44 => Some(glenum::FLOAT_MAT4),
        UniformType::DM22 => Some(glenum::DOUBLE_MAT2),
        UniformType::DM33 => Some(glenum::DOUBLE_MAT3),
        UniformType::DM44 => Some(glenum::DOUBLE_MAT4),
        UniformType::ISampler1D => Some(glenum::INT_SAMPLER_1D),
        UniformType::ISampler2D => Some(glenum::INT_SAMPLER_2D),
        UniformType::ISampler3D => Some(glenum::INT_SAMPLER_3D),
        UniformType::ISampler1DArray => Some(glenum::INT_SAMPLER_1D_ARRAY),
        UniformType::ISampler2DArray => Some(glenum::INT_SAMPLER_2D_ARRAY),
        UniformType::UISampler1D => Some(glenum::UNSIGNED_INT_SAMPLER_1D),
        UniformType::UISampler2D => Some(glenum::UNSIGNED_INT_SAMPLER_2D),
        UniformType::UISampler3D => Some(glenum::UNSIGNED_INT_SAMPLER_3D),
        UniformType::UISampler1DArray => Some(glenum::UNSIGNED_INT_SAMPLER_1D_ARRAY),
        UniformType::UISampler2DArray => Some(glenum::UNSIGNED_INT_SAMPLER_2D_ARRAY),
        UniformType::Sampler1D => Some(glenum::SAMPLER_1D),
        UniformType::Sampler2D => Some(glenum::SAMPLER_2D),
        UniformType::Sampler3D => Some(glenum::SAMPLER_3D),
        UniformType::Sampler1DArray => Some(glenum::SAMPLER_1D_ARRAY),
        UniformType::Sampler2DArray => Some(glenum::SAMPLER_2D_ARRAY),
        UniformType::ICubemap => Some(glenum::INT_SAMPLER_CUBE),
        UniformType::UICubemap => Some(glenum::UNSIGNED_INT_SAMPLER_CUBE),
        UniformType::Cubemap => Some(glenum::SAMPLER_CUBE),
        UniformType::ShaderDataBinding => None,
    }
}

/// The GL type that a WebGL 2 program reports for a uniform of the given type, when the backend
/// supports that type.
pub open spec fn webgl2_uniform_glenum(ty: UniformType) -> Option<u32> {
    match ty {
        UniformType::Int => Some(glenum::INT),
        UniformType::UInt => Some(glenum::UNSIGNED_INT),
        UniformType::Float => Some(glenum::FLOAT),
        UniformType::Bool => Some(glenum::BOOL),
        UniformType::IVec2 => Some(glenum::INT_VEC2),
        UniformType::IVec3 => Some(glenum::INT_VEC3),
        UniformType::IVec4 => Some(glenum::INT_VEC4),
        UniformType::UIVec2 => Some(glenum::UNSIGNED_INT_VEC2),
        UniformType::UIVec3 => Some(glenum::UNSIGNED_INT_VEC3),
        UniformType::UIVec4 => Some(glenum::UNSIGNED_INT_VEC4),
        UniformType::Vec2 => Some(glenum::FLOAT_VEC2),
        UniformType::Vec3 => Some(glenum::FLOAT_VEC3),
        UniformType::Vec4 => Some(glenum::FLOAT_VEC4),
        UniformType::BVec2 => Some(glenum::BOOL_VEC2),
        UniformType::BVec3 => Some(glenum::BOOL_VEC3),
        UniformType::BVec4 => Some(glenum::BOOL_VEC4),
        UniformType::M22 => Some(glenum::FLOAT_MAT2),
        UniformType::M33 => Some(glenum::FLOAT_MAT3),
        UniformType::M44 => Some(glenum::FLOAT_MAT4),
        UniformType::ISampler2D => Some(glenum::INT_SAMPLER_2D),
        UniformType::ISampler3D => Some(glenum::INT_SAMPLER_3D),
        UniformType::ISampler2DArray => Some(glenum::INT_SAMPLER_2D_ARRAY),
        UniformType::UISampler2D => Some(glenum::UNSIGNED_INT_SAMPLER_2D),
        UniformType::UISampler3D => Some(glenum::UNSIGNED_INT_SAMPLER_3D),
        UniformType::UISampler2DArray => Some(glenum::UNSIGNED_INT_SAMPLER_2D_ARRAY),
        UniformType::Sampler2D => Some(glenum::SAMPLER_2D),
        UniformType::Sampler3D => Some(glenum::SAMPLER_3D),
        UniformType::Sampler2DArray => Some(glenum::SAMPLER_2D_ARRAY),
        UniformType::ICubemap => Some(glenum::INT_SAMPLER_CUBE),
        UniformType::UICubemap => Some(glenum::UNSIGNED_INT_SAMPLER_CUBE),
        UniformType::Cubemap => Some(glenum::SAMPLER_CUBE),
        _ => None,
    }
}

fn gl33_uniform_type(ty: UniformType) -> (r: Option<u32>)
    ensures
        r == gl33_uniform_glenum(ty),
{
    match ty {
        UniformType::Int => Some(glenum::INT),
        UniformType::UInt => Some(glenum::UNSIGNED_INT),
        UniformType::Float => Some(glenum::FLOAT),
        UniformType::Double => Some(glenum::DOUBLE),
        UniformType::Bool => Some(glenum::BOOL),
        UniformType::IVec2 => Some(glenum::INT_VEC2),
        UniformType::IVec3 => Some(glenum::INT_VEC3),
        UniformType::IVec4 => Some(glenum::INT_VEC4),
        UniformType::UIVec2 => Some(glenum::UNSIGNED_INT_VEC2),
        UniformType::UIVec3 => Some(glenum::UNSIGNED_INT_VEC3),
        UniformType::UIVec4 => Some(glenum::UNSIGNED_INT_VEC4),
        UniformType::Vec2 => Some(glenum::FLOAT_VEC2),
        UniformType::Vec3 => Some(glenum::FLOAT_VEC3),
        UniformType::Vec4 => Some(glenum::FLOAT_VEC4),
        UniformType::DVec2 => Some(glenum::DOUBLE_VEC2),
        UniformType::DVec3 => Some(glenum::DOUBLE_VEC3),
        UniformType::DVec4 => Some(glenum::DOUBLE_VEC4),
        UniformType::BVec2 => Some(glenum::BOOL_VEC2),
        UniformType::BVec3 => Some(glenum::BOOL_VEC3),
        UniformType::BVec4 => Some(glenum::BOOL_VEC4),
        UniformType::M22 => Some(glenum::FLOAT_MAT2),
        UniformType::M33 => Some(glenum::FLOAT_MAT3),
        UniformType::M44 => Some(glenum::FLOAT_MAT4),
        UniformType::DM22 => Some(glenum::DOUBLE_MAT2),
        UniformType::DM33 => Some(glenum::DOUBLE_MAT3),
        UniformType::DM44 => Some(glenum::DOUBLE_MAT4),
        UniformType::ISampler1D => Some(glenum::INT_SAMPLER_1D),
        UniformType::ISampler2D => Some(glenum::INT_SAMPLER_2D),
        UniformType::ISampler3D => Some(glenum::INT_SAMPLER_3D),
        UniformType::ISampler1DArray => Some(glenum::INT_SAMPLER_1D_ARRAY),
        UniformType::ISampler2DArray => Some(glenum::INT_SAMPLER_2D_ARRAY),
        UniformType::UISampler1D => Some(glenum::UNSIGNED_INT_SAMPLER_1D),
        UniformType::UISampler2D => Some(glenum::UNSIGNED_INT_SAMPLER_2D),
        UniformType::UISampler3D => Some(glenum::UNSIGNED_INT_SAMPLER_3D),
        UniformType::UISampler1DArray => Some(glenum::UNSIGNED_INT_SAMPLER_1D_ARRAY),
        UniformType::UISampler2DArray => Some(glenum::UNSIGNED_INT_SAMPLER_2D_ARRAY),
        UniformType::Sampler1D => Some(glenum::SAMPLER_1D),
        UniformType::Sampler2D => Some(glenum::SAMPLER_2D),
        UniformType::Sampler3D => Some(glenum::SAMPLER_3D),
        UniformType::Sampler1DArray => Some(glenum::SAMPLER_1D_ARRAY),
        UniformType::Sampler2DArray => Some(glenum::SAMPLER_2D_ARRAY),
        UniformType::ICubemap => Some(glenum::INT_SAMPLER_CUBE),
        UniformType::UICubemap => Some(glenum::UNSIGNED_INT_SAMPLER_CUBE),
        UniformType::Cubemap => Some(glenum::SAMPLER_CUBE),
        UniformType::ShaderDataBinding => None,
    }
}

fn webgl2_uniform_type(ty: UniformType) -> (r: Option<u32>)
    ensures
        r == webgl2_uniform_glenum(ty),
{
    match ty {
        UniformType::Int => Some(glenum::INT),
        UniformType::UInt => Some(glenum::UNSIGNED_INT),
        UniformType::Float => Some(glenum::FLOAT),
        UniformType::Bool => Some(glenum::BOOL),
        UniformType::IVec2 => Some(glenum::INT_VEC2),
        UniformType::IVec3 => Some(glenum::INT_VEC3),
        UniformType::IVec4 => Some(glenum::INT_VEC4),
        UniformType::UIVec2 => Some(glenum::UNSIGNED_INT_VEC2),
        UniformType::UIVec3 => Some(glenum::UNSIGNED_INT_VEC3),
        UniformType::UIVec4 => Some(glenum::UNSIGNED_INT_VEC4),
        UniformType::Vec2 => Some(glenum::FLOAT_VEC2),
        UniformType::Vec3 => Some(glenum::FLOAT_VEC3),
        UniformType::Vec4 => Some(glenum::FLOAT_VEC4),
        UniformType::BVec2 => Some(glenum::BOOL_VEC2),
        UniformType::BVec3 => Some(glenum::BOOL_VEC3),
        UniformType::BVec4 => Some(glenum::BOOL_VEC4),
        UniformType::M22 => Some(glenum::FLOAT_MAT2),
        UniformType::M33 => Some(glenum::FLOAT_MAT3),
        UniformType::M44 => Some(glenum::FLOAT_MAT4),
        UniformType::ISampler2D => Some(glenum::INT_SAMPLER_2D),
        UniformType::ISampler3D => Some(glenum::INT_SAMPLER_3D),
        UniformType::ISampler2DArray => Some(glenum::INT_SAMPLER_2D_ARRAY),
        UniformType::UISampler2D => Some(glenum::UNSIGNED_INT_SAMPLER_2D),
        UniformType::UISampler3D => Some(glenum::UNSIGNED_INT_SAMPLER_3D),
        UniformType::UISampler2DArray => Some(glenum::UNSIGNED_INT_SAMPLER_2D_ARRAY),
        UniformType::Sampler2D => Some(glenum::SAMPLER_2D),
        UniformType::Sampler3D => Some(glenum::SAMPLER_3D),
        UniformType::Sampler2DArray => Some(glenum::SAMPLER_2D_ARRAY),
        UniformType::ICubemap => Some(glenum::INT_SAMPLER_CUBE),
        UniformType::UICubemap => Some(glenum::UNSIGNED_INT_SAMPLER_CUBE),
        UniformType::Cubemap => Some(glenum::SAMPLER_CUBE),
        _ => None,
    }
}


/// A warning emitted while mapping the uniforms of a shader interface.
#[derive(Clone, Debug, PartialEq, Eq)]
pub enum UniformWarning {
    /// The uniform does not exist or is not used by the program.
    Inactive(String),
    /// The uniform's type differs from the one the program declares.
    TypeMismatch(String, UniformType),
    /// The uniform's array size differs from the one the program declares.
    SizeMismatch { name: String, size: usize, found_size: usize },
    /// The backend does not support the uniform's type.
    UnsupportedType(String, UniformType),
}

/// Check that the GL type a program reports for a uniform matches the requested type
/// (OpenGL 3.3).
pub fn check_uniform_type_match(name: &str, ty: UniformType, glty: u32) -> (r: Result<(), UniformWarning>)
    ensures
        match gl33_uniform_glenum(ty) {
            Some(expected) => if expected == glty {
                r is Ok
            } else {
                r matches Err(UniformWarning::TypeMismatch(n, t)) && n@ == name@ && t == ty
            },
            None => r matches Err(UniformWarning::UnsupportedType(n, t)) && n@ == name@ && t == ty,
        },
{
    match gl33_uniform_type(ty) {
        Some(expected) => if expected == glty {
            Ok(())
        } else {
            Err(UniformWarning::TypeMismatch(name.to_owned(), ty))
        },
        None => Err(UniformWarning::UnsupportedType(name.to_owned(), ty)),
    }
}

/// Check that the GL type a program reports for a uniform matches the requested type (WebGL 2).
pub fn check_types_match(name: &str, ty: UniformType, glty: u32) -> (r: Result<(), UniformWarning>)
    ensures
        match webgl2_uniform_glenum(ty) {
            Some(expected) => if expected == glty {
                r is Ok
            } else {
                r matches Err(UniformWarning::TypeMismatch(n, t)) && n@ == name@ && t == ty
            },
            None => r matches Err(UniformWarning::UnsupportedType(n, t)) && n@ == name@ && t == ty,
        },
{
    match webgl2_uniform_type(ty) {
        Some(expected) => if expected == glty {
            Ok(())
        } else {
            Err(UniformWarning::TypeMismatch(name.to_owned(), ty))
        },
        None => Err(UniformWarning::UnsupportedType(name.to_owned(), ty)),
    }
}

/// Check a uniform that a program reports with array size `found_size` and GL type `glty`
/// against the requested type and size (OpenGL 3.3). A requested size of zero is not checked.
pub fn uniform_type_match(name: &str, ty: UniformType, size: usize, found_size: usize, glty: u32) -> (r:
    Result<(), UniformWarning>)
    ensures
        size > 0 && found_size != size ==> (r matches Err(
            UniformWarning::SizeMismatch { name: n, size: s, found_size: f },
        ) && n@ == name@ && s == size && f == found_size),
        !(size > 0 && found_size != size) ==> match gl33_uniform_glenum(ty) {
            Some(expected) => if expected == glty {
                r is Ok
            } else {
                r matches Err(UniformWarning::TypeMismatch(n, t)) && n@ == name@ && t == ty
            },
            None => r matches Err(UniformWarning::UnsupportedType(n, t)) && n@ == name@ && t == ty,
        },
{
    if size > 0 && found_size != size {
        return Err(UniformWarning::SizeMismatch { name: name.to_owned(), size, found_size });
    }
    check_uniform_type_match(name, ty, glty)
}

/// Check a uniform that a program reports with array size `found_size` and GL type `glty`
/// against the requested type and size (WebGL 2). The size is always checked.
pub fn webgl2_uniform_type_match(name: &str, ty: UniformType, size: usize, found_size: usize, glty: u32) -> (r:
    Result<(), UniformWarning>)
    ensures
        found_size != size ==> (r matches Err(
            UniformWarning::SizeMismatch { name: n, size: s, found_size: f },
        ) && n@ == name@ && s == size && f == found_size),
        found_size == size ==> match webgl2_uniform_glenum(ty) {
            Some(expected) => if expected == glty {
                r is Ok
            } else {
                r matches Err(UniformWarning::TypeMismatch(n, t)) && n@ == name@ && t == ty
            },
            None => r matches Err(UniformWarning::UnsupportedType(n, t)) && n@ == name@ && t == ty,
        },
{
    if found_size != size {
        return Err(UniformWarning::SizeMismatch { name: name.to_owned(), size, found_size });
    }
    check_types_match(name, ty, glty)
}

/// A uniform location as a program reports it: negative when the uniform is inactive.
pub fn uniform_location(name: &str, location: i32) -> (r: Result<i32, UniformWarning>)
    ensures
        location < 0 ==> (r matches Err(UniformWarning::Inactive(n)) && n@ == name@),
        location >= 0 ==> r == Ok::<i32, UniformWarning>(location),
{
    if location < 0 {
        Err(UniformWarning::Inactive(name.to_owned()))
    } else {
        Ok(location)
    }
}

/// A uniform block index as a program reports it: `INVALID_INDEX` when the block is inactive.
pub fn uniform_block_index(name: &str, index: u32) -> (r: Result<u32, UniformWarning>)
    ensures
        index == u32::MAX ==> (r matches Err(UniformWarning::Inactive(n)) && n@ == name@),
        index != u32::MAX ==> r == Ok::<u32, UniformWarning>(index),
{
    if index == u32::MAX {
        Err(UniformWarning::Inactive(name.to_owned()))
    } else {
        Ok(index)
    }
}

/// The indices that a WebGL 2 program gives its uniforms. WebGL 2 designates uniforms by
/// objects, which the program keeps in a map from indices; each uniform found gets as index the
/// number of uniforms mapped so far, and the map only ever grows.
pub struct UniformIndices {
    mapped: usize,
}

impl UniformIndices {
    /// The number of uniforms mapped so far.
    pub closed spec fn count(&self) -> nat {
        self.mapped as nat
    }

    /// No uniform mapped yet.
    pub fn new() -> (r: Self)
        ensures
            r.count() == 0,
    {
        UniformIndices { mapped: 0 }
    }

    /// Map a uniform that the program was asked for: when the program has it (`found`), it gets
    /// the next index and the map grows by one; otherwise the uniform is inactive and nothing is
    /// mapped.
    pub fn ask_uniform(&mut self, name: &str, found: bool) -> (r: Result<i32, UniformWarning>)
        requires
            found ==> old(self).count() < usize::MAX,
        ensures
            found ==> r == Ok::<i32, UniformWarning>(old(self).count() as i32) && final(self).count() == old(self).count() + 1,
            !found ==> (r matches Err(UniformWarning::Inactive(n)) && n@ == name@) && final(self).count() == old(self).count(),
    {
        if found {
            let idx = self.mapped as i32;
            self.mapped = self.mapped + 1;
            Ok(idx)
        } else {
            Err(UniformWarning::Inactive(name.to_owned()))
        }
    }
}

/// A warning emitted while binding the vertex attributes of a program.
#[derive(Clone, Debug, PartialEq, Eq)]
pub enum VertexAttribWarning {
    /// The vertex attribute does not exist or is not used by the program.
    Inactive(String),
}

/// A vertex attribute location as a program reports it: negative when the attribute is inactive.
pub fn get_vertex_attrib_location(name: &str, location: i32) -> (r: Result<u32, VertexAttribWarning>)
    ensures
        location < 0 ==> (r matches Err(VertexAttribWarning::Inactive(n)) && n@ == name@),
        location >= 0 ==> r == Ok::<u32, VertexAttribWarning>(location as u32),
{
    if location < 0 {
        Err(VertexAttribWarning::Inactive(name.to_owned()))
    } else {
        Ok(location as u32)
    }
}

/// A vertex semantics: the attribute index it binds and the name shaders use for it.
#[derive(Clone, Debug, PartialEq, Eq)]
pub struct SemanticsDesc {
    pub index: usize,
    pub name: String,
}

/// Bind the vertex attributes of a program to the indices their semantics declare. `locations[i]`
/// is the location the program reports for `semantics[i]`. Active attributes give the binding
/// `(index, position in semantics)` to declare; inactive ones give a warning, in order.
pub fn bind_vertex_attribs_locations(semantics: &Vec<SemanticsDesc>, locations: &Vec<i32>) -> (r: (
    Vec<(u32, usize)>,
    Vec<VertexAttribWarning>,
))
    requires
        semantics@.len() == locations@.len(),
    ensures
        r.0@ == active_bindings(semantics@, locations@, semantics@.len() as int),
        r.1@.len() == inactive_count(locations@, semantics@.len() as int),
        forall|k: int| #![trigger r.1@[k]] 0 <= k < r.1@.len() ==> (r.1@[k] matches VertexAttribWarning::Inactive(n)
            && n@ == semantics@[inactive_position(locations@, k)].name@),
{
    let mut binds: Vec<(u32, usize)> = Vec::new();
    let mut warnings: Vec<VertexAttribWarning> = Vec::new();
    let mut i: usize = 0;
    while i < semantics.len()
        invariant
            semantics@.len() == locations@.len(),
            i <= semantics@.len(),
            binds@ == active_bindings(semantics@, locations@, i as int),
            warnings@.len() == inactive_count(locations@, i as int),
            forall|k: int| #![trigger warnings@[k]] 0 <= k < warnings@.len() ==> (warnings@[k] matches VertexAttribWarning::Inactive(n)
                && n@ == semantics@[inactive_position(locations@, k)].name@),
            forall|k: int| 0 <= k < warnings@.len() ==> #[trigger] inactive_position(locations@, k) < i,
        decreases semantics.len() - i,
    {
        let desc = &semantics[i];
        match get_vertex_attrib_location(desc.name.as_str(), locations[i]) {
            Ok(_) => {
                binds.push((desc.index as u32, i));
            },
            Err(w) => {
                proof {
                    lemma_inactive_position_last(locations@, i as int);
                }
                warnings.push(w);
            },
        }
        proof {
            lemma_inactive_positions_stable(locations@, i as int);
        }
        i = i + 1;
    }
    (binds, warnings)
}

/// The bindings declared for the first `n` semantics: the active ones, in order.
pub open spec fn active_bindings(semantics: Seq<SemanticsDesc>, locations: Seq<i32>, n: int) -> Seq<(u32, usize)>
    decreases n,
{
    if n <= 0 {
        Seq::empty()
    } else if locations[n - 1] >= 0 {
        active_bindings(semantics, locations, n - 1).push((semantics[n - 1].index as u32, (n - 1) as usize))
    } else {
        active_bindings(semantics, locations, n - 1)
    }
}

/// The number of inactive attributes among the first `n`.
pub open spec fn inactive_count(locations: Seq<i32>, n: int) -> int
    decreases n,
{
    if n <= 0 {
        0
    } else if locations[n - 1] < 0 {
        inactive_count(locations, n - 1) + 1
    } else {
        inactive_count(locations, n - 1)
    }
}

/// The position of the `k`-th inactive attribute.
pub open spec fn inactive_position(locations: Seq<i32>, k: int) -> int {
    choose|i: int| 0 <= i < locations.len() && locations[i] < 0 && inactive_count(locations, i) == k
}

proof fn lemma_inactive_count_mono(locations: Seq<i32>, a: int, b: int)
    requires
        0 <= a <= b,
    ensures
        inactive_count(locations, a) <= inactive_count(locations, b),
    decreases b - a,
{
    if a < b {
        lemma_inactive_count_mono(locations, a, b - 1);
    }
}

proof fn lemma_inactive_position_last(locations: Seq<i32>, i: int)
    requires
        0 <= i < locations.len(),
        locations[i] < 0,
    ensures
        inactive_position(locations, inactive_count(locations, i)) == i,
{
    let k = inactive_count(locations, i);
    assert(0 <= i < locations.len() && locations[i] < 0 && inactive_count(locations, i) == k);
    let j = inactive_position(locations, k);
    if j < i {
        lemma_inactive_count_mono(locations, j + 1, i);
    } else if j > i {
        lemma_inactive_count_mono(locations, i + 1, j);
    }
}

proof fn lemma_inactive_positions_stable(locations: Seq<i32>, i: int)
    requires
        0 <= i < locations.len(),
    ensures
        forall|k: int| 0 <= k < inactive_count(locations, i + 1) ==> inactive_position(locations, k) <= i,
{
    assert forall|k: int| 0 <= k < inactive_count(locations, i + 1) implies inactive_position(locations, k) <= i by {
        lemma_some_position(locations, k, i + 1);
        let j = inactive_position(locations, k);
        if j > i {
            lemma_inactive_count_mono(locations, i + 1, j);
        }
    }
}

proof fn lemma_some_position(locations: Seq<i32>, k: int, n: int)
    requires
        0 <= k < inactive_count(locations, n),
        n <= locations.len(),
    ensures
        exists|i: int| 0 <= i < n && locations[i] < 0 && inactive_count(locations, i) == k,
    decreases n,
{
    if n > 0 {
        if locations[n - 1] < 0 && k == inactive_count(locations, n - 1) {
            assert(0 <= n - 1 < n && locations[n - 1] < 0 && inactive_count(locations, n - 1) == k);
        } else {
            lemma_some_position(locations, k, n - 1);
        }
    }
}

/// Booleans as the unsigned integers that boolean uniforms are sent as: 1 for `true`, 0 for
/// `false`, component after component.
pub fn bool_uniform_values(values: &[bool]) -> (r: Vec<u32>)
    ensures
        r@ == values@.map_values(|b: bool| if b { 1u32 } else { 0u32 }),
{
    let mut r: Vec<u32> = Vec::new();
    let mut i: usize = 0;
    while i < values.len()
        invariant
            i <= values.len(),
            r@ == values@.subrange(0, i as int).map_values(|b: bool| if b { 1u32 } else { 0u32 }),
        decreases values.len() - i,
    {
        r.push(if values[i] { 1 } else { 0 });
        i = i + 1;
        assert(r@ =~= values@.subrange(0, i as int).map_values(|b: bool| if b { 1u32 } else { 0u32 }));
    }
    assert(values@.subrange(0, values.len() as int) =~= values@);
    r
}

/// The GLSL prelude that OpenGL 3.3 shader sources are given.
pub const GLSL_PRAGMA: &'static str = "#version 330 core\n#extension GL_ARB_separate_shader_objects : require\nlayout(std140) uniform;\n";

/// The GLSL prelude that WebGL 2 shader sources are given.
pub const WEBGL2_GLSL_PRAGMA: &'static str = "#version 300 es\nprecision highp float;\nprecision highp int;\n                           layout(std140) uniform;\n";

/// Prepend the OpenGL 3.3 prelude to a shader source.
pub fn glsl_pragma_src(src: &str) -> (r: String)
    ensures
        r@ == GLSL_PRAGMA@ + src@,
{
    let pragma = GLSL_PRAGMA.to_owned();
    pragma.concat(src)
}

/// Prepend the WebGL 2 prelude to a shader source.
pub fn patch_shader_src(src: &str) -> (r: String)
    ensures
        r@ == WEBGL2_GLSL_PRAGMA@ + src@,
{
    let pragma = WEBGL2_GLSL_PRAGMA.to_owned();
    pragma.concat(src)
}


/// Each shader stage is created with the GL shader type of that name, and two stages never share one.
pub proof fn law_stage_enumerants(x: StageType, y: StageType)
    ensures
        x is TessellationControlShader ==> stage_glenum(x) == 0x8E88u32,
        x is TessellationEvaluationShader ==> stage_glenum(x) == 0x8E87u32,
        x is VertexShader ==> stage_glenum(x) == 0x8B31u32,
        x is GeometryShader ==> stage_glenum(x) == 0x8DD9u32,
        x is FragmentShader ==> stage_glenum(x) == 0x8B30u32,
        stage_glenum(x) == stage_glenum(y) ==> x == y,
{
}

/// The GL type an OpenGL 3.3 program must report for each uniform type: scalars, vectors and matrices
/// of the matching component type (signed vectors `INT_VECn`, unsigned ones `UNSIGNED_INT_VECn`,
/// `FLOAT_VECn`, `DOUBLE_VECn`, `BOOL_VECn`), and the samplers of the matching dimension and
/// component type. Shader data bindings have no such type, and two uniform types never expect the
/// same one.
pub proof fn law_gl33_uniform_types(x: UniformType, y: UniformType)
    ensures
        x is Int ==> gl33_uniform_glenum(x) == Some(0x1404u32),
        x is UInt ==> gl33_uniform_glenum(x) == Some(0x1405u32),
        x is Float ==> gl33_uniform_glenum(x) == Some(0x1406u32),
        x is Double ==> gl33_uniform_glenum(x) == Some(0x140Au32),
        x is Bool ==> gl33_uniform_glenum(x) == Some(0x8B56u32),
        x is IVec2 ==> gl33_uniform_glenum(x) == Some(0x8B53u32),
        x is IVec3 ==> gl33_uniform_glenum(x) == Some(0x8B54u32),
        x is IVec4 ==> gl33_uniform_glenum(x) == Some(0x8B55u32),
        x is UIVec2 ==> gl33_uniform_glenum(x) == Some(0x8DC6u32),
        x is UIVec3 ==> gl33_uniform_glenum(x) == Some(0x8DC7u32),
        x is UIVec4 ==> gl33_uniform_glenum(x) == Some(0x8DC8u32),
        x is Vec2 ==> gl33_uniform_glenum(x) == Some(0x8B50u32),
        x is Vec3 ==> gl33_uniform_glenum(x) == Some(0x8B51u32),
        x is Vec4 ==> gl33_uniform_glenum(x) == Some(0x8B52u32),
        x is DVec2 ==> gl33_uniform_glenum(x) == Some(0x8FFCu32),
        x is DVec3 ==> gl33_uniform_glenum(x) == Some(0x8FFDu32),
        x is DVec4 ==> gl33_uniform_glenum(x) == Some(0x8FFEu32),
        x is BVec2 ==> gl33_uniform_glenum(x) == Some(0x8B57u32),
        x is BVec3 ==> gl33_uniform_glenum(x) == Some(0x8B58u32),
        x is BVec4 ==> gl33_uniform_glenum(x) == Some(0x8B59u32),
        x is M22 ==> gl33_uniform_glenum(x) == Some(0x8B5Au32),
        x is M33 ==> gl33_uniform_glenum(x) == Some(0x8B5Bu32),
        x is M44 ==> gl33_uniform_glenum(x) == Some(0x8B5Cu32),
        x is DM22 ==> gl33_uniform_glenum(x) == Some(0x8F46u32),
        x is DM33 ==> gl33_uniform_glenum(x) == Some(0x8F47u32),
        x is DM44 ==> gl33_uniform_glenum(x) == Some(0x8F48u32),
        x is ISampler1D ==> gl33_uniform_glenum(x) == Some(0x8DC9u32),
        x is ISampler2D ==> gl33_uniform_glenum(x) == Some(0x8DCAu32),
        x is ISampler3D ==> gl33_uniform_glenum(x) == Some(0x8DCBu32),
        x is ISampler1DArray ==> gl33_uniform_glenum(x) == Some(0x8DCEu32),
        x is ISampler2DArray ==> gl33_uniform_glenum(x) == Some(0x8DCFu32),
        x is UISampler1D ==> gl33_uniform_glenum(x) == Some(0x8DD1u32),
        x is UISampler2D ==> gl33_uniform_glenum(x) == Some(0x8DD2u32),
        x is UISampler3D ==> gl33_uniform_glenum(x) == Some(0x8DD3u32),
        x is UISampler1DArray ==> gl33_uniform_glenum(x) == Some(0x8DD6u32),
        x is UISampler2DArray ==> gl33_uniform_glenum(x) == Some(0x8DD7u32),
        x is Sampler1D ==> gl33_uniform_glenum(x) == Some(0x8B5Du32),
        x is Sampler2D ==> gl33_uniform_glenum(x) == Some(0x8B5Eu32),
        x is Sampler3D ==> gl33_uniform_glenum(x) == Some(0x8B5Fu32),
        x is Sampler1DArray ==> gl33_uniform_glenum(x) == Some(0x8DC0u32),
        x is Sampler2DArray ==> gl33_uniform_glenum(x) == Some(0x8DC1u32),
        x is ICubemap ==> gl33_uniform_glenum(x) == Some(0x8DCCu32),
        x is UICubemap ==> gl33_uniform_glenum(x) == Some(0x8DD4u32),
        x is Cubemap ==> gl33_uniform_glenum(x) == Some(0x8B60u32),
        x is ShaderDataBinding ==> gl33_uniform_glenum(x) is None,
        gl33_uniform_glenum(x) is Some && gl33_uniform_glenum(x) == gl33_uniform_glenum(y) ==> x == y,
{
}

/// The GL type a WebGL 2 program must report for each uniform type; WebGL 2 has no doubles, no 1D
/// samplers and no shader data bindings checked this way, and two uniform types never expect the
/// same one.
pub proof fn law_webgl2_uniform_types(x: UniformType, y: UniformType)
    ensures
        x is Int ==> webgl2_uniform_glenum(x) == Some(0x1404u32),
        x is UInt ==> webgl2_uniform_glenum(x) == Some(0x1405u32),
        x is Float ==> webgl2_uniform_glenum(x) == Some(0x1406u32),
        x is Bool ==> webgl2_uniform_glenum(x) == Some(0x8B56u32),
        x is IVec2 ==> webgl2_uniform_glenum(x) == Some(0x8B53u32),
        x is IVec3 ==> webgl2_uniform_glenum(x) == Some(0x8B54u32),
        x is IVec4 ==> webgl2_uniform_glenum(x) == Some(0x8B55u32),
        x is UIVec2 ==> webgl2_uniform_glenum(x) == Some(0x8DC6u32),
        x is UIVec3 ==> webgl2_uniform_glenum(x) == Some(0x8DC7u32),
        x is UIVec4 ==> webgl2_uniform_glenum(x) == Some(0x8DC8u32),
        x is Vec2 ==> webgl2_uniform_glenum(x) == Some(0x8B50u32),
        x is Vec3 ==> webgl2_uniform_glenum(x) == Some(0x8B51u32),
        x is Vec4 ==> webgl2_uniform_glenum(x) == Some(0x8B52u32),
        x is BVec2 ==> webgl2_uniform_glenum(x) == Some(0x8B57u32),
        x is BVec3 ==> webgl2_uniform_glenum(x) == Some(0x8B58u32),
        x is BVec4 ==> webgl2_uniform_glenum(x) == Some(0x8B59u32),
        x is M22 ==> webgl2_uniform_glenum(x) == Some(0x8B5Au32),
        x is M33 ==> webgl2_uniform_glenum(x) == Some(0x8B5Bu32),
        x is M44 ==> webgl2_uniform_glenum(x) == Some(0x8B5Cu32),
        x is ISampler2D ==> webgl2_uniform_glenum(x) == Some(0x8DCAu32),
        x is ISampler3D ==> webgl2_uniform_glenum(x) == Some(0x8DCBu32),
        x is ISampler2DArray ==> webgl2_uniform_glenum(x) == Some(0x8DCFu32),
        x is UISampler2D ==> webgl2_uniform_glenum(x) == Some(0x8DD2u32),
        x is UISampler3D ==> webgl2_uniform_glenum(x) == Some(0x8DD3u32),
        x is UISampler2DArray ==> webgl2_uniform_glenum(x) == Some(0x8DD7u32),
        x is Sampler2D ==> webgl2_uniform_glenum(x) == Some(0x8B5Eu32),
        x is Sampler3D ==> webgl2_uniform_glenum(x) == Some(0x8B5Fu32),
        x is Sampler2DArray ==> webgl2_uniform_glenum(x) == Some(0x8DC1u32),
        x is ICubemap ==> webgl2_uniform_glenum(x) == Some(0x8DCCu32),
        x is UICubemap ==> webgl2_uniform_glenum(x) == Some(0x8DD4u32),
        x is Cubemap ==> webgl2_uniform_glenum(x) == Some(0x8B60u32),
        x is Double ==> webgl2_uniform_glenum(x) is None,
        x is DVec2 ==> webgl2_uniform_glenum(x) is None,
        x is DVec3 ==> webgl2_uniform_glenum(x) is None,
        x is DVec4 ==> webgl2_uniform_glenum(x) is None,
        x is DM22 ==> webgl2_uniform_glenum(x) is None,
        x is DM33 ==> webgl2_uniform_glenum(x) is None,
        x is DM44 ==> webgl2_uniform_glenum(x) is None,
        x is ISampler1D ==> webgl2_uniform_glenum(x) is None,
        x is ISampler1DArray ==> webgl2_uniform_glenum(x) is None,
        x is UISampler1D ==> webgl2_uniform_glenum(x) is None,
        x is UISampler1DArray ==> webgl2_uniform_glenum(x) is None,
        x is Sampler1D ==> webgl2_uniform_glenum(x) is None,
        x is Sampler1DArray ==> webgl2_uniform_glenum(x) is None,
        x is ShaderDataBinding ==> webgl2_uniform_glenum(x) is None,
        webgl2_uniform_glenum(x) is Some && webgl2_uniform_glenum(x) == webgl2_uniform_glenum(y) ==> x == y,
{
}


/// A texture is bound to the sampler of its dimension and component type: integral textures to
/// `INT_SAMPLER_*`, unsigned ones to `UNSIGNED_INT_SAMPLER_*`, normalized and floating ones to
/// `SAMPLER_*`, with the suffix of the dimension (`1D`, `2D`, `3D`, `CUBE`, `1D_ARRAY`,
/// `2D_ARRAY`).
pub proof fn law_sampler_types(pixel: PixelType, dim: Dim)
    ensures
        pixel is Integral && dim is Dim1 ==> gl33_uniform_glenum(sampler_type_spec(pixel, dim)) == Some(0x8DC9u32),
        pixel is Integral && dim is Dim2 ==> gl33_uniform_glenum(sampler_type_spec(pixel, dim)) == Some(0x8DCAu32),
        pixel is Integral && dim is Dim3 ==> gl33_uniform_glenum(sampler_type_spec(pixel, dim)) == Some(0x8DCBu32),
        pixel is Integral && dim is Cubemap ==> gl33_uniform_glenum(sampler_type_spec(pixel, dim)) == Some(0x8DCCu32),
        pixel is Integral && dim is Dim1Array ==> gl33_uniform_glenum(sampler_type_spec(pixel, dim)) == Some(0x8DCEu32),
        pixel is Integral && dim is Dim2Array ==> gl33_uniform_glenum(sampler_type_spec(pixel, dim)) == Some(0x8DCFu32),
        pixel is Unsigned && dim is Dim1 ==> gl33_uniform_glenum(sampler_type_spec(pixel, dim)) == Some(0x8DD1u32),
        pixel is Unsigned && dim is Dim2 ==> gl33_uniform_glenum(sampler_type_spec(pixel, dim)) == Some(0x8DD2u32),
        pixel is Unsigned && dim is Dim3 ==> gl33_uniform_glenum(sampler_type_spec(pixel, dim)) == Some(0x8DD3u32),
        pixel is Unsigned && dim is Cubemap ==> gl33_uniform_glenum(sampler_type_spec(pixel, dim)) == Some(0x8DD4u32),
        pixel is Unsigned && dim is Dim1Array ==> gl33_uniform_glenum(sampler_type_spec(pixel, dim)) == Some(0x8DD6u32),
        pixel is Unsigned && dim is Dim2Array ==> gl33_uniform_glenum(sampler_type_spec(pixel, dim)) == Some(0x8DD7u32),
        pixel is Floating && dim is Dim1 ==> gl33_uniform_glenum(sampler_type_spec(pixel, dim)) == Some(0x8B5Du32),
        pixel is Floating && dim is Dim2 ==> gl33_uniform_glenum(sampler_type_spec(pixel, dim)) == Some(0x8B5Eu32),
        pixel is Floating && dim is Dim3 ==> gl33_uniform_glenum(sampler_type_spec(pixel, dim)) == Some(0x8B5Fu32),
        pixel is Floating && dim is Cubemap ==> gl33_uniform_glenum(sampler_type_spec(pixel, dim)) == Some(0x8B60u32),
        pixel is Floating && dim is Dim1Array ==> gl33_uniform_glenum(sampler_type_spec(pixel, dim)) == Some(0x8DC0u32),
        pixel is Floating && dim is Dim2Array ==> gl33_uniform_glenum(sampler_type_spec(pixel, dim)) == Some(0x8DC1u32),
        pixel is NormIntegral && dim is Dim1 ==> gl33_uniform_glenum(sampler_type_spec(pixel, dim)) == Some(0x8B5Du32),
        pixel is NormIntegral && dim is Dim2 ==> gl33_uniform_glenum(sampler_type_spec(pixel, dim)) == Some(0x8B5Eu32),
        pixel is NormIntegral && dim is Dim3 ==> gl33_uniform_glenum(sampler_type_spec(pixel, dim)) == Some(0x8B5Fu32),
        pixel is NormIntegral && dim is Cubemap ==> gl33_uniform_glenum(sampler_type_spec(pixel, dim)) == Some(0x8B60u32),
        pixel is NormIntegral && dim is Dim1Array ==> gl33_uniform_glenum(sampler_type_spec(pixel, dim)) == Some(0x8DC0u32),
        pixel is NormIntegral && dim is Dim2Array ==> gl33_uniform_glenum(sampler_type_spec(pixel, dim)) == Some(0x8DC1u32),
        pixel is NormUnsigned && dim is Dim1 ==> gl33_uniform_glenum(sampler_type_spec(pixel, dim)) == Some(0x8B5Du32),
        pixel is NormUnsigned && dim is Dim2 ==> gl33_uniform_glenum(sampler_type_spec(pixel, dim)) == Some(0x8B5Eu32),
        pixel is NormUnsigned && dim is Dim3 ==> gl33_uniform_glenum(sampler_type_spec(pixel, dim)) == Some(0x8B5Fu32),
        pixel is NormUnsigned && dim is Cubemap ==> gl33_uniform_glenum(sampler_type_spec(pixel, dim)) == Some(0x8B60u32),
        pixel is NormUnsigned && dim is Dim1Array ==> gl33_uniform_glenum(sampler_type_spec(pixel, dim)) == Some(0x8DC0u32),
        pixel is NormUnsigned && dim is Dim2Array ==> gl33_uniform_glenum(sampler_type_spec(pixel, dim)) == Some(0x8DC1u32),
{
}

} // verus!
