//! Textures: targets, sampler parameters, storage allocation per mipmap level, texel uploads.
use vstd::prelude::*;

use crate::glenum;
use crate::render_state::{comparison_to_glenum, Comparison};
use crate::render_state;
use crate::shader::PixelType;
use vstd::string::StringExecFns;
use vstd::arithmetic::power2::{lemma2_to64, lemma_pow2_unfold, pow2};

verus! {

/// Dimension of a texture.
#[derive(Clone, Copy, Debug, PartialEq, Eq, Structural)]
pub enum Dim {
    Dim1,
    Dim2,
    Dim3,
    Cubemap,
    Dim1Array,
    Dim2Array,
}

/// Wrapping of texture coordinates outside of [0, 1].
#[derive(Clone, Copy, Debug, PartialEq, Eq, Structural)]
pub enum Wrap {
    ClampToEdge,
    Repeat,
    MirroredRepeat,
}

/// Minification filter.
#[derive(Clone, Copy, Debug, PartialEq, Eq, Structural)]
pub enum MinFilter {
    Nearest,
    Linear,
    NearestMipmapNearest,
    NearestMipmapLinear,
    LinearMipmapNearest,
    LinearMipmapLinear,
}

/// Magnification filter.
#[derive(Clone, Copy, Debug, PartialEq, Eq, Structural)]
pub enum MagFilter {
    Nearest,
    Linear,
}

/// How a texture is sampled.
#[derive(Clone, Copy, Debug, PartialEq, Eq, Structural)]
pub struct Sampler {
    pub wrap_r: Wrap,
    pub wrap_s: Wrap,
    pub wrap_t: Wrap,
    pub min_filter: MinFilter,
    pub mag_filter: MagFilter,
    pub depth_comparison: Option<Comparison>,
}

/// The OpenGL target of a texture dimension.
pub open spec fn target_glenum(d: Dim) -> u32 {
    match d {
        Dim::Dim1 => glenum::TEXTURE_1D,
        Dim::Dim2 => glenum::TEXTURE_2D,
        Dim::Dim3 => glenum::TEXTURE_3D,
        Dim::Cubemap => glenum::TEXTURE_CUBE_MAP,
        Dim::Dim1Array => glenum::TEXTURE_1D_ARRAY,
        Dim::Dim2Array => glenum::TEXTURE_2D_ARRAY,
    }
}

/// The OpenGL target of a texture dimension.
pub fn opengl_target(d: Dim) -> (r: u32)
    ensures
        r == target_glenum(d),
{
    match d {
        Dim::Dim1 => glenum::TEXTURE_1D,
        Dim::Dim2 => glenum::TEXTURE_2D,
        Dim::Dim3 => glenum::TEXTURE_3D,
        Dim::Cubemap => glenum::TEXTURE_CUBE_MAP,
        Dim::Dim1Array => glenum::TEXTURE_1D_ARRAY,
        Dim::Dim2Array => glenum::TEXTURE_2D_ARRAY,
    }
}

/// The WebGL 2 target of a texture dimension; WebGL 2 has no 1D textures.
pub fn webgl_target(d: Dim) -> (r: Option<u32>)
    ensures
        r == (match d {
            Dim::Dim1 | Dim::Dim1Array => None,
            _ => Some(target_glenum(d)),
        }),
{
    match d {
        Dim::Dim2 => Some(glenum::TEXTURE_2D),
        Dim::Dim3 => Some(glenum::TEXTURE_3D),
        Dim::Cubemap => Some(glenum::TEXTURE_CUBE_MAP),
        Dim::Dim2Array => Some(glenum::TEXTURE_2D_ARRAY),
        _ => None,
    }
}

/// The GL value of a wrapping mode.
pub open spec fn wrap_glenum(w: Wrap) -> u32 {
    match w {
        Wrap::ClampToEdge => glenum::CLAMP_TO_EDGE,
        Wrap::Repeat => glenum::REPEAT,
        Wrap::MirroredRepeat => glenum::MIRRORED_REPEAT,
    }
}

/// The GL value of a minification filter.
pub open spec fn min_filter_glenum(f: MinFilter) -> u32 {
    match f {
        MinFilter::Nearest => glenum::NEAREST,
        MinFilter::Linear => glenum::LINEAR,
        MinFilter::NearestMipmapNearest => glenum::NEAREST_MIPMAP_NEAREST,
        MinFilter::NearestMipmapLinear => glenum::NEAREST_MIPMAP_LINEAR,
        MinFilter::LinearMipmapNearest => glenum::LINEAR_MIPMAP_NEAREST,
        MinFilter::LinearMipmapLinear => glenum::LINEAR_MIPMAP_LINEAR,
    }
}

/// The GL value of a magnification filter.
pub open spec fn mag_filter_glenum(f: MagFilter) -> u32 {
    match f {
        MagFilter::Nearest => glenum::NEAREST,
        MagFilter::Linear => glenum::LINEAR,
    }
}

/// The GL value of a wrapping mode.
pub fn opengl_wrap(wrap: Wrap) -> (r: u32)
    ensures
        r == wrap_glenum(wrap),
{
    match wrap {
        Wrap::ClampToEdge => glenum::CLAMP_TO_EDGE,
        Wrap::Repeat => glenum::REPEAT,
        Wrap::MirroredRepeat => glenum::MIRRORED_REPEAT,
    }
}

/// The GL value of a minification filter.
pub fn opengl_min_filter(filter: MinFilter) -> (r: u32)
    ensures
        r == min_filter_glenum(filter),
{
    match filter {
        MinFilter::Nearest => glenum::NEAREST,
        MinFilter::Linear => glenum::LINEAR,
        MinFilter::NearestMipmapNearest => glenum::NEAREST_MIPMAP_NEAREST,
        MinFilter::NearestMipmapLinear => glenum::NEAREST_MIPMAP_LINEAR,
        MinFilter::LinearMipmapNearest => glenum::LINEAR_MIPMAP_NEAREST,
        MinFilter::LinearMipmapLinear => glenum::LINEAR_MIPMAP_LINEAR,
    }
}

/// The GL value of a magnification filter.
pub fn opengl_mag_filter(filter: MagFilter) -> (r: u32)
    ensures
        r == mag_filter_glenum(filter),
{
    match filter {
        MagFilter::Nearest => glenum::NEAREST,
        MagFilter::Linear => glenum::LINEAR,
    }
}

/// A texture parameter to set on the bound texture: target, parameter name, value.
#[derive(Clone, Copy, Debug, PartialEq, Eq, Structural)]
pub struct TexParameter {
    pub target: u32,
    pub pname: u32,
    pub value: i32,
}

/// The parameters that apply a sampler to a texture, in the order they are set.
pub open spec fn sampler_parameters_spec(target: u32, sampler: Sampler) -> Seq<TexParameter> {
    seq![
        TexParameter { target, pname: glenum::TEXTURE_WRAP_R, value: wrap_glenum(sampler.wrap_r) as i32 },
        TexParameter { target, pname: glenum::TEXTURE_WRAP_S, value: wrap_glenum(sampler.wrap_s) as i32 },
        TexParameter { target, pname: glenum::TEXTURE_WRAP_T, value: wrap_glenum(sampler.wrap_t) as i32 },
        TexParameter {
            target,
            pname: glenum::TEXTURE_MIN_FILTER,
            value: min_filter_glenum(sampler.min_filter) as i32,
        },
        TexParameter {
            target,
            pname: glenum::TEXTURE_MAG_FILTER,
            value: mag_filter_glenum(sampler.mag_filter) as i32,
        },
    ] + match sampler.depth_comparison {
        Some(fun) => seq![
            TexParameter {
                target,
                pname: glenum::TEXTURE_COMPARE_FUNC,
                value: render_state::comparison_glenum(fun) as i32,
            },
            TexParameter {
                target,
                pname: glenum::TEXTURE_COMPARE_MODE,
                value: glenum::COMPARE_REF_TO_TEXTURE as i32,
            },
        ],
        None => seq![TexParameter { target, pname: glenum::TEXTURE_COMPARE_MODE, value: glenum::NONE as i32 }],
    }
}

/// The parameters that apply a sampler to a texture, in the order they are set.
pub fn apply_sampler_to_texture(target: u32, sampler: Sampler) -> (r: Vec<TexParameter>)
    ensures
        r@ == sampler_parameters_spec(target, sampler),
{
    let mut r: Vec<TexParameter> = Vec::new();
    r.push(TexParameter { target, pname: glenum::TEXTURE_WRAP_R, value: opengl_wrap(sampler.wrap_r) as i32 });
    r.push(TexParameter { target, pname: glenum::TEXTURE_WRAP_S, value: opengl_wrap(sampler.wrap_s) as i32 });
    r.push(TexParameter { target, pname: glenum::TEXTURE_WRAP_T, value: opengl_wrap(sampler.wrap_t) as i32 });
    r.push(
        TexParameter {
            target,
            pname: glenum::TEXTURE_MIN_FILTER,
            value: opengl_min_filter(sampler.min_filter) as i32,
        },
    );
    r.push(
        TexParameter {
            target,
            pname: glenum::TEXTURE_MAG_FILTER,
            value: opengl_mag_filter(sampler.mag_filter) as i32,
        },
    );
    match sampler.depth_comparison {
        Some(fun) => {
            r.push(
                TexParameter {
                    target,
                    pname: glenum::TEXTURE_COMPARE_FUNC,
                    value: comparison_to_glenum(fun) as i32,
                },
            );
            r.push(
                TexParameter {
                    target,
                    pname: glenum::TEXTURE_COMPARE_MODE,
                    value: glenum::COMPARE_REF_TO_TEXTURE as i32,
                },
            );
        },
        None => {
            r.push(TexParameter { target, pname: glenum::TEXTURE_COMPARE_MODE, value: glenum::NONE as i32 });
        },
    }
    assert(r@ =~= sampler_parameters_spec(target, sampler));
    r
}

/// The parameters that declare the mipmap levels of a texture: base level 0, last level `mipmaps`.
pub fn set_texture_levels(target: u32, mipmaps: usize) -> (r: Vec<TexParameter>)
    ensures
        r@ == seq![
            TexParameter { target, pname: glenum::TEXTURE_BASE_LEVEL, value: 0 },
            TexParameter { target, pname: glenum::TEXTURE_MAX_LEVEL, value: mipmaps as i32 },
        ],
{
    let mut r: Vec<TexParameter> = Vec::new();
    r.push(TexParameter { target, pname: glenum::TEXTURE_BASE_LEVEL, value: 0 });
    r.push(TexParameter { target, pname: glenum::TEXTURE_MAX_LEVEL, value: mipmaps as i32 });
    assert(r@ =~= seq![
        TexParameter { target, pname: glenum::TEXTURE_BASE_LEVEL, value: 0 },
        TexParameter { target, pname: glenum::TEXTURE_MAX_LEVEL, value: mipmaps as i32 },
    ]);
    r
}

/// The row alignment to use for pixel transfers, given the number of bytes by which a row
/// overshoots a multiple of 8.
pub open spec fn row_alignment(skip_bytes: usize) -> i32 {
    if skip_bytes == 0 {
        8
    } else if skip_bytes == 2 {
        2
    } else if skip_bytes == 4 {
        4
    } else {
        1
    }
}

/// A pixel storage parameter: name and value.
#[derive(Clone, Copy, Debug, PartialEq, Eq, Structural)]
pub struct PixelStore {
    pub pname: u32,
    pub value: i32,
}

/// The unpack alignment for uploading texels.
pub fn set_unpack_alignment(skip_bytes: usize) -> (r: PixelStore)
    ensures
        r == (PixelStore { pname: glenum::UNPACK_ALIGNMENT, value: row_alignment(skip_bytes) }),
{
    let unpack_alignment = match skip_bytes {
        0 => 8,
        2 => 2,
        4 => 4,
        _ => 1,
    };
    PixelStore { pname: glenum::UNPACK_ALIGNMENT, value: unpack_alignment }
}

/// The pack alignment for downloading texels.
pub fn set_pack_alignment(skip_bytes: usize) -> (r: PixelStore)
    ensures
        r == (PixelStore { pname: glenum::PACK_ALIGNMENT, value: row_alignment(skip_bytes) }),
{
    let pack_alignment = match skip_bytes {
        0 => 8,
        2 => 2,
        4 => 4,
        _ => 1,
    };
    PixelStore { pname: glenum::PACK_ALIGNMENT, value: pack_alignment }
}

/// The size of a texture: width, height and depth, as meaningful for its dimension (unused
/// components are ignored).
#[derive(Clone, Copy, Debug, PartialEq, Eq, Structural)]
pub struct TexSize {
    pub width: u32,
    pub height: u32,
    pub depth: u32,
}

/// The GL formats of a pixel format: format, internal format, encoding.
#[derive(Clone, Copy, Debug, PartialEq, Eq, Structural)]
pub struct GlPixelFormat {
    pub format: u32,
    pub iformat: u32,
    pub encoding: u32,
}

/// How many storage dimensions a texture image call covers.
#[derive(Clone, Copy, Debug, PartialEq, Eq, Structural)]
pub enum ImageRank {
    One,
    Two,
    Three,
}

/// A texture storage allocation for one mipmap level.
#[derive(Clone, Copy, Debug, PartialEq, Eq, Structural)]
pub struct TexImage {
    pub rank: ImageRank,
    pub target: u32,
    pub level: i32,
    pub iformat: i32,
    pub width: i32,
    pub height: i32,
    pub depth: i32,
    pub format: u32,
    pub encoding: u32,
}

/// The size of mipmap level `level` of a texture side of `s` texels.
pub open spec fn level_size(s: u32, level: int) -> u32 {
    (s as int / pow2_int(level)) as u32
}

/// Two to the power `n`.
pub open spec fn pow2_int(n: int) -> int
    decreases n,
{
    if n <= 0 {
        1
    } else {
        2 * pow2_int(n - 1)
    }
}

proof fn lemma_shift_is_pow2(level: u32)
    requires
        level < 32,
    ensures
        (1u32 << level) as int == pow2_int(level as int),
        pow2_int(level as int) > 0,
    decreases level,
{
    if level == 0 {
        assert(1u32 << 0u32 == 1u32) by (bit_vector);
    } else {
        lemma_shift_is_pow2((level - 1) as u32);
        let l = level;
        assert((1u32 << l) == 2 * (1u32 << ((l - 1) as u32))) by (bit_vector)
            requires
                0 < l < 32,
        ;
    }
}

/// The storage allocations of a texture: one image per level (six per level for a cubemap,
/// one per face), each level halving the size.
pub open spec fn storage_images(dim: Dim, size: TexSize, levels: int, pf: GlPixelFormat) -> Seq<TexImage> {
    match dim {
        Dim::Cubemap => Seq::new(
            (levels * 6) as nat,
            |k: int|
                TexImage {
                    rank: ImageRank::Two,
                    target: (glenum::TEXTURE_CUBE_MAP_POSITIVE_X + k % 6) as u32,
                    level: (k / 6) as i32,
                    iformat: pf.iformat as i32,
                    width: level_size(size.width, k / 6) as i32,
                    height: level_size(size.width, k / 6) as i32,
                    depth: 0,
                    format: pf.format,
                    encoding: pf.encoding,
                },
        ),
        _ => Seq::new(
            levels as nat,
            |l: int|
                TexImage {
                    rank: match dim {
                        Dim::Dim1 => ImageRank::One,
                        Dim::Dim2 | Dim::Dim1Array => ImageRank::Two,
                        _ => ImageRank::Three,
                    },
                    target: target_glenum(dim),
                    level: l as i32,
                    iformat: pf.iformat as i32,
                    width: level_size(size.width, l) as i32,
                    height: match dim {
                        Dim::Dim1 => 0,
                        _ => level_size(size.height, l) as i32,
                    },
                    depth: match dim {
                        Dim::Dim3 | Dim::Dim2Array => level_size(size.depth, l) as i32,
                        _ => 0,
                    },
                    format: pf.format,
                    encoding: pf.encoding,
                },
        ),
    }
}

/// Allocate the storage of a texture of pixel format `pixel_format`: the images to declare for
/// each mipmap level. `pf` is the GL format of the pixel format, if it has one; without it the
/// storage cannot be created, and the error names the pixel format.
pub fn create_texture_storage(
    dim: Dim,
    size: TexSize,
    levels: usize,
    pixel_format: PixelFormat,
    pf: Option<GlPixelFormat>,
) -> (r: Result<Vec<TexImage>, TextureError>)
    requires
        levels <= 32,
    ensures
        match pf {
            Some(pf) => r matches Ok(images) && images@ == storage_images(dim, size, levels as int, pf),
            None => r matches Err(TextureError::TextureStorageCreationFailed(m)) && m@
                == unsupported_format_message(pixel_format),
        },
{
    let pf = match pf {
        Some(pf) => pf,
        None => {
            let mut m = "unsupported texture pixel format: ".to_owned();
            let d = describe_pixel_format(pixel_format);
            m.append(d.as_str());
            proof {
                reveal_strlit("unsupported texture pixel format: ");
            }
            return Err(TextureError::TextureStorageCreationFailed(m));
        },
    };
    let rank = match dim {
        Dim::Dim1 => ImageRank::One,
        Dim::Dim2 | Dim::Dim1Array | Dim::Cubemap => ImageRank::Two,
        _ => ImageRank::Three,
    };
    let target = opengl_target(dim);
    let mut images: Vec<TexImage> = Vec::new();
    let mut level: usize = 0;
    let ghost expected = storage_images(dim, size, levels as int, pf);
    let faces: usize = match dim {
        Dim::Cubemap => 6,
        _ => 1,
    };
    while level < levels
        invariant
            levels <= 32,
            level <= levels,
            faces == (match dim {
                Dim::Cubemap => 6usize,
                _ => 1usize,
            }),
            target == target_glenum(dim),
            rank == (match dim {
                Dim::Dim1 => ImageRank::One,
                Dim::Dim2 | Dim::Dim1Array | Dim::Cubemap => ImageRank::Two,
                _ => ImageRank::Three,
            }),
            expected == storage_images(dim, size, levels as int, pf),
            images@ == expected.subrange(0, (level * faces) as int),
        decreases levels - level,
    {
        let lvl = level as u32;
        proof {
            lemma_shift_is_pow2(lvl);
        }
        let div: u32 = 1u32 << lvl;
        let w = size.width / div;
        let h = size.height / div;
        let d = size.depth / div;
        let mut face: usize = 0;
        while face < faces
            invariant
                levels <= 32,
                level < levels,
                face <= faces,
                faces == (match dim {
                    Dim::Cubemap => 6usize,
                    _ => 1usize,
                }),
                target == target_glenum(dim),
                rank == (match dim {
                    Dim::Dim1 => ImageRank::One,
                    Dim::Dim2 | Dim::Dim1Array | Dim::Cubemap => ImageRank::Two,
                    _ => ImageRank::Three,
                }),
                div as int == pow2_int(level as int),
                w == level_size(size.width, level as int),
                h == level_size(size.height, level as int),
                d == level_size(size.depth, level as int),
                lvl == level,
                expected == storage_images(dim, size, levels as int, pf),
                images@ == expected.subrange(0, (level * faces + face) as int),
            decreases faces - face,
        {
            let img = match dim {
                Dim::Cubemap => TexImage {
                    rank,
                    target: glenum::TEXTURE_CUBE_MAP_POSITIVE_X + face as u32,
                    level: lvl as i32,
                    iformat: pf.iformat as i32,
                    width: w as i32,
                    height: w as i32,
                    depth: 0,
                    format: pf.format,
                    encoding: pf.encoding,
                },
                Dim::Dim1 => TexImage {
                    rank,
                    target,
                    level: lvl as i32,
                    iformat: pf.iformat as i32,
                    width: w as i32,
                    height: 0,
                    depth: 0,
                    format: pf.format,
                    encoding: pf.encoding,
                },
                Dim::Dim2 | Dim::Dim1Array => TexImage {
                    rank,
                    target,
                    level: lvl as i32,
                    iformat: pf.iformat as i32,
                    width: w as i32,
                    height: h as i32,
                    depth: 0,
                    format: pf.format,
                    encoding: pf.encoding,
                },
                _ => TexImage {
                    rank,
                    target,
                    level: lvl as i32,
                    iformat: pf.iformat as i32,
                    width: w as i32,
                    height: h as i32,
                    depth: d as i32,
                    format: pf.format,
                    encoding: pf.encoding,
                },
            };
            proof {
                let k = (level * faces + face) as int;
                if dim == Dim::Cubemap {
                    assert(k / 6 == level as int && k % 6 == face as int) by (nonlinear_arith)
                        requires
                            k == level * 6 + face,
                            0 <= face < 6,
                    ;
                }
                assert(img == expected[k]);
            }
            images.push(img);
            face = face + 1;
            assert(images@ =~= expected.subrange(0, (level * faces + face) as int));
        }
        level = level + 1;
        assert((level - 1) * faces + faces == level * faces) by (nonlinear_arith);
    }
    proof {
        assert(expected.len() == levels * faces) by (nonlinear_arith)
            requires
                expected == storage_images(dim, size, levels as int, pf),
                faces == (if dim == Dim::Cubemap { 6usize } else { 1usize }),
        ;
        assert(images@ =~= expected);
    }
    Ok(images)
}

/// Size in bits of a pixel channel.
#[derive(Clone, Copy, Debug, PartialEq, Eq, Structural)]
pub enum Size {
    Eight,
    Ten,
    Eleven,
    Sixteen,
    ThirtyTwo,
}

/// The channels of a pixel and their sizes.
#[derive(Clone, Copy, Debug, PartialEq, Eq, Structural)]
pub enum Format {
    R(Size),
    RG(Size, Size),
    RGB(Size, Size, Size),
    RGBA(Size, Size, Size, Size),
    SRGB(Size, Size, Size),
    SRGBA(Size, Size, Size, Size),
    Depth(Size),
    DepthStencil(Size, Size),
}

/// A pixel format: how its channels are encoded, and which channels of which sizes it has.
#[derive(Clone, Copy, Debug, PartialEq, Eq, Structural)]
pub struct PixelFormat {
    pub encoding: PixelType,
    pub format: Format,
}

/// The name of a pixel encoding.
pub open spec fn pixel_type_text(t: PixelType) -> Seq<char> {
    match t {
        PixelType::NormIntegral => "NormIntegral"@,
        PixelType::NormUnsigned => "NormUnsigned"@,
        PixelType::Integral => "Integral"@,
        PixelType::Unsigned => "Unsigned"@,
        PixelType::Floating => "Floating"@,
    }
}

/// The name of a channel size.
pub open spec fn size_text(s: Size) -> Seq<char> {
    match s {
        Size::Eight => "Eight"@,
        Size::Ten => "Ten"@,
        Size::Eleven => "Eleven"@,
        Size::Sixteen => "Sixteen"@,
        Size::ThirtyTwo => "ThirtyTwo"@,
    }
}

/// Channel sizes separated by commas, as `Eight, Eight, Eight`.
pub open spec fn sizes_list(sizes: Seq<Size>) -> Seq<char>
    decreases sizes.len(),
{
    if sizes.len() == 0 {
        Seq::empty()
    } else if sizes.len() == 1 {
        size_text(sizes[0])
    } else {
        sizes_list(sizes.drop_last()) + ", "@ + size_text(sizes.last())
    }
}

/// `name(a, b, ...)`: a channel layout with its sizes.
pub open spec fn sizes_text(name: Seq<char>, sizes: Seq<Size>) -> Seq<char> {
    name + "("@ + sizes_list(sizes) + ")"@
}

/// The description of a channel layout, as `RGB(Eight, Eight, Eight)`.
pub open spec fn format_text(f: Format) -> Seq<char> {
    match f {
        Format::R(r) => sizes_text("R"@, seq![r]),
        Format::RG(r, g) => sizes_text("RG"@, seq![r, g]),
        Format::RGB(r, g, b) => sizes_text("RGB"@, seq![r, g, b]),
        Format::RGBA(r, g, b, a) => sizes_text("RGBA"@, seq![r, g, b, a]),
        Format::SRGB(r, g, b) => sizes_text("SRGB"@, seq![r, g, b]),
        Format::SRGBA(r, g, b, a) => sizes_text("SRGBA"@, seq![r, g, b, a]),
        Format::Depth(d) => sizes_text("Depth"@, seq![d]),
        Format::DepthStencil(d, st) => sizes_text("DepthStencil"@, seq![d, st]),
    }
}

/// The description of a pixel format, as
/// `PixelFormat { encoding: NormUnsigned, format: RGB(Eight, Eight, Eight) }`.
pub open spec fn pixel_format_text(pf: PixelFormat) -> Seq<char> {
    "PixelFormat { encoding: "@ + pixel_type_text(pf.encoding) + ", format: "@ + format_text(pf.format) + " }"@
}

fn pixel_type_str(t: PixelType) -> (r: &'static str)
    ensures
        r@ == pixel_type_text(t),
{
    proof {
        reveal_strlit("NormIntegral");
        reveal_strlit("NormUnsigned");
        reveal_strlit("Integral");
        reveal_strlit("Unsigned");
        reveal_strlit("Floating");
    }
    match t {
        PixelType::NormIntegral => "NormIntegral",
        PixelType::NormUnsigned => "NormUnsigned",
        PixelType::Integral => "Integral",
        PixelType::Unsigned => "Unsigned",
        PixelType::Floating => "Floating",
    }
}

fn size_str(s: Size) -> (r: &'static str)
    ensures
        r@ == size_text(s),
{
    proof {
        reveal_strlit("Eight");
        reveal_strlit("Ten");
        reveal_strlit("Eleven");
        reveal_strlit("Sixteen");
        reveal_strlit("ThirtyTwo");
    }
    match s {
        Size::Eight => "Eight",
        Size::Ten => "Ten",
        Size::Eleven => "Eleven",
        Size::Sixteen => "Sixteen",
        Size::ThirtyTwo => "ThirtyTwo",
    }
}

fn push_sizes(out: &mut String, name: &str, sizes: &Vec<Size>)
    ensures
        final(out)@ == old(out)@ + sizes_text(name@, sizes@),
{
    proof {
        reveal_strlit("(");
        reveal_strlit(", ");
        reveal_strlit(")");
    }
    out.append(name);
    out.append("(");
    let mut i: usize = 0;
    while i < sizes.len()
        invariant
            i <= sizes@.len(),
            out@ == old(out)@ + name@ + "("@ + sizes_list(sizes@.subrange(0, i as int)),
        decreases sizes.len() - i,
    {
        let ghost before = out@;
        if i > 0 {
            out.append(", ");
        }
        out.append(size_str(sizes[i]));
        proof {
            let t = sizes@.subrange(0, i + 1);
            assert(t.drop_last() =~= sizes@.subrange(0, i as int));
            assert(t.last() == sizes@[i as int]);
            if i == 0 {
                assert(sizes@.subrange(0, 0) =~= Seq::<Size>::empty());
                assert(out@ =~= old(out)@ + name@ + "("@ + sizes_list(t));
            } else {
                assert(out@ =~= old(out)@ + name@ + "("@ + sizes_list(t));
            }
        }
        i = i + 1;
    }
    out.append(")");
    proof {
        assert(sizes@.subrange(0, sizes@.len() as int) =~= sizes@);
        assert(out@ =~= old(out)@ + sizes_text(name@, sizes@));
    }
}

/// Describe a pixel format, as `PixelFormat { encoding: NormUnsigned, format: RGB(Eight, Eight,
/// Eight) }`.
pub fn describe_pixel_format(pf: PixelFormat) -> (r: String)
    ensures
        r@ == pixel_format_text(pf),
{
    proof {
        reveal_strlit("PixelFormat { encoding: ");
        reveal_strlit(", format: ");
        reveal_strlit(" }");
    }
    let mut out = "PixelFormat { encoding: ".to_owned();
    out.append(pixel_type_str(pf.encoding));
    out.append(", format: ");
    let ghost mid = out@;
    match pf.format {
        Format::R(r) => push_sizes(&mut out, "R", &vec![r]),
        Format::RG(r, g) => push_sizes(&mut out, "RG", &vec![r, g]),
        Format::RGB(r, g, b) => push_sizes(&mut out, "RGB", &vec![r, g, b]),
        Format::RGBA(r, g, b, a) => push_sizes(&mut out, "RGBA", &vec![r, g, b, a]),
        Format::SRGB(r, g, b) => push_sizes(&mut out, "SRGB", &vec![r, g, b]),
        Format::SRGBA(r, g, b, a) => push_sizes(&mut out, "SRGBA", &vec![r, g, b, a]),
        Format::Depth(d) => push_sizes(&mut out, "Depth", &vec![d]),
        Format::DepthStencil(d, st) => push_sizes(&mut out, "DepthStencil", &vec![d, st]),
    }
    proof {
        reveal_strlit("R");
        reveal_strlit("RG");
        reveal_strlit("RGB");
        reveal_strlit("RGBA");
        reveal_strlit("SRGB");
        reveal_strlit("SRGBA");
        reveal_strlit("Depth");
        reveal_strlit("DepthStencil");
        assert(out@ =~= mid + format_text(pf.format));
    }
    out.append(" }");
    out
}

/// The message of a texture whose storage cannot be created for want of a GL pixel format.
pub open spec fn unsupported_format_message(pf: PixelFormat) -> Seq<char> {
    "unsupported texture pixel format: "@ + pixel_format_text(pf)
}

/// An error that can occur when creating, uploading to or reading from a texture.
#[derive(Clone, Debug, PartialEq, Eq)]
pub enum TextureError {
    /// The texture storage could not be created.
    TextureStorageCreationFailed(String),
    /// Not enough texels were provided.
    NotEnoughPixels { expected_bytes: usize, provided_bytes: usize },
    /// The pixel format is not supported.
    UnsupportedPixelFormat(PixelFormat),
    /// The texels could not be read back.
    CannotRetrieveTexels(String),
}

/// What an upload of texels sends, once checked: the number of bytes the texture expects, and
/// the row alignment to declare.
#[derive(Clone, Copy, Debug, PartialEq, Eq, Structural)]
pub struct UploadPlan {
    pub expected_bytes: usize,
    pub unpack_alignment: PixelStore,
}

/// The outcome of checking an upload of texels.
pub open spec fn check_texel_upload_spec(
    texel_count: usize,
    pixel_bytes: usize,
    width: u32,
    provided_len: Option<usize>,
    item_bytes: usize,
) -> Result<UploadPlan, TextureError> {
    match provided_len {
        None => Err::<UploadPlan, TextureError>(
            TextureError::NotEnoughPixels { expected_bytes: (texel_count * pixel_bytes) as usize, provided_bytes: 0 },
        ),
        Some(n) => if n * item_bytes < texel_count * pixel_bytes {
            Err::<UploadPlan, TextureError>(
                TextureError::NotEnoughPixels {
                    expected_bytes: (texel_count * pixel_bytes) as usize,
                    provided_bytes: (n * item_bytes) as usize,
                },
            )
        } else {
            Ok::<UploadPlan, TextureError>(
                UploadPlan {
                    expected_bytes: (texel_count * pixel_bytes) as usize,
                    unpack_alignment: PixelStore {
                        pname: glenum::UNPACK_ALIGNMENT,
                        value: row_alignment(((width * pixel_bytes) % 8) as usize),
                    },
                },
            )
        },
    }
}

/// Check an upload of texels: `texel_count` texels of `pixel_bytes` bytes are expected, for a
/// texture `width` texels wide; the base level provides `provided_len` items of `item_bytes`
/// bytes, if it is given at all.
pub fn check_texel_upload(
    texel_count: usize,
    pixel_bytes: usize,
    width: u32,
    provided_len: Option<usize>,
    item_bytes: usize,
) -> (r: Result<UploadPlan, TextureError>)
    requires
        texel_count * pixel_bytes <= usize::MAX,
        width * pixel_bytes <= usize::MAX,
        provided_len matches Some(n) ==> n * item_bytes <= usize::MAX,
    ensures
        r == check_texel_upload_spec(texel_count, pixel_bytes, width, provided_len, item_bytes),
{
    let expected_bytes = texel_count * pixel_bytes;
    let n = match provided_len {
        Some(n) => n,
        None => return Err(TextureError::NotEnoughPixels { expected_bytes, provided_bytes: 0 }),
    };
    let input_bytes = n * item_bytes;
    if input_bytes < expected_bytes {
        return Err(TextureError::NotEnoughPixels { expected_bytes, provided_bytes: input_bytes });
    }
    let skip_bytes = (width as usize * pixel_bytes) % 8;
    Ok(UploadPlan { expected_bytes, unpack_alignment: set_unpack_alignment(skip_bytes) })
}

/// The shape of the texels given for an upload: a base level, after which mipmaps may be
/// generated, or each mipmap level explicitly; each level is given by its number of items.
#[derive(Clone, Debug, PartialEq, Eq)]
pub enum TexelUploadShape {
    BaseLevel { len: usize, gen_mipmaps: bool },
    Levels(Vec<usize>),
}

/// The number of items of the base level of an upload, if it has one.
pub open spec fn base_level_len(shape: TexelUploadShape) -> Option<usize> {
    match shape {
        TexelUploadShape::BaseLevel { len, .. } => Some(len),
        TexelUploadShape::Levels(ls) => if ls@.len() > 0 {
            Some(ls@[0])
        } else {
            None
        },
    }
}

/// What an upload of texels does once checked: the row alignment to declare, the mipmap levels
/// whose texels are set (each with its own texels, in this order), and whether mipmaps are then
/// generated from the base level.
#[derive(Clone, Debug, PartialEq, Eq)]
pub struct TexelUploadPlan {
    pub check: UploadPlan,
    pub levels: Vec<i32>,
    pub generate_mipmap: bool,
}

/// Plan an upload of texels: `texel_count` texels of `pixel_bytes` bytes are expected, for a
/// texture `width` texels wide, and each given item has `item_bytes` bytes. The base level must
/// hold enough bytes; then a base-level upload sets level 0 and generates mipmaps when asked,
/// while an upload of explicit levels sets each level in turn and generates none.
pub fn plan_texel_upload(
    texel_count: usize,
    pixel_bytes: usize,
    width: u32,
    shape: &TexelUploadShape,
    item_bytes: usize,
) -> (r: Result<TexelUploadPlan, TextureError>)
    requires
        texel_count * pixel_bytes <= usize::MAX,
        width * pixel_bytes <= usize::MAX,
        base_level_len(*shape) matches Some(n) ==> n * item_bytes <= usize::MAX,
        shape matches TexelUploadShape::Levels(ls) ==> ls@.len() <= i32::MAX,
    ensures
        match check_texel_upload_spec(texel_count, pixel_bytes, width, base_level_len(*shape), item_bytes) {
            Err(e) => r == Err::<TexelUploadPlan, TextureError>(e),
            Ok(check) => r matches Ok(plan) && plan.check == check && match *shape {
                TexelUploadShape::BaseLevel { gen_mipmaps, .. } => plan.levels@ == seq![0i32]
                    && plan.generate_mipmap == gen_mipmaps,
                TexelUploadShape::Levels(ls) => plan.levels@ == Seq::new(ls@.len(), |i: int| i as i32)
                    && !plan.generate_mipmap,
            },
        },
{
    let base = match shape {
        TexelUploadShape::BaseLevel { len, .. } => Some(*len),
        TexelUploadShape::Levels(ls) => if ls.len() > 0 {
            Some(ls[0])
        } else {
            None
        },
    };
    let check = match check_texel_upload(texel_count, pixel_bytes, width, base, item_bytes) {
        Ok(c) => c,
        Err(e) => return Err(e),
    };
    match shape {
        TexelUploadShape::BaseLevel { gen_mipmaps, .. } => {
            let levels = vec![0i32];
            Ok(TexelUploadPlan { check, levels, generate_mipmap: *gen_mipmaps })
        },
        TexelUploadShape::Levels(ls) => {
            let mut levels: Vec<i32> = Vec::new();
            let mut i: usize = 0;
            while i < ls.len()
                invariant
                    i <= ls@.len(),
                    ls@.len() <= i32::MAX,
                    levels@ == Seq::new(i as nat, |k: int| k as i32),
                decreases ls.len() - i,
            {
                levels.push(i as i32);
                i = i + 1;
                assert(levels@ =~= Seq::new(i as nat, |k: int| k as i32));
            }
            Ok(TexelUploadPlan { check, levels, generate_mipmap: false })
        },
    }
}

/// An upload of texels into a region of a texture at one mipmap level.
#[derive(Clone, Copy, Debug, PartialEq, Eq, Structural)]
pub struct TexSubImage {
    pub rank: ImageRank,
    pub target: u32,
    pub level: i32,
    pub x: i32,
    pub y: i32,
    pub z: i32,
    pub width: i32,
    pub height: i32,
    pub depth: i32,
    pub format: u32,
    pub encoding: u32,
}

/// The offset of a region of a texture; unused components are ignored. For a cubemap, `z` is
/// the face.
#[derive(Clone, Copy, Debug, PartialEq, Eq, Structural)]
pub struct TexOffset {
    pub x: u32,
    pub y: u32,
    pub z: u32,
}

/// The upload that sets the texels of a region of a texture at one level.
pub open spec fn sub_image_spec(
    dim: Dim,
    target: u32,
    pf: GlPixelFormat,
    level: i32,
    size: TexSize,
    off: TexOffset,
) -> TexSubImage {
    match dim {
        Dim::Dim1 => TexSubImage {
            rank: ImageRank::One,
            target,
            level,
            x: off.x as i32,
            y: 0,
            z: 0,
            width: size.width as i32,
            height: 0,
            depth: 0,
            format: pf.format,
            encoding: pf.encoding,
        },
        Dim::Dim2 | Dim::Dim1Array => TexSubImage {
            rank: ImageRank::Two,
            target,
            level,
            x: off.x as i32,
            y: off.y as i32,
            z: 0,
            width: size.width as i32,
            height: size.height as i32,
            depth: 0,
            format: pf.format,
            encoding: pf.encoding,
        },
        Dim::Cubemap => TexSubImage {
            rank: ImageRank::Two,
            target: (glenum::TEXTURE_CUBE_MAP_POSITIVE_X + off.z) as u32,
            level,
            x: off.x as i32,
            y: off.y as i32,
            z: 0,
            width: size.width as i32,
            height: size.width as i32,
            depth: 0,
            format: pf.format,
            encoding: pf.encoding,
        },
        _ => TexSubImage {
            rank: ImageRank::Three,
            target,
            level,
            x: off.x as i32,
            y: off.y as i32,
            z: off.z as i32,
            width: size.width as i32,
            height: size.height as i32,
            depth: size.depth as i32,
            format: pf.format,
            encoding: pf.encoding,
        },
    }
}

/// The upload that sets the texels of a region of a texture at one level; without a GL format
/// for `pixel_format` the pixel format is unsupported, and the error names it.
pub fn set_texels(
    dim: Dim,
    target: u32,
    pixel_format: PixelFormat,
    pf: Option<GlPixelFormat>,
    level: i32,
    size: TexSize,
    off: TexOffset,
) -> (r: Result<TexSubImage, TextureError>)
    requires
        dim == Dim::Cubemap ==> off.z <= u32::MAX - glenum::TEXTURE_CUBE_MAP_POSITIVE_X,
    ensures
        match pf {
            Some(pf) => r == Ok::<TexSubImage, TextureError>(sub_image_spec(dim, target, pf, level, size, off)),
            None => r == Err::<TexSubImage, TextureError>(TextureError::UnsupportedPixelFormat(pixel_format)),
        },
{
    let pf = match pf {
        Some(pf) => pf,
        None => return Err(TextureError::UnsupportedPixelFormat(pixel_format)),
    };
    let img = match dim {
        Dim::Dim1 => TexSubImage {
            rank: ImageRank::One,
            target,
            level,
            x: off.x as i32,
            y: 0,
            z: 0,
            width: size.width as i32,
            height: 0,
            depth: 0,
            format: pf.format,
            encoding: pf.encoding,
        },
        Dim::Dim2 | Dim::Dim1Array => TexSubImage {
            rank: ImageRank::Two,
            target,
            level,
            x: off.x as i32,
            y: off.y as i32,
            z: 0,
            width: size.width as i32,
            height: size.height as i32,
            depth: 0,
            format: pf.format,
            encoding: pf.encoding,
        },
        Dim::Cubemap => TexSubImage {
            rank: ImageRank::Two,
            target: glenum::TEXTURE_CUBE_MAP_POSITIVE_X + off.z,
            level,
            x: off.x as i32,
            y: off.y as i32,
            z: 0,
            width: size.width as i32,
            height: size.width as i32,
            depth: 0,
            format: pf.format,
            encoding: pf.encoding,
        },
        _ => TexSubImage {
            rank: ImageRank::Three,
            target,
            level,
            x: off.x as i32,
            y: off.y as i32,
            z: off.z as i32,
            width: size.width as i32,
            height: size.height as i32,
            depth: size.depth as i32,
            format: pf.format,
            encoding: pf.encoding,
        },
    };
    Ok(img)
}

/// The pack alignment and texel count to read the texels of a `w`×`h` texture back, with
/// `pixel_bytes` bytes and `channels` channels per texel.
pub fn readback_plan(pixel_bytes: usize, channels: usize, w: i32, h: i32) -> (r: (PixelStore, usize))
    requires
        0 <= w,
        0 <= h,
        pixel_bytes * w <= usize::MAX,
        w * h <= i32::MAX,
        w * h * channels <= usize::MAX,
    ensures
        r.0 == (PixelStore { pname: glenum::PACK_ALIGNMENT, value: row_alignment(((pixel_bytes * w) % 8) as usize) }),
        r.1 == w * h * channels,
{
    let skip_bytes = (pixel_bytes * w as usize) % 8;
    proof {
        assert(0 <= w * h) by (nonlinear_arith)
            requires
                0 <= w,
                0 <= h,
        ;
    }
    let wh = (w * h) as usize;
    let count = wh * channels;
    (set_pack_alignment(skip_bytes), count)
}

/// Attaching a level of a texture to a framebuffer attachment, or detaching it (`texture` is
/// `None`).
#[derive(Clone, Copy, Debug, PartialEq, Eq, Structural)]
pub struct FramebufferTexture2D {
    pub target: u32,
    pub attachment: u32,
    pub tex_target: u32,
    pub texture: Option<u32>,
    pub level: i32,
}

/// Reading a rectangle of pixels from the read framebuffer.
#[derive(Clone, Copy, Debug, PartialEq, Eq, Structural)]
pub struct ReadPixels {
    pub x: i32,
    pub y: i32,
    pub width: i32,
    pub height: i32,
    pub format: u32,
    pub encoding: u32,
}

/// How the texels of a texture are read back in WebGL 2, which has no call to read a texture:
/// the pack alignment and the number of texel components to receive, then the readback
/// framebuffer to bind for reading, the attachment of the texture to it, the read, and the
/// detachment of the texture.
#[derive(Clone, Copy, Debug, PartialEq, Eq, Structural)]
pub struct WebGlReadback {
    pub pack_alignment: PixelStore,
    pub texel_count: usize,
    pub framebuffer: u32,
    pub attach: FramebufferTexture2D,
    pub read: ReadPixels,
    pub detach: FramebufferTexture2D,
}

/// Plan reading back the texels of texture `texture` (bound to `tex_target`), `w`×`h` texels of
/// pixel format `pixel_format`, `pixel_bytes` bytes and `channels` components per texel. `pf`
/// is the GL format of the pixel format, if it has one; `readback_framebuffer` the framebuffer
/// kept for readbacks, if it could be had.
pub fn webgl_readback(
    pixel_format: PixelFormat,
    pf: Option<GlPixelFormat>,
    readback_framebuffer: Option<u32>,
    tex_target: u32,
    texture: u32,
    pixel_bytes: usize,
    channels: usize,
    w: u32,
    h: u32,
) -> (r: Result<WebGlReadback, TextureError>)
    requires
        pixel_bytes * w <= usize::MAX,
        w * h * channels <= usize::MAX,
    ensures
        pf is None ==> r == Err::<WebGlReadback, TextureError>(TextureError::UnsupportedPixelFormat(pixel_format)),
        pf is Some && readback_framebuffer is None ==> (r matches Err(TextureError::CannotRetrieveTexels(m))
            && m@ == "unavailable readback framebuffer"@),
        pf matches Some(f) ==> readback_framebuffer matches Some(fb) ==> r == Ok::<WebGlReadback, TextureError>(
            WebGlReadback {
                pack_alignment: PixelStore {
                    pname: glenum::PACK_ALIGNMENT,
                    value: row_alignment(((pixel_bytes * w) % 8) as usize),
                },
                texel_count: (w * h * channels) as usize,
                framebuffer: fb,
                attach: FramebufferTexture2D {
                    target: glenum::READ_FRAMEBUFFER,
                    attachment: glenum::COLOR_ATTACHMENT0,
                    tex_target,
                    texture: Some(texture),
                    level: 0,
                },
                read: ReadPixels {
                    x: 0,
                    y: 0,
                    width: w as i32,
                    height: h as i32,
                    format: f.format,
                    encoding: f.encoding,
                },
                detach: FramebufferTexture2D {
                    target: glenum::READ_FRAMEBUFFER,
                    attachment: glenum::COLOR_ATTACHMENT0,
                    tex_target,
                    texture: None,
                    level: 0,
                },
            },
        ),
{
    let f = match pf {
        Some(f) => f,
        None => return Err(TextureError::UnsupportedPixelFormat(pixel_format)),
    };
    let skip_bytes = (pixel_bytes * w as usize) % 8;
    let pack_alignment = set_pack_alignment(skip_bytes);
    let fb = match readback_framebuffer {
        Some(fb) => fb,
        None => {
            proof {
                reveal_strlit("unavailable readback framebuffer");
            }
            return Err(TextureError::CannotRetrieveTexels("unavailable readback framebuffer".to_owned()));
        },
    };
    let texel_count = if channels == 0 {
        assert(w * h * channels == 0) by (nonlinear_arith)
            requires
                channels == 0,
        ;
        0
    } else {
        assert(0 <= w * h <= w * h * channels) by (nonlinear_arith)
            requires
                channels > 0,
        ;
        let wh = w as usize * h as usize;
        wh * channels
    };
    Ok(
        WebGlReadback {
            pack_alignment,
            texel_count,
            framebuffer: fb,
            attach: FramebufferTexture2D {
                target: glenum::READ_FRAMEBUFFER,
                attachment: glenum::COLOR_ATTACHMENT0,
                tex_target,
                texture: Some(texture),
                level: 0,
            },
            read: ReadPixels {
                x: 0,
                y: 0,
                width: w as i32,
                height: h as i32,
                format: f.format,
                encoding: f.encoding,
            },
            detach: FramebufferTexture2D {
                target: glenum::READ_FRAMEBUFFER,
                attachment: glenum::COLOR_ATTACHMENT0,
                tex_target,
                texture: None,
                level: 0,
            },
        },
    )
}


/// Each texture dimension is bound to the GL target of that name (`TEXTURE_1D` 0x0DE0, `TEXTURE_2D`
/// 0x0DE1, `TEXTURE_3D` 0x806F, `TEXTURE_CUBE_MAP` 0x8513, `TEXTURE_1D_ARRAY` 0x8C18,
/// `TEXTURE_2D_ARRAY` 0x8C1A), and two dimensions never share one.
pub proof fn law_target_enumerants(x: Dim, y: Dim)
    ensures
        x is Dim1 ==> target_glenum(x) == 0x0DE0u32,
        x is Dim2 ==> target_glenum(x) == 0x0DE1u32,
        x is Dim3 ==> target_glenum(x) == 0x806Fu32,
        x is Cubemap ==> target_glenum(x) == 0x8513u32,
        x is Dim1Array ==> target_glenum(x) == 0x8C18u32,
        x is Dim2Array ==> target_glenum(x) == 0x8C1Au32,
        target_glenum(x) == target_glenum(y) ==> x == y,
{
}

/// Each wrapping mode is set as the GL value of that name (`CLAMP_TO_EDGE` 0x812F, `REPEAT` 0x2901,
/// `MIRRORED_REPEAT` 0x8370), and two modes never share one.
pub proof fn law_wrap_enumerants(x: Wrap, y: Wrap)
    ensures
        x is ClampToEdge ==> wrap_glenum(x) == 0x812Fu32,
        x is Repeat ==> wrap_glenum(x) == 0x2901u32,
        x is MirroredRepeat ==> wrap_glenum(x) == 0x8370u32,
        wrap_glenum(x) == wrap_glenum(y) ==> x == y,
{
}

/// Each minification filter is set as the GL value of that name, and two filters never share one.
pub proof fn law_min_filter_enumerants(x: MinFilter, y: MinFilter)
    ensures
        x is Nearest ==> min_filter_glenum(x) == 0x2600u32,
        x is Linear ==> min_filter_glenum(x) == 0x2601u32,
        x is NearestMipmapNearest ==> min_filter_glenum(x) == 0x2700u32,
        x is NearestMipmapLinear ==> min_filter_glenum(x) == 0x2702u32,
        x is LinearMipmapNearest ==> min_filter_glenum(x) == 0x2701u32,
        x is LinearMipmapLinear ==> min_filter_glenum(x) == 0x2703u32,
        min_filter_glenum(x) == min_filter_glenum(y) ==> x == y,
{
}

/// Magnification is `NEAREST` (0x2600) for the nearest filter and `LINEAR` (0x2601) for the linear one;
/// the two differ.
pub proof fn law_mag_filter_enumerants(x: MagFilter, y: MagFilter)
    ensures
        x is Nearest ==> mag_filter_glenum(x) == 0x2600u32,
        x is Linear ==> mag_filter_glenum(x) == 0x2601u32,
        mag_filter_glenum(x) == mag_filter_glenum(y) ==> x == y,
{
}


proof fn lemma_pow2_int_is_pow2(n: nat)
    ensures
        pow2_int(n as int) == pow2(n) as int,
    decreases n,
{
    if n == 0 {
        lemma2_to64();
    } else {
        lemma_pow2_int_is_pow2((n - 1) as nat);
        lemma_pow2_unfold(n);
    }
}

proof fn lemma_level_size_is_halved(s: u32, l: int)
    requires
        0 <= l,
    ensures
        level_size(s, l) as i32 == halved(s, l),
{
    lemma_pow2_int_is_pow2(l as nat);
    vstd::arithmetic::power2::lemma_pow2_pos(l as nat);
    let p = pow2_int(l);
    assert(0 <= s as int / p <= s as int) by (nonlinear_arith)
        requires
            p > 0,
    ;
}

/// The size of level `l` of a texture side of `s` texels: the side halved `l` times, rounded down.
pub open spec fn halved(s: u32, l: int) -> i32 {
    (s as int / pow2(l as nat) as int) as i32
}

/// What storage allocates for a texture: for every dimension but the cubemap, one image per level
/// `l`, for level `l` of the texture's own target, whose sides are the requested ones halved `l`
/// times. A 1D texture has a width only; a 2D texture and a 1D array texture (whose height counts
/// its layers) have a width and a height; a 3D texture and a 2D array texture also have a depth,
/// which for a 2D array texture is its layer count. A cubemap has six square images per level,
/// for the faces `TEXTURE_CUBE_MAP_POSITIVE_X` (0x8515) onwards, in order. Every image carries the
/// GL format of the pixel format.
pub proof fn law_storage_images(dim: Dim, size: TexSize, levels: int, pf: GlPixelFormat)
    requires
        0 <= levels,
    ensures
        dim != Dim::Cubemap ==> storage_images(dim, size, levels, pf).len() == levels,
        dim == Dim::Cubemap ==> storage_images(dim, size, levels, pf).len() == 6 * levels,
        forall|k: int|
            0 <= k < storage_images(dim, size, levels, pf).len() ==> {
                let img = #[trigger] storage_images(dim, size, levels, pf)[k];
                &&& img.iformat == pf.iformat as i32
                &&& img.format == pf.format
                &&& img.encoding == pf.encoding
            },
        forall|l: int|
            0 <= l < levels && dim != Dim::Cubemap ==> {
                let img = #[trigger] storage_images(dim, size, levels, pf)[l];
                &&& img.level == l as i32
                &&& img.target == target_glenum(dim)
                &&& img.width == halved(size.width, l)
                &&& (dim == Dim::Dim1 ==> img.rank == ImageRank::One && img.height == 0 && img.depth == 0)
                &&& (dim == Dim::Dim2 || dim == Dim::Dim1Array ==> img.rank == ImageRank::Two
                    && img.height == halved(size.height, l) && img.depth == 0)
                &&& (dim == Dim::Dim3 || dim == Dim::Dim2Array ==> img.rank == ImageRank::Three
                    && img.height == halved(size.height, l) && img.depth == halved(size.depth, l))
            },
        forall|l: int, f: int|
            0 <= l < levels && 0 <= f < 6 && dim == Dim::Cubemap ==> {
                let img = #[trigger] storage_images(dim, size, levels, pf)[6 * l + f];
                &&& img.rank == ImageRank::Two
                &&& img.target == 0x8515 + f
                &&& img.level == l as i32
                &&& img.width == halved(size.width, l)
                &&& img.height == halved(size.width, l)
                &&& img.depth == 0
            },
{
    assert forall|l: int| 0 <= l < levels implies level_size(size.width, l) as i32 == halved(size.width, l)
        && level_size(size.height, l) as i32 == halved(size.height, l) && level_size(size.depth, l) as i32
        == halved(size.depth, l) by {
        lemma_level_size_is_halved(size.width, l);
        lemma_level_size_is_halved(size.height, l);
        lemma_level_size_is_halved(size.depth, l);
    }
    if dim == Dim::Cubemap {
        assert forall|l: int, f: int|
            #![trigger storage_images(dim, size, levels, pf)[6 * l + f]]
            0 <= l < levels && 0 <= f < 6 implies (6 * l + f) / 6 == l && (6 * l + f)
            % 6 == f && 0 <= 6 * l + f < 6 * levels by {
            assert((6 * l + f) / 6 == l && (6 * l + f) % 6 == f) by (nonlinear_arith)
                requires
                    0 <= f < 6,
            ;
        }
    }
}

/// The parameters that apply a sampler to a texture of target `target`, in order: the wrapping
/// of the r, s and t coordinates (`TEXTURE_WRAP_R` 0x8072, `TEXTURE_WRAP_S` 0x2802,
/// `TEXTURE_WRAP_T` 0x2803), the minification filter (`TEXTURE_MIN_FILTER` 0x2801), the
/// magnification filter (`TEXTURE_MAG_FILTER` 0x2800, `LINEAR` 0x2601 for a linear filter and
/// `NEAREST` 0x2600 for the nearest one), then the depth comparison: with one, its function
/// (`TEXTURE_COMPARE_FUNC` 0x884D) and the compare mode `COMPARE_REF_TO_TEXTURE` (0x884E); without
/// one, compare mode 0 (`NONE`).
pub proof fn law_sampler_parameters(target: u32, sampler: Sampler)
    ensures
        ({
            let p = sampler_parameters_spec(target, sampler);
            &&& p.len() == (if sampler.depth_comparison is Some { 7int } else { 6int })
            &&& forall|i: int| 0 <= i < p.len() ==> (#[trigger] p[i]).target == target
            &&& p[0].pname == 0x8072 && p[0].value == wrap_glenum(sampler.wrap_r) as i32
            &&& p[1].pname == 0x2802 && p[1].value == wrap_glenum(sampler.wrap_s) as i32
            &&& p[2].pname == 0x2803 && p[2].value == wrap_glenum(sampler.wrap_t) as i32
            &&& p[3].pname == 0x2801 && p[3].value == min_filter_glenum(sampler.min_filter) as i32
            &&& p[4].pname == 0x2800
            &&& (sampler.mag_filter == MagFilter::Linear ==> p[4].value == 0x2601)
            &&& (sampler.mag_filter == MagFilter::Nearest ==> p[4].value == 0x2600)
            &&& match sampler.depth_comparison {
                Some(fun) => p[5].pname == 0x884D && p[5].value == render_state::comparison_glenum(fun) as i32
                    && p[6].pname == 0x884C && p[6].value == 0x884E,
                None => p[5].pname == 0x884C && p[5].value == 0,
            }
        }),
{
    let p = sampler_parameters_spec(target, sampler);
    assert forall|i: int| 0 <= i < p.len() implies (#[trigger] p[i]).target == target by {
    }
}


/// A region update is sent to the texture's own target at the asked level, at the asked offset
/// and of the asked size, in the ranks of the dimension: a 1D texture takes a width at offset x;
/// a 2D texture and a 1D array texture a width and a height at (x, y); a 3D texture and a 2D
/// array texture also a depth at z. For a cubemap, z picks the face: the update goes to face
/// target `TEXTURE_CUBE_MAP_POSITIVE_X` (0x8515) plus z, as a square of the asked width at
/// (x, y). The texels are in the GL format of the pixel format.
pub proof fn law_region_update(dim: Dim, target: u32, pf: GlPixelFormat, level: i32, size: TexSize, off: TexOffset)
    requires
        dim == Dim::Cubemap ==> off.z <= u32::MAX - 0x8515,
    ensures
        ({
            let u = sub_image_spec(dim, target, pf, level, size, off);
            &&& u.level == level
            &&& u.format == pf.format
            &&& u.encoding == pf.encoding
            &&& u.x == off.x as i32
            &&& u.width == size.width as i32
            &&& (dim == Dim::Dim1 ==> u.rank == ImageRank::One && u.target == target && u.y == 0 && u.z == 0
                && u.height == 0 && u.depth == 0)
            &&& (dim == Dim::Dim2 || dim == Dim::Dim1Array ==> u.rank == ImageRank::Two && u.target == target
                && u.y == off.y as i32 && u.z == 0 && u.height == size.height as i32 && u.depth == 0)
            &&& (dim == Dim::Dim3 || dim == Dim::Dim2Array ==> u.rank == ImageRank::Three && u.target == target
                && u.y == off.y as i32 && u.z == off.z as i32 && u.height == size.height as i32 && u.depth
                == size.depth as i32)
            &&& (dim == Dim::Cubemap ==> u.rank == ImageRank::Two && u.target == 0x8515 + off.z && u.y
                == off.y as i32 && u.z == 0 && u.height == size.width as i32 && u.depth == 0)
        }),
{
}

} // verus!
