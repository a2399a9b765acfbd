use luminance_gl::glenum;
use luminance_gl::render_state::Comparison;
use luminance_gl::shader::PixelType;
use luminance_gl::texture::{
    apply_sampler_to_texture, check_texel_upload, create_texture_storage, describe_pixel_format, opengl_mag_filter,
    opengl_min_filter, opengl_target, opengl_wrap, plan_texel_upload, readback_plan, set_pack_alignment, set_texels,
    set_texture_levels, set_unpack_alignment, webgl_readback, webgl_target, Dim, Format, FramebufferTexture2D,
    GlPixelFormat, ImageRank, MagFilter, MinFilter, PixelFormat, PixelStore, ReadPixels, Sampler, Size, TexImage,
    TexOffset, TexParameter, TexSize, TexSubImage, TexelUploadPlan, TexelUploadShape, TextureError, UploadPlan,
    WebGlReadback, Wrap,
};

const RGB8: GlPixelFormat = GlPixelFormat { format: 0x1907, iformat: 0x8051, encoding: glenum::UNSIGNED_BYTE };

const RGB8_PIXELS: PixelFormat =
    PixelFormat { encoding: PixelType::NormUnsigned, format: Format::RGB(Size::Eight, Size::Eight, Size::Eight) };

#[test]
fn texture_targets() {
    assert_eq!(opengl_target(Dim::Dim1), glenum::TEXTURE_1D);
    assert_eq!(opengl_target(Dim::Dim2), glenum::TEXTURE_2D);
    assert_eq!(opengl_target(Dim::Cubemap), glenum::TEXTURE_CUBE_MAP);
    assert_eq!(opengl_target(Dim::Dim1Array), glenum::TEXTURE_1D_ARRAY);
    assert_eq!(webgl_target(Dim::Dim2), Some(glenum::TEXTURE_2D));
    assert_eq!(webgl_target(Dim::Dim1), None);
    assert_eq!(webgl_target(Dim::Dim1Array), None);
}

#[test]
fn sampler_values() {
    assert_eq!(opengl_wrap(Wrap::ClampToEdge), glenum::CLAMP_TO_EDGE);
    assert_eq!(opengl_wrap(Wrap::Repeat), glenum::REPEAT);
    assert_eq!(opengl_wrap(Wrap::MirroredRepeat), glenum::MIRRORED_REPEAT);
    assert_eq!(opengl_min_filter(MinFilter::LinearMipmapNearest), glenum::LINEAR_MIPMAP_NEAREST);
    assert_eq!(opengl_min_filter(MinFilter::NearestMipmapLinear), glenum::NEAREST_MIPMAP_LINEAR);
    assert_eq!(opengl_mag_filter(MagFilter::Nearest), glenum::NEAREST);
}

#[test]
fn applying_a_sampler() {
    let sampler = Sampler {
        wrap_r: Wrap::ClampToEdge,
        wrap_s: Wrap::Repeat,
        wrap_t: Wrap::MirroredRepeat,
        min_filter: MinFilter::Linear,
        mag_filter: MagFilter::Nearest,
        depth_comparison: None,
    };
    let t = glenum::TEXTURE_2D;
    assert_eq!(
        apply_sampler_to_texture(t, sampler),
        vec![
            TexParameter { target: t, pname: glenum::TEXTURE_WRAP_R, value: glenum::CLAMP_TO_EDGE as i32 },
            TexParameter { target: t, pname: glenum::TEXTURE_WRAP_S, value: glenum::REPEAT as i32 },
            TexParameter { target: t, pname: glenum::TEXTURE_WRAP_T, value: glenum::MIRRORED_REPEAT as i32 },
            TexParameter { target: t, pname: glenum::TEXTURE_MIN_FILTER, value: glenum::LINEAR as i32 },
            TexParameter { target: t, pname: glenum::TEXTURE_MAG_FILTER, value: glenum::NEAREST as i32 },
            TexParameter { target: t, pname: glenum::TEXTURE_COMPARE_MODE, value: 0 },
        ]
    );
    let depth = Sampler { depth_comparison: Some(Comparison::GreaterOrEqual), ..sampler };
    let params = apply_sampler_to_texture(t, depth);
    assert_eq!(params.len(), 7);
    assert_eq!(params[5], TexParameter { target: t, pname: glenum::TEXTURE_COMPARE_FUNC, value: glenum::GEQUAL as i32 });
    assert_eq!(
        params[6],
        TexParameter { target: t, pname: glenum::TEXTURE_COMPARE_MODE, value: glenum::COMPARE_REF_TO_TEXTURE as i32 }
    );
}

#[test]
fn texture_levels() {
    assert_eq!(
        set_texture_levels(glenum::TEXTURE_2D, 3),
        vec![
            TexParameter { target: glenum::TEXTURE_2D, pname: glenum::TEXTURE_BASE_LEVEL, value: 0 },
            TexParameter { target: glenum::TEXTURE_2D, pname: glenum::TEXTURE_MAX_LEVEL, value: 3 },
        ]
    );
}

#[test]
fn pixel_transfer_alignments() {
    assert_eq!(set_unpack_alignment(0), PixelStore { pname: glenum::UNPACK_ALIGNMENT, value: 8 });
    assert_eq!(set_unpack_alignment(2), PixelStore { pname: glenum::UNPACK_ALIGNMENT, value: 2 });
    assert_eq!(set_unpack_alignment(4), PixelStore { pname: glenum::UNPACK_ALIGNMENT, value: 4 });
    assert_eq!(set_unpack_alignment(3), PixelStore { pname: glenum::UNPACK_ALIGNMENT, value: 1 });
    assert_eq!(set_pack_alignment(6), PixelStore { pname: glenum::PACK_ALIGNMENT, value: 1 });
    assert_eq!(set_pack_alignment(0), PixelStore { pname: glenum::PACK_ALIGNMENT, value: 8 });
}

#[test]
fn storage_of_a_2d_texture_halves_each_level() {
    let images = create_texture_storage(Dim::Dim2, TexSize { width: 8, height: 4, depth: 0 }, 3, RGB8_PIXELS, Some(RGB8)).unwrap();
    let expected: Vec<TexImage> = (0..3)
        .map(|l| TexImage {
            rank: ImageRank::Two,
            target: glenum::TEXTURE_2D,
            level: l,
            iformat: 0x8051,
            width: 8 >> l,
            height: 4 >> l,
            depth: 0,
            format: 0x1907,
            encoding: glenum::UNSIGNED_BYTE,
        })
        .collect();
    assert_eq!(images, expected);
}

#[test]
fn storage_of_a_cubemap_has_six_faces_per_level() {
    let images = create_texture_storage(Dim::Cubemap, TexSize { width: 16, height: 0, depth: 0 }, 2, RGB8_PIXELS, Some(RGB8)).unwrap();
    assert_eq!(images.len(), 12);
    assert_eq!(images[0].target, glenum::TEXTURE_CUBE_MAP_POSITIVE_X);
    assert_eq!(images[5].target, glenum::TEXTURE_CUBE_MAP_POSITIVE_X + 5);
    assert_eq!((images[5].width, images[5].height, images[5].level), (16, 16, 0));
    assert_eq!(images[6].target, glenum::TEXTURE_CUBE_MAP_POSITIVE_X);
    assert_eq!((images[11].width, images[11].height, images[11].level), (8, 8, 1));
}

#[test]
fn storage_of_1d_and_3d_textures() {
    let images = create_texture_storage(Dim::Dim1, TexSize { width: 5, height: 9, depth: 9 }, 1, RGB8_PIXELS, Some(RGB8)).unwrap();
    assert_eq!((images[0].rank, images[0].width, images[0].height, images[0].depth), (ImageRank::One, 5, 0, 0));
    let images = create_texture_storage(Dim::Dim3, TexSize { width: 4, height: 4, depth: 2 }, 2, RGB8_PIXELS, Some(RGB8)).unwrap();
    assert_eq!((images[1].rank, images[1].width, images[1].height, images[1].depth), (ImageRank::Three, 2, 2, 1));
}

#[test]
fn storage_without_pixel_format_fails() {
    assert_eq!(
        create_texture_storage(Dim::Dim2, TexSize { width: 8, height: 8, depth: 0 }, 1, RGB8_PIXELS, None),
        Err(TextureError::TextureStorageCreationFailed(
            "unsupported texture pixel format: PixelFormat { encoding: NormUnsigned, format: RGB(Eight, Eight, Eight) }"
                .to_string()
        ))
    );
}

#[test]
fn checking_texel_uploads() {
    // 2×2 RGB texels (3 bytes each) given as 12 bytes: rows of 6 bytes get byte alignment
    assert_eq!(
        check_texel_upload(4, 3, 2, Some(12), 1),
        Ok(UploadPlan {
            expected_bytes: 12,
            unpack_alignment: PixelStore { pname: glenum::UNPACK_ALIGNMENT, value: 1 },
        })
    );
    assert_eq!(
        check_texel_upload(4, 3, 2, Some(11), 1),
        Err(TextureError::NotEnoughPixels { expected_bytes: 12, provided_bytes: 11 })
    );
    assert_eq!(
        check_texel_upload(4, 3, 2, None, 1),
        Err(TextureError::NotEnoughPixels { expected_bytes: 12, provided_bytes: 0 })
    );
    // rows of 4 RGBA texels are a multiple of 8 bytes
    assert_eq!(check_texel_upload(16, 4, 4, Some(16), 4).unwrap().unpack_alignment.value, 8);
}

#[test]
fn setting_texels_of_a_region() {
    let size = TexSize { width: 4, height: 2, depth: 1 };
    let off = TexOffset { x: 1, y: 2, z: 3 };
    assert_eq!(
        set_texels(Dim::Dim2, glenum::TEXTURE_2D, RGB8_PIXELS, Some(RGB8), 0, size, off),
        Ok(TexSubImage {
            rank: ImageRank::Two,
            target: glenum::TEXTURE_2D,
            level: 0,
            x: 1,
            y: 2,
            z: 0,
            width: 4,
            height: 2,
            depth: 0,
            format: 0x1907,
            encoding: glenum::UNSIGNED_BYTE,
        })
    );
    let cube = set_texels(Dim::Cubemap, glenum::TEXTURE_CUBE_MAP, RGB8_PIXELS, Some(RGB8), 1, size, off).unwrap();
    assert_eq!((cube.target, cube.width, cube.height, cube.level), (glenum::TEXTURE_CUBE_MAP_POSITIVE_X + 3, 4, 4, 1));
    let vol = set_texels(Dim::Dim3, glenum::TEXTURE_3D, RGB8_PIXELS, Some(RGB8), 0, size, off).unwrap();
    assert_eq!((vol.rank, vol.z, vol.depth), (ImageRank::Three, 3, 1));
    assert_eq!(
        set_texels(Dim::Dim2, glenum::TEXTURE_2D, RGB8_PIXELS, None, 0, size, off),
        Err(TextureError::UnsupportedPixelFormat(RGB8_PIXELS))
    );
}

#[test]
fn reading_texels_back() {
    assert_eq!(readback_plan(3, 3, 2, 2), (PixelStore { pname: glenum::PACK_ALIGNMENT, value: 1 }, 12));
    assert_eq!(readback_plan(1, 1, 10, 1), (PixelStore { pname: glenum::PACK_ALIGNMENT, value: 2 }, 10));
    assert_eq!(readback_plan(4, 4, 2, 3), (PixelStore { pname: glenum::PACK_ALIGNMENT, value: 8 }, 24));
}

#[test]
fn describing_pixel_formats() {
    assert_eq!(
        describe_pixel_format(RGB8_PIXELS),
        "PixelFormat { encoding: NormUnsigned, format: RGB(Eight, Eight, Eight) }"
    );
    let depth = PixelFormat { encoding: PixelType::Floating, format: Format::Depth(Size::ThirtyTwo) };
    assert_eq!(describe_pixel_format(depth), "PixelFormat { encoding: Floating, format: Depth(ThirtyTwo) }");
    let rg = PixelFormat { encoding: PixelType::Integral, format: Format::RG(Size::Sixteen, Size::Eleven) };
    assert_eq!(describe_pixel_format(rg), "PixelFormat { encoding: Integral, format: RG(Sixteen, Eleven) }");
}

#[test]
fn planning_texel_uploads() {
    let base = TexelUploadShape::BaseLevel { len: 12, gen_mipmaps: true };
    let plan = plan_texel_upload(4, 3, 2, &base, 1).unwrap();
    assert_eq!(
        plan,
        TexelUploadPlan {
            check: UploadPlan {
                expected_bytes: 12,
                unpack_alignment: PixelStore { pname: glenum::UNPACK_ALIGNMENT, value: 1 },
            },
            levels: vec![0],
            generate_mipmap: true,
        }
    );
    let base = TexelUploadShape::BaseLevel { len: 12, gen_mipmaps: false };
    assert!(!plan_texel_upload(4, 3, 2, &base, 1).unwrap().generate_mipmap);

    let levels = TexelUploadShape::Levels(vec![12, 3, 1]);
    let plan = plan_texel_upload(4, 3, 2, &levels, 1).unwrap();
    assert_eq!(plan.levels, vec![0, 1, 2]);
    assert!(!plan.generate_mipmap);

    assert_eq!(
        plan_texel_upload(4, 3, 2, &TexelUploadShape::Levels(vec![]), 1),
        Err(TextureError::NotEnoughPixels { expected_bytes: 12, provided_bytes: 0 })
    );
    assert_eq!(
        plan_texel_upload(4, 3, 2, &TexelUploadShape::BaseLevel { len: 5, gen_mipmaps: true }, 2),
        Err(TextureError::NotEnoughPixels { expected_bytes: 12, provided_bytes: 10 })
    );
}

#[test]
fn reading_texels_back_in_webgl2() {
    let tex_target = glenum::TEXTURE_2D;
    assert_eq!(
        webgl_readback(RGB8_PIXELS, None, Some(7), tex_target, 3, 3, 3, 2, 2),
        Err(TextureError::UnsupportedPixelFormat(RGB8_PIXELS))
    );
    assert_eq!(
        webgl_readback(RGB8_PIXELS, Some(RGB8), None, tex_target, 3, 3, 3, 2, 2),
        Err(TextureError::CannotRetrieveTexels("unavailable readback framebuffer".to_string()))
    );
    let attach = FramebufferTexture2D {
        target: glenum::READ_FRAMEBUFFER,
        attachment: glenum::COLOR_ATTACHMENT0,
        tex_target,
        texture: Some(3),
        level: 0,
    };
    assert_eq!(
        webgl_readback(RGB8_PIXELS, Some(RGB8), Some(7), tex_target, 3, 3, 3, 2, 2),
        Ok(WebGlReadback {
            pack_alignment: PixelStore { pname: glenum::PACK_ALIGNMENT, value: 1 },
            texel_count: 12,
            framebuffer: 7,
            attach,
            read: ReadPixels { x: 0, y: 0, width: 2, height: 2, format: 0x1907, encoding: glenum::UNSIGNED_BYTE },
            detach: FramebufferTexture2D { texture: None, ..attach },
        })
    );
}
