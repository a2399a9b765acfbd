use luminance_gl::errors::SliceBufferError;
use luminance_gl::glenum;
use luminance_gl::state::{ContextSnapshot, GLState, GlCommand, ViewportRect};
use luminance_gl::tess::{
    aligned_offsets, build_tess_raw, component_weight, tess_buffer_mapping, TessMapError, dim_as_size, index_type_to_glenum, off_align, offset_based_vertex_weight,
    opengl_mode, opengl_sized_type, patch_vertex_count, set_component_format, set_vertex_pointers, DrawCall,
    IndexedDrawState, Mode, Normalized, TessIndexType, TessRaw, VertexAttribDesc, VertexAttribDim,
    VertexAttribPointer, VertexAttribType, VertexBufferDesc, VertexInstancing,
};

fn state() -> GLState {
    let snap = ContextSnapshot {
        viewport: ViewportRect { x: 0, y: 0, width: 800, height: 600 },
        blend_enabled: glenum::FALSE,
        blend_equation_rgb: glenum::FUNC_ADD,
        blend_equation_alpha: glenum::FUNC_ADD,
        blend_src_rgb: glenum::ONE,
        blend_dst_rgb: glenum::ZERO,
        blend_src_alpha: glenum::ONE,
        blend_dst_alpha: glenum::ZERO,
        depth_test_enabled: glenum::FALSE,
        cull_face_enabled: glenum::FALSE,
        front_face: glenum::CCW,
        cull_face_mode: glenum::BACK,
        primitive_restart_enabled: glenum::FALSE,
        active_texture: glenum::TEXTURE0,
        draw_framebuffer_binding: 0,
        vertex_array_binding: 0,
        current_program: 0,
        framebuffer_srgb_enabled: glenum::FALSE,
    };
    GLState::from_context(snap).unwrap()
}

fn position() -> VertexBufferDesc {
    VertexBufferDesc {
        index: 0,
        instancing: VertexInstancing::Off,
        attrib_desc: VertexAttribDesc {
            ty: VertexAttribType::Floating,
            dim: VertexAttribDim::Dim2,
            unit_size: 4,
            align: 4,
        },
    }
}

fn color() -> VertexBufferDesc {
    VertexBufferDesc {
        index: 1,
        instancing: VertexInstancing::Off,
        attrib_desc: VertexAttribDesc {
            ty: VertexAttribType::Unsigned(Normalized::Yes),
            dim: VertexAttribDim::Dim3,
            unit_size: 1,
            align: 1,
        },
    }
}

#[test]
fn offsets_are_aligned_up() {
    assert_eq!(off_align(0, 4), 0);
    assert_eq!(off_align(5, 4), 8);
    assert_eq!(off_align(8, 4), 8);
    assert_eq!(off_align(17, 16), 32);
    assert_eq!(off_align(3, 1), 3);
}

#[test]
fn attribute_weights() {
    assert_eq!(dim_as_size(VertexAttribDim::Dim1), 1);
    assert_eq!(dim_as_size(VertexAttribDim::Dim4), 4);
    assert_eq!(component_weight(&position().attrib_desc), 8);
    assert_eq!(component_weight(&color().attrib_desc), 3);
}

#[test]
fn attributes_are_laid_out_one_after_the_other() {
    let descs = [color(), position()];
    let offsets = aligned_offsets(&descs);
    // the color takes 3 bytes; the position is aligned on 4 bytes
    assert_eq!(offsets, vec![0, 4]);
    // the vertex ends at 12 and is aligned on the first attribute (1 byte)
    assert_eq!(offset_based_vertex_weight(&descs, &offsets), 12);

    let descs = [position(), color()];
    let offsets = aligned_offsets(&descs);
    assert_eq!(offsets, vec![0, 8]);
    // the vertex ends at 11 and is padded to the alignment of the position
    assert_eq!(offset_based_vertex_weight(&descs, &offsets), 12);

    assert_eq!(aligned_offsets(&[]), Vec::<usize>::new());
    assert_eq!(offset_based_vertex_weight(&[], &[]), 0);
}

#[test]
fn attribute_gl_types() {
    assert_eq!(opengl_sized_type(&position().attrib_desc), glenum::FLOAT);
    assert_eq!(opengl_sized_type(&color().attrib_desc), glenum::UNSIGNED_BYTE);
    let short = VertexAttribDesc {
        ty: VertexAttribType::Integral(Normalized::No),
        dim: VertexAttribDim::Dim1,
        unit_size: 2,
        align: 2,
    };
    assert_eq!(opengl_sized_type(&short), glenum::SHORT);
    let boolean = VertexAttribDesc { ty: VertexAttribType::Boolean, dim: VertexAttribDim::Dim1, unit_size: 1, align: 1 };
    assert_eq!(opengl_sized_type(&boolean), glenum::UNSIGNED_BYTE);
}

#[test]
fn vertex_pointers_declare_interleaved_attributes() {
    let ptrs = set_vertex_pointers(&[position(), color()]);
    assert_eq!(
        ptrs,
        vec![
            VertexAttribPointer {
                index: 0,
                size: 2,
                ty: glenum::FLOAT,
                normalized: Some(false),
                stride: 12,
                offset: 0,
                divisor: 0,
            },
            VertexAttribPointer {
                index: 1,
                size: 3,
                ty: glenum::UNSIGNED_BYTE,
                normalized: Some(true),
                stride: 12,
                offset: 8,
                divisor: 0,
            },
        ]
    );
}

#[test]
fn integer_and_instanced_attributes() {
    let desc = VertexBufferDesc {
        index: 3,
        instancing: VertexInstancing::On,
        attrib_desc: VertexAttribDesc {
            ty: VertexAttribType::Integral(Normalized::No),
            dim: VertexAttribDim::Dim4,
            unit_size: 4,
            align: 4,
        },
    };
    assert_eq!(
        set_component_format(16, 0, &desc),
        VertexAttribPointer { index: 3, size: 4, ty: glenum::INT, normalized: None, stride: 16, offset: 0, divisor: 1 }
    );
}

#[test]
fn index_types_and_modes() {
    assert_eq!(TessIndexType::U8.bytes(), 1);
    assert_eq!(TessIndexType::U16.bytes(), 2);
    assert_eq!(TessIndexType::U32.bytes(), 4);
    assert_eq!(index_type_to_glenum(TessIndexType::U8), glenum::UNSIGNED_BYTE);
    assert_eq!(index_type_to_glenum(TessIndexType::U16), glenum::UNSIGNED_SHORT);
    assert_eq!(index_type_to_glenum(TessIndexType::U32), glenum::UNSIGNED_INT);
    assert_eq!(opengl_mode(Mode::Point), glenum::POINTS);
    assert_eq!(opengl_mode(Mode::TriangleFan), glenum::TRIANGLE_FAN);
    assert_eq!(opengl_mode(Mode::Patch(3)), glenum::PATCHES);
    assert_eq!(patch_vertex_count(Mode::Patch(3)), 3);
    assert_eq!(patch_vertex_count(Mode::Line), 0);
}

#[test]
fn rendering_a_direct_tessellation() {
    let mut st = state();
    let raw = TessRaw { vao: 1, mode: glenum::TRIANGLES, vert_nb: 3, inst_nb: 0, patch_vert_nb: 0, index_state: None };
    let r = st.render_tess(&raw, 0, 3, 1);
    assert_eq!(r.state, vec![GlCommand::BindVertexArray(1)]);
    assert_eq!(r.restart_index, None);
    assert_eq!(r.draw, DrawCall::Arrays { mode: glenum::TRIANGLES, first: 0, count: 3 });

    // the vertex array is still bound
    let r = st.render_tess(&raw, 1, 2, 5);
    assert_eq!(r.state, vec![]);
    assert_eq!(r.draw, DrawCall::ArraysInstanced { mode: glenum::TRIANGLES, first: 1, count: 2, instances: 5 });
}

#[test]
fn rendering_an_indexed_tessellation() {
    let mut st = state();
    let raw = TessRaw {
        vao: 2,
        mode: glenum::TRIANGLE_STRIP,
        vert_nb: 6,
        inst_nb: 0,
        patch_vert_nb: 0,
        index_state: Some(IndexedDrawState { index_type: TessIndexType::U16, restart_index: Some(0xFFFF) }),
    };
    let r = st.render_tess(&raw, 2, 6, 4);
    assert_eq!(r.state, vec![GlCommand::BindVertexArray(2), GlCommand::Enable(glenum::PRIMITIVE_RESTART)]);
    assert_eq!(r.restart_index, Some(0xFFFF));
    assert_eq!(
        r.draw,
        DrawCall::ElementsInstanced {
            mode: glenum::TRIANGLE_STRIP,
            count: 6,
            ty: glenum::UNSIGNED_SHORT,
            offset: 4,
            instances: 4,
        }
    );

    let plain = TessRaw {
        index_state: Some(IndexedDrawState { index_type: TessIndexType::U32, restart_index: None }),
        ..raw
    };
    let r = st.render_tess(&plain, 3, 6, 1);
    assert_eq!(r.state, vec![GlCommand::Disable(glenum::PRIMITIVE_RESTART)]);
    assert_eq!(r.restart_index, None);
    assert_eq!(
        r.draw,
        DrawCall::Elements { mode: glenum::TRIANGLE_STRIP, count: 6, ty: glenum::UNSIGNED_INT, offset: 12 }
    );
}

#[test]
fn rendering_patches_sets_the_patch_size() {
    let mut st = state();
    let raw = TessRaw { vao: 0, mode: glenum::PATCHES, vert_nb: 9, inst_nb: 0, patch_vert_nb: 3, index_state: None };
    let r = st.render_tess(&raw, 0, 9, 1);
    assert_eq!(r.state, vec![GlCommand::PatchParameter(glenum::PATCH_VERTICES, 3)]);
    let r = st.render_tess(&raw, 0, 9, 1);
    assert_eq!(r.state, vec![]);
}

#[test]
fn building_tessellations() {
    let raw = build_tess_raw(7, Mode::Patch(4), 12, 1, TessIndexType::U8, 0, None);
    assert_eq!(raw, TessRaw { vao: 7, mode: glenum::PATCHES, vert_nb: 12, inst_nb: 1, patch_vert_nb: 4, index_state: None });
    let raw = build_tess_raw(8, Mode::TriangleStrip, 14, 0, TessIndexType::U32, 14, Some(u32::MAX));
    assert_eq!(raw.mode, glenum::TRIANGLE_STRIP);
    assert_eq!(raw.patch_vert_nb, 0);
    assert_eq!(
        raw.index_state,
        Some(IndexedDrawState { index_type: TessIndexType::U32, restart_index: Some(u32::MAX) })
    );

    assert_eq!(tess_buffer_mapping(false, Ok(())), Err(TessMapError::ForbiddenAttributelessMapping));
    assert_eq!(tess_buffer_mapping(true, Err(SliceBufferError::MapFailed)), Err(TessMapError::CannotMap));
    assert_eq!(tess_buffer_mapping(true, Ok(())), Ok(()));
}

#[test]
fn vertices_are_padded_for_every_attribute() {
    let scalar = |index: usize, unit_size: usize| VertexBufferDesc {
        index,
        instancing: VertexInstancing::Off,
        attrib_desc: VertexAttribDesc {
            ty: VertexAttribType::Unsigned(Normalized::No),
            dim: VertexAttribDim::Dim1,
            unit_size,
            align: unit_size,
        },
    };
    let descs = [scalar(0, 1), scalar(1, 4), scalar(2, 1)];
    let offsets = aligned_offsets(&descs);
    assert_eq!(offsets, vec![0, 4, 8]);
    // the vertex ends at 9; the u32 of the next vertex needs a multiple of 4
    assert_eq!(offset_based_vertex_weight(&descs, &offsets), 12);
    let ptrs = set_vertex_pointers(&descs);
    assert!(ptrs.iter().all(|p| p.stride == 12));
}
