use luminance_gl::demo::{
    cube_faces, cubemap_face_size, face_origin, skybox_event, toggle_blending, upload_cubemap, upload_face, CubeFace,
    DepthMethod,
    InputAction, InvalidCubemapSize, ProgramMode, Semantics, SkyboxAction, SkyboxEvent, SkyboxKey, Strafe, TessMethod,
};
use luminance_gl::render_state::{Blending, Equation, Factor};

#[test]
fn semantics_of_the_hello_world_program() {
    assert_eq!(Semantics::Position.index(), 0);
    assert_eq!(Semantics::Color.index(), 1);
    assert_eq!(Semantics::Position.name(), "co");
    assert_eq!(Semantics::Color.name(), "color");
    let set = Semantics::semantics_set();
    assert_eq!(set.len(), 2);
    assert_eq!((set[0].index, set[0].name.as_str()), (0, "co"));
    assert_eq!((set[1].index, set[1].name.as_str()), (1, "color"));
}

#[test]
fn tess_methods_cycle() {
    let m = TessMethod::Direct;
    assert_eq!(m.toggle(), TessMethod::Indexed);
    assert_eq!(m.toggle().toggle(), TessMethod::DirectDeinterleaved);
    assert_eq!(m.toggle().toggle().toggle(), TessMethod::IndexedDeinterleaved);
    assert_eq!(m.toggle().toggle().toggle().toggle(), TessMethod::Direct);
}

#[test]
fn depth_methods_alternate() {
    assert_eq!(DepthMethod::Under.toggle(), DepthMethod::Atop);
    assert_eq!(DepthMethod::Atop.toggle(), DepthMethod::Under);
}

#[test]
fn program_modes_switch_only_when_adapted() {
    assert_eq!(ProgramMode::First.toggle(true), ProgramMode::Second);
    assert_eq!(ProgramMode::Second.toggle(true), ProgramMode::First);
    assert_eq!(ProgramMode::First.toggle(false), ProgramMode::First);
    assert_eq!(ProgramMode::Second.toggle(false), ProgramMode::Second);
}

#[test]
fn blending_toggles() {
    let additive = Blending { equation: Equation::Additive, src: Factor::One, dst: Factor::One };
    assert_eq!(toggle_blending(None), Some(additive));
    assert_eq!(toggle_blending(Some(additive)), None);
}

#[test]
fn cubemap_faces() {
    assert_eq!(cubemap_face_size(8, 6), Ok(2));
    assert_eq!(cubemap_face_size(2048, 1536), Ok(512));
    assert_eq!(cubemap_face_size(9, 5), Err(InvalidCubemapSize { width: 9, height: 5 }));
    assert_eq!(
        cube_faces(),
        vec![
            CubeFace::PositiveX,
            CubeFace::NegativeX,
            CubeFace::PositiveY,
            CubeFace::NegativeY,
            CubeFace::PositiveZ,
            CubeFace::NegativeZ,
        ]
    );
    // an 8×6 cross of 2×2 faces, 3 bytes per texel: rows are 24 bytes long
    assert_eq!(face_origin(CubeFace::PositiveX, 8, 2), (12, 48));
    assert_eq!(face_origin(CubeFace::NegativeX, 8, 2), (0, 48));
    assert_eq!(face_origin(CubeFace::PositiveY, 8, 2), (6, 0));
    assert_eq!(face_origin(CubeFace::NegativeY, 8, 2), (6, 96));
    assert_eq!(face_origin(CubeFace::PositiveZ, 8, 2), (6, 48));
    assert_eq!(face_origin(CubeFace::NegativeZ, 8, 2), (18, 48));
}

#[test]
fn cutting_a_face_out_of_the_cross() {
    let pixels: Vec<u8> = (0..144).map(|i| i as u8).collect();
    let face = upload_face(&pixels, 8, 2, face_origin(CubeFace::PositiveY, 8, 2));
    assert_eq!(face, vec![6, 7, 8, 9, 10, 11, 30, 31, 32, 33, 34, 35]);
    let face = upload_face(&pixels, 8, 2, face_origin(CubeFace::NegativeZ, 8, 2));
    assert_eq!(face, vec![66, 67, 68, 69, 70, 71, 90, 91, 92, 93, 94, 95]);
}

#[test]
fn invalid_cubemap_size_message() {
    assert_eq!(InvalidCubemapSize { width: 9, height: 5 }.message(), "invalid cubemap size: width=9, height=5");
}

#[test]
fn skybox_events() {
    assert_eq!(skybox_event(false, SkyboxEvent::Close), (false, SkyboxAction::Quit));
    assert_eq!(skybox_event(true, SkyboxEvent::Key(SkyboxKey::Escape, InputAction::Release)), (true, SkyboxAction::Quit));
    assert_eq!(skybox_event(false, SkyboxEvent::Key(SkyboxKey::Escape, InputAction::Press)), (false, SkyboxAction::Ignore));
    assert_eq!(
        skybox_event(false, SkyboxEvent::Key(SkyboxKey::A, InputAction::Release)),
        (false, SkyboxAction::Move(Strafe::Left))
    );
    assert_eq!(
        skybox_event(false, SkyboxEvent::Key(SkyboxKey::E, InputAction::Repeat)),
        (false, SkyboxAction::Move(Strafe::Down))
    );
    assert_eq!(skybox_event(false, SkyboxEvent::Key(SkyboxKey::W, InputAction::Press)), (false, SkyboxAction::Ignore));
    assert_eq!(skybox_event(false, SkyboxEvent::LeftButton(InputAction::Press)), (true, SkyboxAction::Ignore));
    assert_eq!(skybox_event(true, SkyboxEvent::CursorMoved), (true, SkyboxAction::TrackCursor { rotate: true }));
    assert_eq!(skybox_event(true, SkyboxEvent::LeftButton(InputAction::Release)), (false, SkyboxAction::Ignore));
    assert_eq!(skybox_event(false, SkyboxEvent::CursorMoved), (false, SkyboxAction::TrackCursor { rotate: false }));
    assert_eq!(skybox_event(false, SkyboxEvent::Scrolled), (false, SkyboxAction::Zoom));
    assert_eq!(skybox_event(false, SkyboxEvent::FramebufferResized), (false, SkyboxAction::Resize));
    assert_eq!(skybox_event(true, SkyboxEvent::Other), (true, SkyboxAction::Ignore));
}

#[test]
fn uploading_a_cubemap_from_a_cross() {
    let pixels: Vec<u8> = (0..144).map(|i| i as u8).collect();
    let cubemap = upload_cubemap(&pixels, 8, 6).unwrap();
    assert_eq!(cubemap.size, 2);
    assert_eq!(cubemap.mipmaps, 2);
    let order: Vec<CubeFace> = cubemap.faces.iter().map(|f| f.face).collect();
    assert_eq!(order, cube_faces());
    assert!(cubemap.faces.iter().all(|f| f.gen_mipmaps));
    assert_eq!(cubemap.faces[2].texels, vec![6, 7, 8, 9, 10, 11, 30, 31, 32, 33, 34, 35]);
    assert_eq!(cubemap.faces[5].texels, vec![66, 67, 68, 69, 70, 71, 90, 91, 92, 93, 94, 95]);
    assert_eq!(cubemap.faces[0].texels, vec![60, 61, 62, 63, 64, 65, 84, 85, 86, 87, 88, 89]);

    let odd: Vec<u8> = vec![0; 9 * 5 * 3];
    assert_eq!(upload_cubemap(&odd, 9, 5).unwrap_err(), InvalidCubemapSize { width: 9, height: 5 });
}
