//! The decisions of the example programs: vertex semantics, mode toggles, and the cutting of a
//! cross-shaped image into the six faces of a cubemap.
use vstd::prelude::*;

use crate::errors::{decimal, push_decimal};
use crate::render_state::{Blending, Equation, Factor};
use vstd::string::StringExecFns;
use crate::shader::SemanticsDesc;

verus! {

/// Vertex semantics of the hello-world program.
#[derive(Clone, Copy, Debug, PartialEq, Eq, Structural)]
pub enum Semantics {
    /// Vertex positions, `co` in shaders.
    Position,
    /// Vertex colors, `color` in shaders.
    Color,
}

impl Semantics {
    /// Attribute index of the semantics.
    pub fn index(&self) -> (r: usize)
        ensures
            r == (match *self {
                Semantics::Position => 0usize,
                Semantics::Color => 1usize,
            }),
    {
        match self {
            Semantics::Position => 0,
            Semantics::Color => 1,
        }
    }

    /// Name of the semantics in shaders.
    pub fn name(&self) -> (r: &'static str)
        ensures
            r@ == (match *self {
                Semantics::Position => "co"@,
                Semantics::Color => "color"@,
            }),
    {
        match self {
            Semantics::Position => "co",
            Semantics::Color => "color",
        }
    }

    /// All the semantics, in index order.
    pub fn semantics_set() -> (r: Vec<SemanticsDesc>)
        ensures
            r@.len() == 2,
            r@[0].index == 0 && r@[0].name@ == "co"@,
            r@[1].index == 1 && r@[1].name@ == "color"@,
    {
        let mut r: Vec<SemanticsDesc> = Vec::new();
        r.push(SemanticsDesc { index: 0, name: "co".to_owned() });
        r.push(SemanticsDesc { index: 1, name: "color".to_owned() });
        r
    }
}

/// How the hello-world program builds its geometry.
#[derive(Clone, Copy, Debug, PartialEq, Eq, Structural)]
pub enum TessMethod {
    Direct,
    Indexed,
    DirectDeinterleaved,
    IndexedDeinterleaved,
}

/// The method that follows `m`, cycling through the four.
pub open spec fn next_tess_method(m: TessMethod) -> TessMethod {
    match m {
        TessMethod::Direct => TessMethod::Indexed,
        TessMethod::Indexed => TessMethod::DirectDeinterleaved,
        TessMethod::DirectDeinterleaved => TessMethod::IndexedDeinterleaved,
        TessMethod::IndexedDeinterleaved => TessMethod::Direct,
    }
}

impl TessMethod {
    /// The next method, cycling through the four.
    pub fn toggle(self) -> (r: Self)
        ensures
            r == next_tess_method(self),
    {
        match self {
            TessMethod::Direct => TessMethod::Indexed,
            TessMethod::Indexed => TessMethod::DirectDeinterleaved,
            TessMethod::DirectDeinterleaved => TessMethod::IndexedDeinterleaved,
            TessMethod::IndexedDeinterleaved => TessMethod::Direct,
        }
    }
}

/// Toggling changes the tessellation method, and toggling four times brings it back.
pub proof fn law_tess_method_toggle_cycles(m: TessMethod)
    ensures
        next_tess_method(m) != m,
        next_tess_method(next_tess_method(next_tess_method(next_tess_method(m)))) == m,
{
}

/// How the render-state program draws its red triangle.
#[derive(Clone, Copy, Debug, PartialEq, Eq, Structural)]
pub enum DepthMethod {
    /// Under the blue one.
    Under,
    /// Atop the blue one.
    Atop,
}

impl DepthMethod {
    /// The other method.
    pub fn toggle(self) -> (r: Self)
        ensures
            r != self,
    {
        match self {
            DepthMethod::Under => DepthMethod::Atop,
            DepthMethod::Atop => DepthMethod::Under,
        }
    }
}

/// Which of its two uniform interfaces the adaptive-uniforms program uses.
#[derive(Clone, Copy, Debug, PartialEq, Eq, Structural)]
pub enum ProgramMode {
    First,
    Second,
}

impl ProgramMode {
    /// The mode after a switch was asked for: the other interface when the program could be
    /// adapted to it, else the current one.
    pub fn toggle(self, adapted: bool) -> (r: Self)
        ensures
            adapted ==> r != self,
            !adapted ==> r == self,
    {
        match self {
            ProgramMode::First => if adapted {
                ProgramMode::Second
            } else {
                ProgramMode::First
            },
            ProgramMode::Second => if adapted {
                ProgramMode::First
            } else {
                ProgramMode::Second
            },
        }
    }
}

/// Toggle between no blending and additive blending.
pub fn toggle_blending(blending: Option<Blending>) -> (r: Option<Blending>)
    ensures
        r == (match blending {
            None => Some(Blending { equation: Equation::Additive, src: Factor::One, dst: Factor::One }),
            Some(_) => None,
        }),
{
    match blending {
        None => Some(Blending { equation: Equation::Additive, src: Factor::One, dst: Factor::One }),
        Some(_) => None,
    }
}

/// A key the skybox program reacts to.
#[derive(Clone, Copy, Debug, PartialEq, Eq, Structural)]
pub enum SkyboxKey {
    Escape,
    A,
    D,
    W,
    S,
    Q,
    E,
    Other,
}

/// What happened to a key or a mouse button.
#[derive(Clone, Copy, Debug, PartialEq, Eq, Structural)]
pub enum InputAction {
    Press,
    Release,
    Repeat,
}

/// A window event, as the skybox program sees it.
#[derive(Clone, Copy, Debug, PartialEq, Eq, Structural)]
pub enum SkyboxEvent {
    Key(SkyboxKey, InputAction),
    Close,
    FramebufferResized,
    CursorMoved,
    LeftButton(InputAction),
    Scrolled,
    Other,
}

/// A direction in which the camera moves.
#[derive(Clone, Copy, Debug, PartialEq, Eq, Structural)]
pub enum Strafe {
    Left,
    Right,
    Forward,
    Backward,
    Up,
    Down,
}

/// What the skybox program does for an event.
#[derive(Clone, Copy, Debug, PartialEq, Eq, Structural)]
pub enum SkyboxAction {
    /// Leave the program.
    Quit,
    /// Move the camera.
    Move(Strafe),
    /// Grab the back buffer again and recompute the projection.
    Resize,
    /// Remember the cursor position; when `rotate` holds, turn the camera by the cursor's move.
    TrackCursor { rotate: bool },
    /// Change the field of view by the scroll amount.
    Zoom,
    /// Nothing.
    Ignore,
}

/// The direction a movement key moves the camera in.
pub open spec fn strafe_of(key: SkyboxKey) -> Option<Strafe> {
    match key {
        SkyboxKey::A => Some(Strafe::Left),
        SkyboxKey::D => Some(Strafe::Right),
        SkyboxKey::W => Some(Strafe::Forward),
        SkyboxKey::S => Some(Strafe::Backward),
        SkyboxKey::Q => Some(Strafe::Up),
        SkyboxKey::E => Some(Strafe::Down),
        _ => None,
    }
}

/// The reaction of the skybox program to an event, and whether the view rotates afterwards.
pub open spec fn skybox_step(rotating: bool, event: SkyboxEvent) -> (bool, SkyboxAction) {
    match event {
        SkyboxEvent::Key(SkyboxKey::Escape, InputAction::Release) | SkyboxEvent::Close => (
            rotating,
            SkyboxAction::Quit,
        ),
        SkyboxEvent::Key(k, a) => if a != InputAction::Press && strafe_of(k) is Some {
            (rotating, SkyboxAction::Move(strafe_of(k).unwrap()))
        } else {
            (rotating, SkyboxAction::Ignore)
        },
        SkyboxEvent::FramebufferResized => (rotating, SkyboxAction::Resize),
        SkyboxEvent::CursorMoved => (rotating, SkyboxAction::TrackCursor { rotate: rotating }),
        SkyboxEvent::LeftButton(InputAction::Press) => (true, SkyboxAction::Ignore),
        SkyboxEvent::LeftButton(InputAction::Release) => (false, SkyboxAction::Ignore),
        SkyboxEvent::Scrolled => (rotating, SkyboxAction::Zoom),
        _ => (rotating, SkyboxAction::Ignore),
    }
}

/// React to an event of the skybox program: the event loop quits on Escape or on close, moves
/// the camera on movement keys (released or repeated), rotates the view while the left button
/// is held, and zooms on scroll. The result is whether the view rotates next, and the action.
pub fn skybox_event(rotating: bool, event: SkyboxEvent) -> (r: (bool, SkyboxAction))
    ensures
        r == skybox_step(rotating, event),
{
    match event {
        SkyboxEvent::Key(SkyboxKey::Escape, InputAction::Release) | SkyboxEvent::Close => (
            rotating,
            SkyboxAction::Quit,
        ),
        SkyboxEvent::Key(k, a) => {
            if a == InputAction::Press {
                return (rotating, SkyboxAction::Ignore);
            }
            let dir = match k {
                SkyboxKey::A => Some(Strafe::Left),
                SkyboxKey::D => Some(Strafe::Right),
                SkyboxKey::W => Some(Strafe::Forward),
                SkyboxKey::S => Some(Strafe::Backward),
                SkyboxKey::Q => Some(Strafe::Up),
                SkyboxKey::E => Some(Strafe::Down),
                _ => None,
            };
            match dir {
                Some(d) => (rotating, SkyboxAction::Move(d)),
                None => (rotating, SkyboxAction::Ignore),
            }
        },
        SkyboxEvent::FramebufferResized => (rotating, SkyboxAction::Resize),
        SkyboxEvent::CursorMoved => (rotating, SkyboxAction::TrackCursor { rotate: rotating }),
        SkyboxEvent::LeftButton(InputAction::Press) => (true, SkyboxAction::Ignore),
        SkyboxEvent::LeftButton(InputAction::Release) => (false, SkyboxAction::Ignore),
        SkyboxEvent::Scrolled => (rotating, SkyboxAction::Zoom),
        _ => (rotating, SkyboxAction::Ignore),
    }
}

/// The view rotates with the cursor exactly between a press and a release of the left button.
pub proof fn law_skybox_rotation_follows_left_button(rotating: bool, event: SkyboxEvent)
    ensures
        event == SkyboxEvent::LeftButton(InputAction::Press) ==> skybox_step(rotating, event).0,
        event == SkyboxEvent::LeftButton(InputAction::Release) ==> !skybox_step(rotating, event).0,
        !(event is LeftButton) ==> skybox_step(rotating, event).0 == rotating,
        skybox_step(rotating, SkyboxEvent::CursorMoved).1 == (SkyboxAction::TrackCursor { rotate: rotating }),
{
}

/// A face of a cubemap.
#[derive(Clone, Copy, Debug, PartialEq, Eq, Structural)]
pub enum CubeFace {
    PositiveX,
    NegativeX,
    PositiveY,
    NegativeY,
    PositiveZ,
    NegativeZ,
}

/// Why an image cannot be cut into a cubemap: its width and height.
#[derive(Clone, Copy, Debug, PartialEq, Eq, Structural)]
pub struct InvalidCubemapSize {
    pub width: u32,
    pub height: u32,
}

impl InvalidCubemapSize {
    /// A human-readable description of the error.
    pub fn message(&self) -> (r: String)
        ensures
            r@ == "invalid cubemap size: width="@ + decimal(self.width as nat) + ", height="@ + decimal(
                self.height as nat,
            ),
    {
        let mut s = "invalid cubemap size: width=".to_owned();
        push_decimal(&mut s, self.width);
        s.append(", height=");
        push_decimal(&mut s, self.height);
        s
    }
}

/// The side of the faces of a cross-shaped cubemap image: a quarter of its width, which must be
/// a third of its height.
pub fn cubemap_face_size(width: u32, height: u32) -> (r: Result<u32, InvalidCubemapSize>)
    ensures
        height / 3 == width / 4 ==> r == Ok::<u32, InvalidCubemapSize>(width / 4),
        height / 3 != width / 4 ==> r == Err::<u32, InvalidCubemapSize>(InvalidCubemapSize { width, height }),
{
    let size = width / 4;
    if height / 3 != size {
        Err(InvalidCubemapSize { width, height })
    } else {
        Ok(size)
    }
}

/// The byte origin `[column byte, row byte]` of a face in a cross-shaped RGB image `width`
/// texels wide, with faces of `size` texels.
pub open spec fn face_origin_spec(face: CubeFace, width: int, size: int) -> (int, int) {
    match face {
        CubeFace::PositiveX => (2 * 3 * size, width * 3 * size),
        CubeFace::NegativeX => (0, width * 3 * size),
        CubeFace::PositiveY => (3 * size, 0),
        CubeFace::NegativeY => (3 * size, width * 3 * size * 2),
        CubeFace::PositiveZ => (3 * size, width * 3 * size),
        CubeFace::NegativeZ => (3 * 3 * size, width * 3 * size),
    }
}

/// The byte origin of a face in a cross-shaped RGB image.
pub fn face_origin(face: CubeFace, width: usize, size: usize) -> (r: (usize, usize))
    requires
        width * 3 <= usize::MAX,
        width * 3 * size * 2 <= usize::MAX,
        3 * 3 * size <= usize::MAX,
    ensures
        r.0 == face_origin_spec(face, width as int, size as int).0,
        r.1 == face_origin_spec(face, width as int, size as int).1,
{
    proof {
        assert(0 <= width * 3 * size <= width * 3 * size * 2) by (nonlinear_arith)
            requires
                width >= 0,
                size >= 0,
        ;
        assert(6 * size <= 9 * size);
        assert(3 * size <= 9 * size);
    }
    match face {
        CubeFace::PositiveX => (2 * 3 * size, width * 3 * size),
        CubeFace::NegativeX => (0, width * 3 * size),
        CubeFace::PositiveY => (3 * size, 0),
        CubeFace::NegativeY => (3 * size, width * 3 * size * 2),
        CubeFace::PositiveZ => (3 * size, width * 3 * size),
        CubeFace::NegativeZ => (3 * 3 * size, width * 3 * size),
    }
}

/// The faces of a cubemap, in upload order.
pub fn cube_faces() -> (r: Vec<CubeFace>)
    ensures
        r@ == seq![
            CubeFace::PositiveX,
            CubeFace::NegativeX,
            CubeFace::PositiveY,
            CubeFace::NegativeY,
            CubeFace::PositiveZ,
            CubeFace::NegativeZ,
        ],
{
    let mut r: Vec<CubeFace> = Vec::new();
    r.push(CubeFace::PositiveX);
    r.push(CubeFace::NegativeX);
    r.push(CubeFace::PositiveY);
    r.push(CubeFace::NegativeY);
    r.push(CubeFace::PositiveZ);
    r.push(CubeFace::NegativeZ);
    r
}

/// The byte of `pixels` that lands at position `k` of a face: rows of `size * 3` bytes, read
/// from the image rows of `width * 3` bytes, starting at the face's origin.
pub open spec fn face_byte_index(k: int, width: int, size: int, origin: (int, int)) -> int {
    origin.1 + (k / (size * 3)) * (width * 3) + origin.0 + k % (size * 3)
}

/// Every byte of a face lies in the image.
pub open spec fn face_fits(len: int, width: int, size: int, origin: (int, int)) -> bool {
    size > 0 ==> origin.1 + (size - 1) * (width * 3) + origin.0 + size * 3 <= len
}

/// Copy the bytes of one face out of a cross-shaped RGB image, row after row.
pub fn upload_face(pixels: &[u8], width: usize, size: usize, origin: (usize, usize)) -> (face: Vec<u8>)
    requires
        face_fits(pixels@.len() as int, width as int, size as int, (origin.0 as int, origin.1 as int)),
        origin.1 + size * (width * 3) + origin.0 + size * 3 <= usize::MAX,
    ensures
        face@.len() == size * (size * 3),
        forall|k: int|
            0 <= k < face@.len() ==> #[trigger] face@[k] == pixels@[face_byte_index(
                k,
                width as int,
                size as int,
                (origin.0 as int, origin.1 as int),
            )],
{
    let mut face: Vec<u8> = Vec::new();
    let n = pixels.len();
    let row_bytes = size * 3;
    let ghost o = (origin.0 as int, origin.1 as int);
    proof {
        assert(size * (width * 3) >= 0) by (nonlinear_arith);
    }
    let mut row: usize = 0;
    while row < size
        invariant
            row <= size,
            n == pixels@.len(),
            row_bytes == size * 3,
            o == (origin.0 as int, origin.1 as int),
            face_fits(pixels@.len() as int, width as int, size as int, o),
            origin.1 + size * (width * 3) + origin.0 + size * 3 <= usize::MAX,
            face@.len() == row * row_bytes,
            forall|k: int|
                0 <= k < face@.len() ==> #[trigger] face@[k] == pixels@[face_byte_index(k, width as int, size as int, o)],
        decreases size - row,
    {
        proof {
            assert(row * width <= row * width * 3 && row * width * 3 == row * (width * 3)) by (nonlinear_arith)
                requires
                    row >= 0,
                    width >= 0,
            ;
            assert(row * (width * 3) <= (size - 1) * (width * 3)) by (nonlinear_arith)
                requires
                    row <= size - 1,
                    width >= 0,
            ;
            assert((size - 1) * (width * 3) <= size * (width * 3)) by (nonlinear_arith)
                requires
                    size >= 1,
                    width >= 0,
            ;
            assert(origin.1 + row * (width * 3) + origin.0 + size * 3 <= pixels@.len());
        }
        let offset = origin.1 + row * width * 3;
        let start = offset + origin.0;
        let mut c: usize = 0;
        let ghost before = face@.len();
        while c < row_bytes
            invariant
                row < size,
                row_bytes == size * 3,
                c <= row_bytes,
                o == (origin.0 as int, origin.1 as int),
                start == origin.1 + row * (width * 3) + origin.0,
                face_fits(pixels@.len() as int, width as int, size as int, o),
                start + row_bytes <= pixels@.len(),
                n == pixels@.len(),
                before == row * row_bytes,
                face@.len() == before + c,
                forall|k: int|
                    0 <= k < face@.len() ==> #[trigger] face@[k] == pixels@[face_byte_index(
                        k,
                        width as int,
                        size as int,
                        o,
                    )],
            decreases row_bytes - c,
        {
            proof {
                let k = before + c;
                assert(k / (size * 3) == row && k % (size * 3) == c) by (nonlinear_arith)
                    requires
                        k == row * (size * 3) + c,
                        0 <= c < size * 3,
                ;
            }
            assert(start + c < pixels@.len());
            face.push(pixels[start + c]);
            c = c + 1;
        }
        row = row + 1;
        proof {
            assert(face@.len() == row * row_bytes) by (nonlinear_arith)
                requires
                    face@.len() == (row - 1) * row_bytes + row_bytes,
            ;
        }
    }
    face
}

/// The bytes a face receives: its rows of `size * 3` bytes, read from the image at the face's
/// origin.
pub open spec fn face_texels(texels: Seq<u8>, pixels: Seq<u8>, width: int, size: int, face: CubeFace) -> bool {
    &&& texels.len() == size * (size * 3)
    &&& forall|k: int|
        0 <= k < texels.len() ==> #[trigger] texels[k] == pixels[face_byte_index(
            k,
            width,
            size,
            face_origin_spec(face, width, size),
        )]
}

/// The faces of a cubemap, in upload order.
pub open spec fn face_order() -> Seq<CubeFace> {
    seq![
        CubeFace::PositiveX,
        CubeFace::NegativeX,
        CubeFace::PositiveY,
        CubeFace::NegativeY,
        CubeFace::PositiveZ,
        CubeFace::NegativeZ,
    ]
}

/// An upload to one face of a cubemap, at offset (0, 0) and over the whole face.
#[derive(Clone, Debug, PartialEq, Eq)]
pub struct FaceUpload {
    pub face: CubeFace,
    /// Whether mipmaps are generated after the upload.
    pub gen_mipmaps: bool,
    pub texels: Vec<u8>,
}

/// A cubemap to create and fill: its face size, its number of mipmaps, and one upload per face.
#[derive(Clone, Debug, PartialEq, Eq)]
pub struct CubemapUpload {
    pub size: u32,
    pub mipmaps: usize,
    pub faces: Vec<FaceUpload>,
}

proof fn lemma_face_fits(face: CubeFace, w: int, h: int, s: int)
    requires
        w >= 0,
        h >= 0,
        s >= 0,
        4 * s <= w,
        3 * s <= h,
    ensures
        face_fits(w * h * 3, w, s, face_origin_spec(face, w, s)),
        face_origin_spec(face, w, s).1 + s * (w * 3) + face_origin_spec(face, w, s).0 + s * 3 <= w * (h + 1) * 3,
        face_origin_spec(face, w, s).0 >= 0,
        face_origin_spec(face, w, s).1 >= 0,
{
    let o = face_origin_spec(face, w, s);
    assert(w * s >= 0 && w * h >= 3 * (w * s) && w * h * 3 == 3 * (w * h) && w * (h + 1) * 3 == 3 * (w * h) + 3 * w
        && s * (w * 3) == 3 * (w * s) && (s - 1) * (w * 3) == 3 * (w * s) - 3 * w) by (nonlinear_arith)
        requires
            w >= 0,
            h >= 0,
            s >= 0,
            3 * s <= h,
    ;
    assert(w * 3 * s == 3 * (w * s) && w * 3 * s * 2 == 6 * (w * s)) by (nonlinear_arith);
    let ws = w * s;
    let len = w * h * 3;
    assert(len >= 9 * ws);
    assert(s * (w * 3) == 3 * ws);
    assert((s - 1) * (w * 3) == 3 * ws - 3 * w);
    assert(w * (h + 1) * 3 == len + 3 * w);
    match face {
        CubeFace::PositiveX => {
            assert(o == (6 * s, 3 * ws));
        },
        CubeFace::NegativeX => {
            assert(o == (0int, 3 * ws));
        },
        CubeFace::PositiveY => {
            assert(o == (3 * s, 0int));
        },
        CubeFace::NegativeY => {
            assert(o == (3 * s, 6 * ws));
        },
        CubeFace::PositiveZ => {
            assert(o == (3 * s, 3 * ws));
        },
        CubeFace::NegativeZ => {
            assert(o == (9 * s, 3 * ws));
        },
    }
}

/// Cut a cross-shaped RGB image `width` texels wide and `height` high into the six faces of a
/// cubemap, as the skybox program does: the faces are `width / 4` texels wide, which must be
/// `height / 3`; the cubemap has two mipmaps, and each face is uploaded once, in the order
/// +X, -X, +Y, -Y, +Z, -Z, with mipmap generation.
pub fn upload_cubemap(pixels: &[u8], width: u32, height: u32) -> (r: Result<CubemapUpload, InvalidCubemapSize>)
    requires
        pixels@.len() == width * height * 3,
        width * (height + 1) * 3 <= usize::MAX,
    ensures
        height / 3 != width / 4 ==> r == Err::<CubemapUpload, InvalidCubemapSize>(
            InvalidCubemapSize { width, height },
        ),
        height / 3 == width / 4 ==> (r matches Ok(c) && c.size == width / 4 && c.mipmaps == 2 && c.faces@.len()
            == 6 && forall|k: int|
            0 <= k < 6 ==> {
                &&& (#[trigger] c.faces@[k]).face == face_order()[k]
                &&& c.faces@[k].gen_mipmaps
                &&& face_texels(c.faces@[k].texels@, pixels@, width as int, (width / 4) as int, face_order()[k])
            }),
{
    let size = match cubemap_face_size(width, height) {
        Ok(s) => s,
        Err(e) => return Err(e),
    };
    let w = width as usize;
    let s = size as usize;
    let faces_order = cube_faces();
    let mut faces: Vec<FaceUpload> = Vec::new();
    let mut k: usize = 0;
    while k < 6
        invariant
            faces_order@ == face_order(),
            s == width / 4,
            w == width,
            height / 3 == width / 4,
            pixels@.len() == width * height * 3,
            width * (height + 1) * 3 <= usize::MAX,
            k <= 6,
            faces@.len() == k,
            forall|j: int|
                0 <= j < k ==> {
                    &&& (#[trigger] faces@[j]).face == face_order()[j]
                    &&& faces@[j].gen_mipmaps
                    &&& face_texels(faces@[j].texels@, pixels@, width as int, (width / 4) as int, face_order()[j])
                },
        decreases 6 - k,
    {
        let face = faces_order[k];
        proof {
            assert(4 * (width / 4) <= width);
            assert(3 * (height / 3) <= height);
            lemma_face_fits(face, width as int, height as int, s as int);
            assert(w * 3 * s * 2 <= w * (height + 1) * 3) by (nonlinear_arith)
                requires
                    4 * s <= w,
                    3 * s <= height,
            ;
            assert(w * 3 <= w * (height + 1) * 3) by (nonlinear_arith);
            assert(4 * s <= w);
            assert(3 * 3 * s <= w * 3) by (nonlinear_arith)
                requires
                    4 * s <= w,
            ;
        }
        let origin = face_origin(face, w, s);
        let texels = upload_face(pixels, w, s, origin);
        faces.push(FaceUpload { face, gen_mipmaps: true, texels });
        k = k + 1;
    }
    Ok(CubemapUpload { size, mipmaps: 2, faces })
}


/// The cross image is a grid of square cells of `size` texels, four across and three down, each
/// texel taking 3 bytes: a face starts at byte `col * size * 3` of row `row * size` of the image.
/// The faces come from these cells: +X from column 2 of row 1, -X from column 0 of row 1, +Y from
/// column 1 of row 0, -Y from column 1 of row 2, +Z from column 1 of row 1 and -Z from column 3 of
/// row 1; for a non-empty cell size no two faces share a cell.
pub proof fn law_cube_face_cells(face: CubeFace, other: CubeFace, width: int, size: int)
    requires
        width >= 0,
        size > 0,
        4 * size <= width,
    ensures
        face is PositiveX ==> face_origin_spec(face, width, size) == (2 * (3 * size), 1 * (size * (width * 3))),
        face is NegativeX ==> face_origin_spec(face, width, size) == (0 * (3 * size), 1 * (size * (width * 3))),
        face is PositiveY ==> face_origin_spec(face, width, size) == (1 * (3 * size), 0 * (size * (width * 3))),
        face is NegativeY ==> face_origin_spec(face, width, size) == (1 * (3 * size), 2 * (size * (width * 3))),
        face is PositiveZ ==> face_origin_spec(face, width, size) == (1 * (3 * size), 1 * (size * (width * 3))),
        face is NegativeZ ==> face_origin_spec(face, width, size) == (3 * (3 * size), 1 * (size * (width * 3))),
        face != other ==> face_origin_spec(face, width, size) != face_origin_spec(other, width, size),
{
    let row = size * (width * 3);
    assert(width * 3 * size == row && width * 3 * size * 2 == 2 * row) by (nonlinear_arith)
        requires
            row == size * (width * 3),
    ;
    assert(row > 0) by (nonlinear_arith)
        requires
            row == size * (width * 3),
            width >= 4 * size,
            size > 0,
    ;
    assert(2 * (3 * size) == 6 * size && 3 * (3 * size) == 9 * size && 2 * 3 * size == 6 * size);
    let o = |f: CubeFace| face_origin_spec(f, width, size);
    assert(o(CubeFace::PositiveX) == (6 * size, row));
    assert(o(CubeFace::NegativeX) == (0int, row));
    assert(o(CubeFace::PositiveY) == (3 * size, 0int));
    assert(o(CubeFace::NegativeY) == (3 * size, 2 * row));
    assert(o(CubeFace::PositiveZ) == (3 * size, row));
    assert(o(CubeFace::NegativeZ) == (9 * size, row));
}


/// The skybox program moves the camera with six keys, each in a direction of its own: A left,
/// D right, W forward, S backward, Q up and E down; a movement key moves when released or
/// repeated, never when pressed. Escape quits when released, and closing the window quits.
pub proof fn law_skybox_keys(k: SkyboxKey, j: SkyboxKey, a: InputAction, rotating: bool)
    ensures
        strafe_of(k) is Some && strafe_of(k) == strafe_of(j) ==> k == j,
        strafe_of(k) is Some <==> (k is A || k is D || k is W || k is S || k is Q || k is E),
        k is A ==> strafe_of(k) == Some(Strafe::Left),
        k is D ==> strafe_of(k) == Some(Strafe::Right),
        k is W ==> strafe_of(k) == Some(Strafe::Forward),
        k is S ==> strafe_of(k) == Some(Strafe::Backward),
        k is Q ==> strafe_of(k) == Some(Strafe::Up),
        k is E ==> strafe_of(k) == Some(Strafe::Down),
        strafe_of(k) is Some && a != InputAction::Press ==> skybox_step(rotating, SkyboxEvent::Key(k, a)).1
            == SkyboxAction::Move(strafe_of(k).unwrap()),
        strafe_of(k) is Some ==> skybox_step(rotating, SkyboxEvent::Key(k, InputAction::Press)).1
            == SkyboxAction::Ignore,
        skybox_step(rotating, SkyboxEvent::Key(SkyboxKey::Escape, InputAction::Release)).1 == SkyboxAction::Quit,
        skybox_step(rotating, SkyboxEvent::Close).1 == SkyboxAction::Quit,
{
}

} // verus!
