use vstd::prelude::*;

use crate::glenum;

verus! {

/// Blending equation: how the source and destination colors are combined.
#[derive(Clone, Copy, Debug, PartialEq, Eq, Structural)]
pub enum Equation {
    Additive,
    Subtract,
    ReverseSubtract,
    Min,
    Max,
}

/// Blending factor applied to the source or the destination color.
#[derive(Clone, Copy, Debug, PartialEq, Eq, Structural)]
pub enum Factor {
    One,
    Zero,
    SrcColor,
    SrcColorComplement,
    DestColor,
    DestColorComplement,
    SrcAlpha,
    SrcAlphaComplement,
    DstAlpha,
    DstAlphaComplement,
    SrcAlphaSaturate,
}

/// Comparison function used by depth and stencil tests and by depth-comparing samplers.
#[derive(Clone, Copy, Debug, PartialEq, Eq, Structural)]
pub enum Comparison {
    Never,
    Always,
    Equal,
    NotEqual,
    Less,
    LessOrEqual,
    Greater,
    GreaterOrEqual,
}

/// Operation applied to the stencil buffer.
#[derive(Clone, Copy, Debug, PartialEq, Eq, Structural)]
pub enum StencilOp {
    Keep,
    Zero,
    Replace,
    Increment,
    IncrementWrap,
    Decrement,
    DecrementWrap,
    Invert,
}

/// Winding order of front faces.
#[derive(Clone, Copy, Debug, PartialEq, Eq, Structural)]
pub enum FaceCullingOrder {
    CW,
    CCW,
}

/// Which faces get culled.
#[derive(Clone, Copy, Debug, PartialEq, Eq, Structural)]
pub enum FaceCullingMode {
    Front,
    Back,
    Both,
}

/// Whether or not blending is enabled.
#[derive(Clone, Copy, Debug, PartialEq, Eq, Structural)]
pub enum BlendingState {
    On,
    Off,
}

/// Whether or not the depth test is enabled.
#[derive(Clone, Copy, Debug, PartialEq, Eq, Structural)]
pub enum DepthTest {
    On,
    Off,
}

/// Whether or not depth values get written.
#[derive(Clone, Copy, Debug, PartialEq, Eq, Structural)]
pub enum DepthWrite {
    On,
    Off,
}

/// Whether or not face culling is enabled.
#[derive(Clone, Copy, Debug, PartialEq, Eq, Structural)]
pub enum FaceCullingState {
    On,
    Off,
}

/// Whether or not primitive restart (vertex restart) is enabled.
#[derive(Clone, Copy, Debug, PartialEq, Eq, Structural)]
pub enum VertexRestart {
    On,
    Off,
}

/// Whether or not the scissor test is enabled.
#[derive(Clone, Copy, Debug, PartialEq, Eq, Structural)]
pub enum ScissorState {
    On,
    Off,
}

/// RGB and alpha blending equations, as cached by a graphics state.
#[derive(Clone, Copy, Debug, PartialEq, Eq, Structural)]
pub struct BlendingEquations {
    pub rgb: Equation,
    pub alpha: Equation,
}

/// Source and destination blending factors for RGB and alpha, as cached by a graphics state.
#[derive(Clone, Copy, Debug, PartialEq, Eq, Structural)]
pub struct BlendingFactors {
    pub src_rgb: Factor,
    pub dst_rgb: Factor,
    pub src_alpha: Factor,
    pub dst_alpha: Factor,
}

/// Face culling configuration: order and mode.
#[derive(Clone, Copy, Debug, PartialEq, Eq, Structural)]
pub struct FaceCulling {
    pub order: FaceCullingOrder,
    pub mode: FaceCullingMode,
}

/// Blending configuration of a render state: equation, source factor, destination factor.
#[derive(Clone, Copy, Debug, PartialEq, Eq, Structural)]
pub struct Blending {
    pub equation: Equation,
    pub src: Factor,
    pub dst: Factor,
}

/// A render state: blending, depth test and face culling to apply before rendering.
#[derive(Clone, Copy, Debug, PartialEq, Eq, Structural)]
pub struct RenderState {
    pub blending: Option<Blending>,
    pub depth_test: Option<Comparison>,
    pub face_culling: Option<FaceCulling>,
}

/// The GL enumerant of a blending equation.
pub open spec fn equation_glenum(e: Equation) -> u32 {
    match e {
        Equation::Additive => glenum::FUNC_ADD,
        Equation::Subtract => glenum::FUNC_SUBTRACT,
        Equation::ReverseSubtract => glenum::FUNC_REVERSE_SUBTRACT,
        Equation::Min => glenum::MIN,
        Equation::Max => glenum::MAX,
    }
}

/// The GL enumerant of a blending factor.
pub open spec fn factor_glenum(f: Factor) -> u32 {
    match f {
        Factor::One => glenum::ONE,
        Factor::Zero => glenum::ZERO,
        Factor::SrcColor => glenum::SRC_COLOR,
        Factor::SrcColorComplement => glenum::ONE_MINUS_SRC_COLOR,
        Factor::DestColor => glenum::DST_COLOR,
        Factor::DestColorComplement => glenum::ONE_MINUS_DST_COLOR,
        Factor::SrcAlpha => glenum::SRC_ALPHA,
        Factor::SrcAlphaComplement => glenum::ONE_MINUS_SRC_ALPHA,
        Factor::DstAlpha => glenum::DST_ALPHA,
        Factor::DstAlphaComplement => glenum::ONE_MINUS_DST_ALPHA,
        Factor::SrcAlphaSaturate => glenum::SRC_ALPHA_SATURATE,
    }
}

/// The GL enumerant of a comparison function.
pub open spec fn comparison_glenum(c: Comparison) -> u32 {
    match c {
        Comparison::Never => glenum::NEVER,
        Comparison::Always => glenum::ALWAYS,
        Comparison::Equal => glenum::EQUAL,
        Comparison::NotEqual => glenum::NOTEQUAL,
        Comparison::Less => glenum::LESS,
        Comparison::LessOrEqual => glenum::LEQUAL,
        Comparison::Greater => glenum::GREATER,
        Comparison::GreaterOrEqual => glenum::GEQUAL,
    }
}

/// The GL enumerant of a stencil operation.
pub open spec fn stencil_op_glenum(op: StencilOp) -> u32 {
    match op {
        StencilOp::Keep => glenum::KEEP,
        StencilOp::Zero => glenum::ZERO,
        StencilOp::Replace => glenum::REPLACE,
        StencilOp::Increment => glenum::INCR,
        StencilOp::IncrementWrap => glenum::INCR_WRAP,
        StencilOp::Decrement => glenum::DECR,
        StencilOp::DecrementWrap => glenum::DECR_WRAP,
        StencilOp::Invert => glenum::INVERT,
    }
}

/// The GL enumerant of a face culling order.
pub open spec fn face_culling_order_glenum(o: FaceCullingOrder) -> u32 {
    match o {
        FaceCullingOrder::CW => glenum::CW,
        FaceCullingOrder::CCW => glenum::CCW,
    }
}

/// The GL enumerant of a face culling mode.
pub open spec fn face_culling_mode_glenum(m: FaceCullingMode) -> u32 {
    match m {
        FaceCullingMode::Front => glenum::FRONT,
        FaceCullingMode::Back => glenum::BACK,
        FaceCullingMode::Both => glenum::FRONT_AND_BACK,
    }
}

/// Map a blending equation to its GL enumerant.
pub fn from_blending_equation(equation: Equation) -> (r: u32)
    ensures
        r == equation_glenum(equation),
{
    match equation {
        Equation::Additive => glenum::FUNC_ADD,
        Equation::Subtract => glenum::FUNC_SUBTRACT,
        Equation::ReverseSubtract => glenum::FUNC_REVERSE_SUBTRACT,
        Equation::Min => glenum::MIN,
        Equation::Max => glenum::MAX,
    }
}

/// Map a GL enumerant back to the blending equation it stands for; `Err` carries an enumerant
/// that stands for no equation.
pub fn equation_from_glenum(data: u32) -> (r: Result<Equation, u32>)
    ensures
        match r {
            Ok(e) => equation_glenum(e) == data,
            Err(d) => d == data && forall|e: Equation| equation_glenum(e) != data,
        },
{
    if data == glenum::FUNC_ADD {
        Ok(Equation::Additive)
    } else if data == glenum::FUNC_SUBTRACT {
        Ok(Equation::Subtract)
    } else if data == glenum::FUNC_REVERSE_SUBTRACT {
        Ok(Equation::ReverseSubtract)
    } else if data == glenum::MIN {
        Ok(Equation::Min)
    } else if data == glenum::MAX {
        Ok(Equation::Max)
    } else {
        Err(data)
    }
}

/// Map a blending factor to its GL enumerant.
pub fn from_blending_factor(factor: Factor) -> (r: u32)
    ensures
        r == factor_glenum(factor),
{
    match factor {
        Factor::One => glenum::ONE,
        Factor::Zero => glenum::ZERO,
        Factor::SrcColor => glenum::SRC_COLOR,
        Factor::SrcColorComplement => glenum::ONE_MINUS_SRC_COLOR,
        Factor::DestColor => glenum::DST_COLOR,
        Factor::DestColorComplement => glenum::ONE_MINUS_DST_COLOR,
        Factor::SrcAlpha => glenum::SRC_ALPHA,
        Factor::SrcAlphaComplement => glenum::ONE_MINUS_SRC_ALPHA,
        Factor::DstAlpha => glenum::DST_ALPHA,
        Factor::DstAlphaComplement => glenum::ONE_MINUS_DST_ALPHA,
        Factor::SrcAlphaSaturate => glenum::SRC_ALPHA_SATURATE,
    }
}

/// Map a GL enumerant back to the blending factor it stands for; `Err` hands the unknown
/// enumerant back.
pub fn from_gl_blending_factor(factor: u32) -> (r: Result<Factor, u32>)
    ensures
        match r {
            Ok(f) => factor_glenum(f) == factor,
            Err(d) => d == factor && forall|f: Factor| factor_glenum(f) != factor,
        },
{
    if factor == glenum::ONE {
        Ok(Factor::One)
    } else if factor == glenum::ZERO {
        Ok(Factor::Zero)
    } else if factor == glenum::SRC_COLOR {
        Ok(Factor::SrcColor)
    } else if factor == glenum::ONE_MINUS_SRC_COLOR {
        Ok(Factor::SrcColorComplement)
    } else if factor == glenum::DST_COLOR {
        Ok(Factor::DestColor)
    } else if factor == glenum::ONE_MINUS_DST_COLOR {
        Ok(Factor::DestColorComplement)
    } else if factor == glenum::SRC_ALPHA {
        Ok(Factor::SrcAlpha)
    } else if factor == glenum::ONE_MINUS_SRC_ALPHA {
        Ok(Factor::SrcAlphaComplement)
    } else if factor == glenum::DST_ALPHA {
        Ok(Factor::DstAlpha)
    } else if factor == glenum::ONE_MINUS_DST_ALPHA {
        Ok(Factor::DstAlphaComplement)
    } else if factor == glenum::SRC_ALPHA_SATURATE {
        Ok(Factor::SrcAlphaSaturate)
    } else {
        Err(factor)
    }
}

/// Map a comparison function to its GL enumerant.
pub fn comparison_to_glenum(dc: Comparison) -> (r: u32)
    ensures
        r == comparison_glenum(dc),
{
    match dc {
        Comparison::Never => glenum::NEVER,
        Comparison::Always => glenum::ALWAYS,
        Comparison::Equal => glenum::EQUAL,
        Comparison::NotEqual => glenum::NOTEQUAL,
        Comparison::Less => glenum::LESS,
        Comparison::LessOrEqual => glenum::LEQUAL,
        Comparison::Greater => glenum::GREATER,
        Comparison::GreaterOrEqual => glenum::GEQUAL,
    }
}

/// Map a GL enumerant back to the comparison function it stands for, if any.
pub fn glenum_to_comparison(a: u32) -> (r: Option<Comparison>)
    ensures
        match r {
            Some(c) => comparison_glenum(c) == a,
            None => forall|c: Comparison| comparison_glenum(c) != a,
        },
{
    if a == glenum::NEVER {
        Some(Comparison::Never)
    } else if a == glenum::ALWAYS {
        Some(Comparison::Always)
    } else if a == glenum::EQUAL {
        Some(Comparison::Equal)
    } else if a == glenum::NOTEQUAL {
        Some(Comparison::NotEqual)
    } else if a == glenum::LESS {
        Some(Comparison::Less)
    } else if a == glenum::LEQUAL {
        Some(Comparison::LessOrEqual)
    } else if a == glenum::GREATER {
        Some(Comparison::Greater)
    } else if a == glenum::GEQUAL {
        Some(Comparison::GreaterOrEqual)
    } else {
        None
    }
}

/// Map a stencil operation to its GL enumerant.
pub fn stencil_op_to_glenum(op: StencilOp) -> (r: u32)
    ensures
        r == stencil_op_glenum(op),
{
    match op {
        StencilOp::Keep => glenum::KEEP,
        StencilOp::Zero => glenum::ZERO,
        StencilOp::Replace => glenum::REPLACE,
        StencilOp::Increment => glenum::INCR,
        StencilOp::IncrementWrap => glenum::INCR_WRAP,
        StencilOp::Decrement => glenum::DECR,
        StencilOp::DecrementWrap => glenum::DECR_WRAP,
        StencilOp::Invert => glenum::INVERT,
    }
}

/// Map a GL enumerant back to the stencil operation it stands for, if any.
pub fn glenum_to_stencil_op(a: u32) -> (r: Option<StencilOp>)
    ensures
        match r {
            Some(op) => stencil_op_glenum(op) == a,
            None => forall|op: StencilOp| stencil_op_glenum(op) != a,
        },
{
    if a == glenum::KEEP {
        Some(StencilOp::Keep)
    } else if a == glenum::ZERO {
        Some(StencilOp::Zero)
    } else if a == glenum::REPLACE {
        Some(StencilOp::Replace)
    } else if a == glenum::INCR {
        Some(StencilOp::Increment)
    } else if a == glenum::INCR_WRAP {
        Some(StencilOp::IncrementWrap)
    } else if a == glenum::DECR {
        Some(StencilOp::Decrement)
    } else if a == glenum::DECR_WRAP {
        Some(StencilOp::DecrementWrap)
    } else if a == glenum::INVERT {
        Some(StencilOp::Invert)
    } else {
        None
    }
}

/// Map a face culling order to its GL enumerant.
pub fn face_culling_order_to_glenum(order: FaceCullingOrder) -> (r: u32)
    ensures
        r == face_culling_order_glenum(order),
{
    match order {
        FaceCullingOrder::CW => glenum::CW,
        FaceCullingOrder::CCW => glenum::CCW,
    }
}

/// Map a face culling mode to its GL enumerant.
pub fn face_culling_mode_to_glenum(mode: FaceCullingMode) -> (r: u32)
    ensures
        r == face_culling_mode_glenum(mode),
{
    match mode {
        FaceCullingMode::Front => glenum::FRONT,
        FaceCullingMode::Back => glenum::BACK,
        FaceCullingMode::Both => glenum::FRONT_AND_BACK,
    }
}

/// Map a GL enumerant back to the face culling order it stands for, if any.
pub fn glenum_to_face_culling_order(a: u32) -> (r: Option<FaceCullingOrder>)
    ensures
        match r {
            Some(o) => face_culling_order_glenum(o) == a,
            None => forall|o: FaceCullingOrder| face_culling_order_glenum(o) != a,
        },
{
    if a == glenum::CCW {
        Some(FaceCullingOrder::CCW)
    } else if a == glenum::CW {
        Some(FaceCullingOrder::CW)
    } else {
        None
    }
}

/// Map a GL enumerant back to the face culling mode it stands for, if any.
pub fn glenum_to_face_culling_mode(a: u32) -> (r: Option<FaceCullingMode>)
    ensures
        match r {
            Some(m) => face_culling_mode_glenum(m) == a,
            None => forall|m: FaceCullingMode| face_culling_mode_glenum(m) != a,
        },
{
    if a == glenum::FRONT {
        Some(FaceCullingMode::Front)
    } else if a == glenum::BACK {
        Some(FaceCullingMode::Back)
    } else if a == glenum::FRONT_AND_BACK {
        Some(FaceCullingMode::Both)
    } else {
        None
    }
}

/// Distinct blending equations have distinct GL enumerants, so decoding the enumerant of an
/// equation gives that equation back.
pub proof fn law_equation_glenum_injective(a: Equation, b: Equation)
    ensures
        equation_glenum(a) == equation_glenum(b) ==> a == b,
{
}

/// Distinct blending factors have distinct GL enumerants, so decoding the enumerant of a factor
/// gives that factor back.
pub proof fn law_factor_glenum_injective(a: Factor, b: Factor)
    ensures
        factor_glenum(a) == factor_glenum(b) ==> a == b,
{
}

/// Distinct comparison functions have distinct GL enumerants, so decoding the enumerant of a
/// comparison gives that comparison back.
pub proof fn law_comparison_glenum_injective(a: Comparison, b: Comparison)
    ensures
        comparison_glenum(a) == comparison_glenum(b) ==> a == b,
{
}

/// Distinct stencil operations have distinct GL enumerants, so decoding the enumerant of an
/// operation gives that operation back.
pub proof fn law_stencil_op_glenum_injective(a: StencilOp, b: StencilOp)
    ensures
        stencil_op_glenum(a) == stencil_op_glenum(b) ==> a == b,
{
}

/// Distinct face culling orders and modes have distinct GL enumerants.
pub proof fn law_face_culling_glenum_injective(
    a: FaceCullingOrder,
    b: FaceCullingOrder,
    c: FaceCullingMode,
    d: FaceCullingMode,
)
    ensures
        face_culling_order_glenum(a) == face_culling_order_glenum(b) ==> a == b,
        face_culling_mode_glenum(c) == face_culling_mode_glenum(d) ==> c == d,
{
}


/// Each blending equation is sent as the GL enumerant of that name (`FUNC_ADD` 0x8006, `FUNC_SUBTRACT`
/// 0x800A, `FUNC_REVERSE_SUBTRACT` 0x800B, `MIN` 0x8007, `MAX` 0x8008), and two equations never share one.
pub proof fn law_equation_enumerants(x: Equation, y: Equation)
    ensures
        x is Additive ==> equation_glenum(x) == 0x8006u32,
        x is Subtract ==> equation_glenum(x) == 0x800Au32,
        x is ReverseSubtract ==> equation_glenum(x) == 0x800Bu32,
        x is Min ==> equation_glenum(x) == 0x8007u32,
        x is Max ==> equation_glenum(x) == 0x8008u32,
        equation_glenum(x) == equation_glenum(y) ==> x == y,
{
}

/// Each blending factor is sent as the GL enumerant of that name, and two factors never share one.
pub proof fn law_factor_enumerants(x: Factor, y: Factor)
    ensures
        x is One ==> factor_glenum(x) == 0x0001u32,
        x is Zero ==> factor_glenum(x) == 0x0000u32,
        x is SrcColor ==> factor_glenum(x) == 0x0300u32,
        x is SrcColorComplement ==> factor_glenum(x) == 0x0301u32,
        x is DestColor ==> factor_glenum(x) == 0x0306u32,
        x is DestColorComplement ==> factor_glenum(x) == 0x0307u32,
        x is SrcAlpha ==> factor_glenum(x) == 0x0302u32,
        x is SrcAlphaComplement ==> factor_glenum(x) == 0x0303u32,
        x is DstAlpha ==> factor_glenum(x) == 0x0304u32,
        x is DstAlphaComplement ==> factor_glenum(x) == 0x0305u32,
        x is SrcAlphaSaturate ==> factor_glenum(x) == 0x0308u32,
        factor_glenum(x) == factor_glenum(y) ==> x == y,
{
}

/// Each comparison is sent as the GL function of that name (`NEVER` 0x0200 up to `ALWAYS` 0x0207), and two
/// comparisons never share one.
pub proof fn law_comparison_enumerants(x: Comparison, y: Comparison)
    ensures
        x is Never ==> comparison_glenum(x) == 0x0200u32,
        x is Always ==> comparison_glenum(x) == 0x0207u32,
        x is Equal ==> comparison_glenum(x) == 0x0202u32,
        x is NotEqual ==> comparison_glenum(x) == 0x0205u32,
        x is Less ==> comparison_glenum(x) == 0x0201u32,
        x is LessOrEqual ==> comparison_glenum(x) == 0x0203u32,
        x is Greater ==> comparison_glenum(x) == 0x0204u32,
        x is GreaterOrEqual ==> comparison_glenum(x) == 0x0206u32,
        comparison_glenum(x) == comparison_glenum(y) ==> x == y,
{
}

/// Each stencil operation is sent as the GL enumerant of that name, and two operations never share one.
pub proof fn law_stencil_op_enumerants(x: StencilOp, y: StencilOp)
    ensures
        x is Keep ==> stencil_op_glenum(x) == 0x1E00u32,
        x is Zero ==> stencil_op_glenum(x) == 0x0000u32,
        x is Replace ==> stencil_op_glenum(x) == 0x1E01u32,
        x is Increment ==> stencil_op_glenum(x) == 0x1E02u32,
        x is IncrementWrap ==> stencil_op_glenum(x) == 0x8507u32,
        x is Decrement ==> stencil_op_glenum(x) == 0x1E03u32,
        x is DecrementWrap ==> stencil_op_glenum(x) == 0x8508u32,
        x is Invert ==> stencil_op_glenum(x) == 0x150Au32,
        stencil_op_glenum(x) == stencil_op_glenum(y) ==> x == y,
{
}

/// Clockwise order is `CW` (0x0900), counter-clockwise `CCW` (0x0901).
pub proof fn law_face_culling_order_enumerants(x: FaceCullingOrder, y: FaceCullingOrder)
    ensures
        x is CW ==> face_culling_order_glenum(x) == 0x0900u32,
        x is CCW ==> face_culling_order_glenum(x) == 0x0901u32,
        face_culling_order_glenum(x) == face_culling_order_glenum(y) ==> x == y,
{
}

/// Culling front faces is `FRONT` (0x0404), back faces `BACK` (0x0405), both `FRONT_AND_BACK` (0x0408).
pub proof fn law_face_culling_mode_enumerants(x: FaceCullingMode, y: FaceCullingMode)
    ensures
        x is Front ==> face_culling_mode_glenum(x) == 0x0404u32,
        x is Back ==> face_culling_mode_glenum(x) == 0x0405u32,
        x is Both ==> face_culling_mode_glenum(x) == 0x0408u32,
        face_culling_mode_glenum(x) == face_culling_mode_glenum(y) ==> x == y,
{
}

} // verus!
