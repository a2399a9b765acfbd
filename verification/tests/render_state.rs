use luminance_gl::glenum;
use luminance_gl::render_state::{
    comparison_to_glenum, equation_from_glenum, face_culling_mode_to_glenum, face_culling_order_to_glenum,
    from_blending_equation, from_blending_factor, from_gl_blending_factor, glenum_to_comparison,
    glenum_to_face_culling_mode, glenum_to_face_culling_order, glenum_to_stencil_op, stencil_op_to_glenum, Comparison,
    Equation, Factor, FaceCullingMode, FaceCullingOrder, StencilOp,
};

const EQUATIONS: [Equation; 5] =
    [Equation::Additive, Equation::Subtract, Equation::ReverseSubtract, Equation::Min, Equation::Max];

const FACTORS: [Factor; 11] = [
    Factor::One,
    Factor::Zero,
    Factor::SrcColor,
    Factor::SrcColorComplement,
    Factor::DestColor,
    Factor::DestColorComplement,
    Factor::SrcAlpha,
    Factor::SrcAlphaComplement,
    Factor::DstAlpha,
    Factor::DstAlphaComplement,
    Factor::SrcAlphaSaturate,
];

const COMPARISONS: [Comparison; 8] = [
    Comparison::Never,
    Comparison::Always,
    Comparison::Equal,
    Comparison::NotEqual,
    Comparison::Less,
    Comparison::LessOrEqual,
    Comparison::Greater,
    Comparison::GreaterOrEqual,
];

const STENCIL_OPS: [StencilOp; 8] = [
    StencilOp::Keep,
    StencilOp::Zero,
    StencilOp::Replace,
    StencilOp::Increment,
    StencilOp::IncrementWrap,
    StencilOp::Decrement,
    StencilOp::DecrementWrap,
    StencilOp::Invert,
];

#[test]
fn blending_equations_round_trip() {
    assert_eq!(from_blending_equation(Equation::Additive), glenum::FUNC_ADD);
    assert_eq!(from_blending_equation(Equation::ReverseSubtract), glenum::FUNC_REVERSE_SUBTRACT);
    for e in EQUATIONS {
        assert_eq!(equation_from_glenum(from_blending_equation(e)), Ok(e));
    }
    assert_eq!(equation_from_glenum(0xdead), Err(0xdead));
}

#[test]
fn blending_factors_round_trip() {
    assert_eq!(from_blending_factor(Factor::SrcAlphaComplement), glenum::ONE_MINUS_SRC_ALPHA);
    assert_eq!(from_blending_factor(Factor::DestColor), glenum::DST_COLOR);
    for f in FACTORS {
        assert_eq!(from_gl_blending_factor(from_blending_factor(f)), Ok(f));
    }
    assert_eq!(from_gl_blending_factor(0x1234), Err(0x1234));
}

#[test]
fn comparisons_round_trip() {
    assert_eq!(comparison_to_glenum(Comparison::NotEqual), glenum::NOTEQUAL);
    for c in COMPARISONS {
        assert_eq!(glenum_to_comparison(comparison_to_glenum(c)), Some(c));
    }
    assert_eq!(glenum_to_comparison(0x0300), None);
}

#[test]
fn stencil_ops_round_trip() {
    assert_eq!(stencil_op_to_glenum(StencilOp::Zero), glenum::ZERO);
    assert_eq!(stencil_op_to_glenum(StencilOp::IncrementWrap), glenum::INCR_WRAP);
    for op in STENCIL_OPS {
        assert_eq!(glenum_to_stencil_op(stencil_op_to_glenum(op)), Some(op));
    }
    assert_eq!(glenum_to_stencil_op(7), None);
}

#[test]
fn face_culling_round_trip() {
    assert_eq!(face_culling_order_to_glenum(FaceCullingOrder::CW), glenum::CW);
    assert_eq!(face_culling_mode_to_glenum(FaceCullingMode::Both), glenum::FRONT_AND_BACK);
    for o in [FaceCullingOrder::CW, FaceCullingOrder::CCW] {
        assert_eq!(glenum_to_face_culling_order(face_culling_order_to_glenum(o)), Some(o));
    }
    for m in [FaceCullingMode::Front, FaceCullingMode::Back, FaceCullingMode::Both] {
        assert_eq!(glenum_to_face_culling_mode(face_culling_mode_to_glenum(m)), Some(m));
    }
    assert_eq!(glenum_to_face_culling_order(glenum::BACK), None);
    assert_eq!(glenum_to_face_culling_mode(glenum::CW), None);
}
