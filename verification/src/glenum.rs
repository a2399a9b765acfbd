use vstd::prelude::*;

verus! {

// OpenGL / WebGL 2 enumerant values, as the Khronos registry defines them. WebGL 2
// shares these numbers with OpenGL, so both backends use this one table.

pub const FUNC_ADD: u32 = 0x8006;
pub const FUNC_SUBTRACT: u32 = 0x800A;
pub const FUNC_REVERSE_SUBTRACT: u32 = 0x800B;
pub const MIN: u32 = 0x8007;
pub const MAX: u32 = 0x8008;
pub const ZERO: u32 = 0;
pub const ONE: u32 = 1;
pub const SRC_COLOR: u32 = 0x0300;
pub const ONE_MINUS_SRC_COLOR: u32 = 0x0301;
pub const DST_COLOR: u32 = 0x0306;
pub const ONE_MINUS_DST_COLOR: u32 = 0x0307;
pub const SRC_ALPHA: u32 = 0x0302;
pub const ONE_MINUS_SRC_ALPHA: u32 = 0x0303;
pub const DST_ALPHA: u32 = 0x0304;
pub const ONE_MINUS_DST_ALPHA: u32 = 0x0305;
pub const SRC_ALPHA_SATURATE: u32 = 0x0308;
pub const NEVER: u32 = 0x0200;
pub const ALWAYS: u32 = 0x0207;
pub const EQUAL: u32 = 0x0202;
pub const NOTEQUAL: u32 = 0x0205;
pub const LESS: u32 = 0x0201;
pub const LEQUAL: u32 = 0x0203;
pub const GREATER: u32 = 0x0204;
pub const GEQUAL: u32 = 0x0206;
pub const KEEP: u32 = 0x1E00;
pub const REPLACE: u32 = 0x1E01;
pub const INCR: u32 = 0x1E02;
pub const INCR_WRAP: u32 = 0x8507;
pub const DECR: u32 = 0x1E03;
pub const DECR_WRAP: u32 = 0x8508;
pub const INVERT: u32 = 0x150A;
pub const CW: u32 = 0x0900;
pub const CCW: u32 = 0x0901;
pub const FRONT: u32 = 0x0404;
pub const BACK: u32 = 0x0405;
pub const FRONT_AND_BACK: u32 = 0x0408;
pub const BLEND: u32 = 0x0BE2;
pub const DEPTH_TEST: u32 = 0x0B71;
pub const CULL_FACE: u32 = 0x0B44;
pub const PRIMITIVE_RESTART: u32 = 0x8F9D;
pub const FRAMEBUFFER_SRGB: u32 = 0x8DB9;
pub const SCISSOR_TEST: u32 = 0x0C11;
pub const PATCH_VERTICES: u32 = 0x8E72;
pub const TEXTURE0: u32 = 0x84C0;
pub const TEXTURE_2D: u32 = 0x0DE1;
pub const UNIFORM_BUFFER: u32 = 0x8A11;
pub const ARRAY_BUFFER: u32 = 0x8892;
pub const ELEMENT_ARRAY_BUFFER: u32 = 0x8893;
pub const DRAW_FRAMEBUFFER: u32 = 0x8CA9;
pub const READ_FRAMEBUFFER: u32 = 0x8CA8;
pub const FRAMEBUFFER: u32 = 0x8D40;
pub const BYTE: u32 = 0x1400;
pub const UNSIGNED_BYTE: u32 = 0x1401;
pub const SHORT: u32 = 0x1402;
pub const UNSIGNED_SHORT: u32 = 0x1403;
pub const INT: u32 = 0x1404;
pub const UNSIGNED_INT: u32 = 0x1405;
pub const FLOAT: u32 = 0x1406;
pub const DOUBLE: u32 = 0x140A;
pub const BOOL: u32 = 0x8B56;
pub const POINTS: u32 = 0x0000;
pub const LINES: u32 = 0x0001;
pub const LINE_STRIP: u32 = 0x0003;
pub const TRIANGLES: u32 = 0x0004;
pub const TRIANGLE_FAN: u32 = 0x0006;
pub const TRIANGLE_STRIP: u32 = 0x0005;
pub const PATCHES: u32 = 0x000E;
pub const TEXTURE_1D: u32 = 0x0DE0;
pub const TEXTURE_3D: u32 = 0x806F;
pub const TEXTURE_CUBE_MAP: u32 = 0x8513;
pub const TEXTURE_1D_ARRAY: u32 = 0x8C18;
pub const TEXTURE_2D_ARRAY: u32 = 0x8C1A;
pub const TEXTURE_CUBE_MAP_POSITIVE_X: u32 = 0x8515;
pub const CLAMP_TO_EDGE: u32 = 0x812F;
pub const REPEAT: u32 = 0x2901;
pub const MIRRORED_REPEAT: u32 = 0x8370;
pub const NEAREST: u32 = 0x2600;
pub const LINEAR: u32 = 0x2601;
pub const NEAREST_MIPMAP_NEAREST: u32 = 0x2700;
pub const NEAREST_MIPMAP_LINEAR: u32 = 0x2702;
pub const LINEAR_MIPMAP_NEAREST: u32 = 0x2701;
pub const LINEAR_MIPMAP_LINEAR: u32 = 0x2703;
pub const TEXTURE_WRAP_R: u32 = 0x8072;
pub const TEXTURE_WRAP_S: u32 = 0x2802;
pub const TEXTURE_WRAP_T: u32 = 0x2803;
pub const TEXTURE_MIN_FILTER: u32 = 0x2801;
pub const TEXTURE_MAG_FILTER: u32 = 0x2800;
pub const TEXTURE_COMPARE_FUNC: u32 = 0x884D;
pub const TEXTURE_COMPARE_MODE: u32 = 0x884C;
pub const COMPARE_REF_TO_TEXTURE: u32 = 0x884E;
pub const NONE: u32 = 0;
pub const TEXTURE_BASE_LEVEL: u32 = 0x813C;
pub const TEXTURE_MAX_LEVEL: u32 = 0x813D;
pub const UNPACK_ALIGNMENT: u32 = 0x0CF5;
pub const PACK_ALIGNMENT: u32 = 0x0D05;
pub const FRAMEBUFFER_COMPLETE: u32 = 0x8CD5;
pub const FRAMEBUFFER_UNDEFINED: u32 = 0x8219;
pub const FRAMEBUFFER_INCOMPLETE_ATTACHMENT: u32 = 0x8CD6;
pub const FRAMEBUFFER_INCOMPLETE_MISSING_ATTACHMENT: u32 = 0x8CD7;
pub const FRAMEBUFFER_INCOMPLETE_DRAW_BUFFER: u32 = 0x8CDB;
pub const FRAMEBUFFER_INCOMPLETE_READ_BUFFER: u32 = 0x8CDC;
pub const FRAMEBUFFER_UNSUPPORTED: u32 = 0x8CDD;
pub const FRAMEBUFFER_INCOMPLETE_MULTISAMPLE: u32 = 0x8D56;
pub const FRAMEBUFFER_INCOMPLETE_LAYER_TARGETS: u32 = 0x8DA8;
pub const COLOR_ATTACHMENT0: u32 = 0x8CE0;
pub const DEPTH_COMPONENT32F: u32 = 0x8CAC;
pub const RENDERBUFFER: u32 = 0x8D41;
pub const DEPTH_ATTACHMENT: u32 = 0x8D00;
pub const COLOR_BUFFER_BIT: u32 = 0x00004000;
pub const DEPTH_BUFFER_BIT: u32 = 0x00000100;
pub const VERTEX_SHADER: u32 = 0x8B31;
pub const FRAGMENT_SHADER: u32 = 0x8B30;
pub const GEOMETRY_SHADER: u32 = 0x8DD9;
pub const TESS_CONTROL_SHADER: u32 = 0x8E88;
pub const TESS_EVALUATION_SHADER: u32 = 0x8E87;
pub const INT_VEC2: u32 = 0x8B53;
pub const INT_VEC3: u32 = 0x8B54;
pub const INT_VEC4: u32 = 0x8B55;
pub const UNSIGNED_INT_VEC2: u32 = 0x8DC6;
pub const UNSIGNED_INT_VEC3: u32 = 0x8DC7;
pub const UNSIGNED_INT_VEC4: u32 = 0x8DC8;
pub const FLOAT_VEC2: u32 = 0x8B50;
pub const FLOAT_VEC3: u32 = 0x8B51;
pub const FLOAT_VEC4: u32 = 0x8B52;
pub const DOUBLE_VEC2: u32 = 0x8FFC;
pub const DOUBLE_VEC3: u32 = 0x8FFD;
pub const DOUBLE_VEC4: u32 = 0x8FFE;
pub const BOOL_VEC2: u32 = 0x8B57;
pub const BOOL_VEC3: u32 = 0x8B58;
pub const BOOL_VEC4: u32 = 0x8B59;
pub const FLOAT_MAT2: u32 = 0x8B5A;
pub const FLOAT_MAT3: u32 = 0x8B5B;
pub const FLOAT_MAT4: u32 = 0x8B5C;
pub const DOUBLE_MAT2: u32 = 0x8F46;
pub const DOUBLE_MAT3: u32 = 0x8F47;
pub const DOUBLE_MAT4: u32 = 0x8F48;
pub const INT_SAMPLER_1D: u32 = 0x8DC9;
pub const INT_SAMPLER_2D: u32 = 0x8DCA;
pub const INT_SAMPLER_3D: u32 = 0x8DCB;
pub const INT_SAMPLER_1D_ARRAY: u32 = 0x8DCE;
pub const INT_SAMPLER_2D_ARRAY: u32 = 0x8DCF;
pub const UNSIGNED_INT_SAMPLER_1D: u32 = 0x8DD1;
pub const UNSIGNED_INT_SAMPLER_2D: u32 = 0x8DD2;
pub const UNSIGNED_INT_SAMPLER_3D: u32 = 0x8DD3;
pub const UNSIGNED_INT_SAMPLER_1D_ARRAY: u32 = 0x8DD6;
pub const UNSIGNED_INT_SAMPLER_2D_ARRAY: u32 = 0x8DD7;
pub const SAMPLER_1D: u32 = 0x8B5D;
pub const SAMPLER_2D: u32 = 0x8B5E;
pub const SAMPLER_3D: u32 = 0x8B5F;
pub const SAMPLER_1D_ARRAY: u32 = 0x8DC0;
pub const SAMPLER_2D_ARRAY: u32 = 0x8DC1;
pub const INT_SAMPLER_CUBE: u32 = 0x8DCC;
pub const UNSIGNED_INT_SAMPLER_CUBE: u32 = 0x8DD4;
pub const SAMPLER_CUBE: u32 = 0x8B60;
pub const TRUE: u8 = 1;
pub const FALSE: u8 = 0;

} // verus!
