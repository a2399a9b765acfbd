//! The WebGL 2 graphics state: a cache in front of the WebGL 2 context that decides which calls
//! must actually be made. WebGL objects are designated by the integer ids that the caller gives
//! them; `None` is the null object.
use vstd::prelude::*;

use crate::glenum;
use crate::render_state::{
    comparison_to_glenum, equation_from_glenum, face_culling_mode_to_glenum,
    face_culling_order_to_glenum, from_blending_equation, from_blending_factor,
    from_gl_blending_factor, glenum_to_face_culling_mode, glenum_to_face_culling_order,
    BlendingEquations, BlendingFactors, BlendingState, Comparison, DepthTest, DepthWrite, Equation,
    Factor, FaceCullingMode, FaceCullingOrder, FaceCullingState, ScissorState,
};
use crate::render_state;
use crate::state::{slot_differs, slot_store, toggle_command, StackView, ViewportRect};

verus! {

/// A region of the framebuffer that the scissor test keeps.
#[derive(Clone, Copy, Debug, PartialEq, Eq, Structural)]
pub struct ScissorRegion {
    pub x: u32,
    pub y: u32,
    pub width: u32,
    pub height: u32,
}

/// A WebGL 2 call that the state decided to make. Objects are designated by their ids.
#[derive(Clone, Copy, Debug, PartialEq, Eq, Structural)]
pub enum WebGlCommand {
    Viewport { x: i32, y: i32, width: i32, height: i32 },
    Enable(u32),
    Disable(u32),
    BlendEquation(u32),
    BlendEquationSeparate(u32, u32),
    BlendFunc(u32, u32),
    BlendFuncSeparate(u32, u32, u32, u32),
    DepthFunc(u32),
    DepthMask(bool),
    FrontFace(u32),
    CullFace(u32),
    Scissor { x: i32, y: i32, width: i32, height: i32 },
    ActiveTexture(u32),
    BindTexture(u32, Option<u32>),
    BindBufferBase(u32, u32, Option<u32>),
    BindBuffer(u32, Option<u32>),
    BindFramebuffer(u32, Option<u32>),
    BindVertexArray(Option<u32>),
    UseProgram(Option<u32>),
}

/// The enable / disable call for a capability.
pub open spec fn webgl_toggle(on: bool, cap: u32) -> WebGlCommand {
    if on {
        WebGlCommand::Enable(cap)
    } else {
        WebGlCommand::Disable(cap)
    }
}

/// The view of a WebGL 2 graphics state.
pub struct WebGL2StateView {
    pub texture_units: StackView,
    pub buffer_bindings: StackView,
    pub viewport: ViewportRect,
    pub blending_state: BlendingState,
    pub blending_equations: BlendingEquations,
    pub blending_funcs: BlendingFactors,
    pub depth_test: DepthTest,
    pub depth_test_comparison: Comparison,
    pub depth_write: DepthWrite,
    pub face_culling_state: FaceCullingState,
    pub face_culling_order: FaceCullingOrder,
    pub face_culling_mode: FaceCullingMode,
    pub scissor_state: ScissorState,
    pub scissor_region: ScissorRegion,
    pub current_texture_unit: u32,
    pub bound_textures: Seq<(u32, Option<u32>)>,
    pub texture_pool: Seq<Option<u32>>,
    pub bound_uniform_buffers: Seq<Option<u32>>,
    pub bound_array_buffer: Option<u32>,
    pub bound_element_array_buffer: Option<u32>,
    pub bound_draw_framebuffer: Option<u32>,
    pub bound_read_framebuffer: Option<u32>,
    pub readback_framebuffer: Option<u32>,
    pub bound_vertex_array: Option<u32>,
    pub current_program: Option<u32>,
    pub vendor_name: Option<Seq<char>>,
    pub renderer_name: Option<Seq<char>>,
    pub webgl_version: Option<Seq<char>>,
    pub glsl_version: Option<Seq<char>>,
    pub max_texture_array_elements: Option<usize>,
}

/// The WebGL 2 graphics state.
///
/// It mirrors what the context currently holds so that the same call with the same parameters is
/// not made twice. Each setter answers with the call to make, if any; the caller makes it.
pub struct WebGL2State {
    binding_stack: crate::state::BindingStack,
    viewport: ViewportRect,
    blending_state: BlendingState,
    blending_equations: BlendingEquations,
    blending_funcs: BlendingFactors,
    depth_test: DepthTest,
    depth_test_comparison: Comparison,
    depth_write: DepthWrite,
    face_culling_state: FaceCullingState,
    face_culling_order: FaceCullingOrder,
    face_culling_mode: FaceCullingMode,
    scissor_state: ScissorState,
    scissor_region: ScissorRegion,
    current_texture_unit: u32,
    bound_textures: Vec<(u32, Option<u32>)>,
    texture_swimming_pool: Vec<Option<u32>>,
    bound_uniform_buffers: Vec<Option<u32>>,
    bound_array_buffer: Option<u32>,
    bound_element_array_buffer: Option<u32>,
    bound_draw_framebuffer: Option<u32>,
    bound_read_framebuffer: Option<u32>,
    readback_framebuffer: Option<u32>,
    bound_vertex_array: Option<u32>,
    current_program: Option<u32>,
    vendor_name: Option<String>,
    renderer_name: Option<String>,
    webgl_version: Option<String>,
    glsl_version: Option<String>,
    max_texture_array_elements: Option<usize>,
}

/// The view of an optional string.
pub open spec fn opt_str(s: Option<String>) -> Option<Seq<char>> {
    match s {
        Some(s) => Some(s@),
        None => None,
    }
}

impl View for WebGL2State {
    type V = WebGL2StateView;

    closed spec fn view(&self) -> WebGL2StateView {
        WebGL2StateView {
            texture_units: self.binding_stack.texture_units(),
            buffer_bindings: self.binding_stack.buffer_bindings(),
            viewport: self.viewport,
            blending_state: self.blending_state,
            blending_equations: self.blending_equations,
            blending_funcs: self.blending_funcs,
            depth_test: self.depth_test,
            depth_test_comparison: self.depth_test_comparison,
            depth_write: self.depth_write,
            face_culling_state: self.face_culling_state,
            face_culling_order: self.face_culling_order,
            face_culling_mode: self.face_culling_mode,
            scissor_state: self.scissor_state,
            scissor_region: self.scissor_region,
            current_texture_unit: self.current_texture_unit,
            bound_textures: self.bound_textures@,
            texture_pool: self.texture_swimming_pool@,
            bound_uniform_buffers: self.bound_uniform_buffers@,
            bound_array_buffer: self.bound_array_buffer,
            bound_element_array_buffer: self.bound_element_array_buffer,
            bound_draw_framebuffer: self.bound_draw_framebuffer,
            bound_read_framebuffer: self.bound_read_framebuffer,
            readback_framebuffer: self.readback_framebuffer,
            bound_vertex_array: self.bound_vertex_array,
            current_program: self.current_program,
            vendor_name: opt_str(self.vendor_name),
            renderer_name: opt_str(self.renderer_name),
            webgl_version: opt_str(self.webgl_version),
            glsl_version: opt_str(self.glsl_version),
            max_texture_array_elements: self.max_texture_array_elements,
        }
    }
}

fn same_handle(a: Option<u32>, b: Option<u32>) -> (r: bool)
    ensures
        r == (a == b),
{
    match (a, b) {
        (Some(x), Some(y)) => x == y,
        (None, None) => true,
        _ => false,
    }
}

impl WebGL2State {
    /// Request a viewport.
    pub fn set_viewport(&mut self, viewport: ViewportRect) -> (cmd: Option<WebGlCommand>)
        ensures
            final(self)@ == (WebGL2StateView { viewport: viewport, ..old(self)@ }),
            cmd == (if old(self)@.viewport != viewport {
                Some(WebGlCommand::Viewport { x: viewport.x, y: viewport.y, width: viewport.width, height: viewport.height })
            } else {
                None
            }),
    {
        if self.viewport != viewport {
            self.viewport = viewport;
            Some(WebGlCommand::Viewport { x: viewport.x, y: viewport.y, width: viewport.width, height: viewport.height })
        } else {
            None
        }
    }

    /// Request blending on or off.
    pub fn set_blending_state(&mut self, state: BlendingState) -> (cmd: Option<WebGlCommand>)
        ensures
            final(self)@ == (WebGL2StateView { blending_state: state, ..old(self)@ }),
            cmd == (if old(self)@.blending_state != state {
                Some(webgl_toggle(state == BlendingState::On, glenum::BLEND))
            } else {
                None
            }),
    {
        if self.blending_state != state {
            self.blending_state = state;
            Some(match state {
                BlendingState::On => WebGlCommand::Enable(glenum::BLEND),
                BlendingState::Off => WebGlCommand::Disable(glenum::BLEND),
            })
        } else {
            None
        }
    }

    /// Request the depth test on or off.
    pub fn set_depth_test(&mut self, depth_test: DepthTest) -> (cmd: Option<WebGlCommand>)
        ensures
            final(self)@ == (WebGL2StateView { depth_test: depth_test, ..old(self)@ }),
            cmd == (if old(self)@.depth_test != depth_test {
                Some(webgl_toggle(depth_test == DepthTest::On, glenum::DEPTH_TEST))
            } else {
                None
            }),
    {
        if self.depth_test != depth_test {
            self.depth_test = depth_test;
            Some(match depth_test {
                DepthTest::On => WebGlCommand::Enable(glenum::DEPTH_TEST),
                DepthTest::Off => WebGlCommand::Disable(glenum::DEPTH_TEST),
            })
        } else {
            None
        }
    }

    /// Request a depth test comparison.
    pub fn set_depth_test_comparison(&mut self, depth_test_comparison: Comparison) -> (cmd: Option<WebGlCommand>)
        ensures
            final(self)@ == (WebGL2StateView { depth_test_comparison: depth_test_comparison, ..old(self)@ }),
            cmd == (if old(self)@.depth_test_comparison != depth_test_comparison {
                Some(WebGlCommand::DepthFunc(render_state::comparison_glenum(depth_test_comparison)))
            } else {
                None
            }),
    {
        if self.depth_test_comparison != depth_test_comparison {
            self.depth_test_comparison = depth_test_comparison;
            Some(WebGlCommand::DepthFunc(comparison_to_glenum(depth_test_comparison)))
        } else {
            None
        }
    }

    /// Request depth writes on or off.
    pub fn set_depth_write(&mut self, depth_write: DepthWrite) -> (cmd: Option<WebGlCommand>)
        ensures
            final(self)@ == (WebGL2StateView { depth_write: depth_write, ..old(self)@ }),
            cmd == (if old(self)@.depth_write != depth_write {
                Some(WebGlCommand::DepthMask(depth_write == DepthWrite::On))
            } else {
                None
            }),
    {
        if self.depth_write != depth_write {
            self.depth_write = depth_write;
            Some(WebGlCommand::DepthMask(match depth_write {
                DepthWrite::On => true,
                DepthWrite::Off => false,
            }))
        } else {
            None
        }
    }

    /// Request face culling on or off.
    pub fn set_face_culling_state(&mut self, state: FaceCullingState) -> (cmd: Option<WebGlCommand>)
        ensures
            final(self)@ == (WebGL2StateView { face_culling_state: state, ..old(self)@ }),
            cmd == (if old(self)@.face_culling_state != state {
                Some(webgl_toggle(state == FaceCullingState::On, glenum::CULL_FACE))
            } else {
                None
            }),
    {
        if self.face_culling_state != state {
            self.face_culling_state = state;
            Some(match state {
                FaceCullingState::On => WebGlCommand::Enable(glenum::CULL_FACE),
                FaceCullingState::Off => WebGlCommand::Disable(glenum::CULL_FACE),
            })
        } else {
            None
        }
    }

    /// Request a face culling order.
    pub fn set_face_culling_order(&mut self, order: FaceCullingOrder) -> (cmd: Option<WebGlCommand>)
        ensures
            final(self)@ == (WebGL2StateView { face_culling_order: order, ..old(self)@ }),
            cmd == (if old(self)@.face_culling_order != order {
                Some(WebGlCommand::FrontFace(render_state::face_culling_order_glenum(order)))
            } else {
                None
            }),
    {
        if self.face_culling_order != order {
            self.face_culling_order = order;
            Some(WebGlCommand::FrontFace(face_culling_order_to_glenum(order)))
        } else {
            None
        }
    }

    /// Request a face culling mode.
    pub fn set_face_culling_mode(&mut self, mode: FaceCullingMode) -> (cmd: Option<WebGlCommand>)
        ensures
            final(self)@ == (WebGL2StateView { face_culling_mode: mode, ..old(self)@ }),
            cmd == (if old(self)@.face_culling_mode != mode {
                Some(WebGlCommand::CullFace(render_state::face_culling_mode_glenum(mode)))
            } else {
                None
            }),
    {
        if self.face_culling_mode != mode {
            self.face_culling_mode = mode;
            Some(WebGlCommand::CullFace(face_culling_mode_to_glenum(mode)))
        } else {
            None
        }
    }

    /// Request the scissor test on or off.
    pub fn set_scissor_state(&mut self, state: ScissorState) -> (cmd: Option<WebGlCommand>)
        ensures
            final(self)@ == (WebGL2StateView { scissor_state: state, ..old(self)@ }),
            cmd == (if old(self)@.scissor_state != state {
                Some(webgl_toggle(state == ScissorState::On, glenum::SCISSOR_TEST))
            } else {
                None
            }),
    {
        if self.scissor_state != state {
            self.scissor_state = state;
            Some(match state {
                ScissorState::On => WebGlCommand::Enable(glenum::SCISSOR_TEST),
                ScissorState::Off => WebGlCommand::Disable(glenum::SCISSOR_TEST),
            })
        } else {
            None
        }
    }

    /// Request a scissor region.
    pub fn set_scissor_region(&mut self, region: ScissorRegion) -> (cmd: Option<WebGlCommand>)
        ensures
            final(self)@ == (WebGL2StateView { scissor_region: region, ..old(self)@ }),
            cmd == (if old(self)@.scissor_region != region {
                Some(WebGlCommand::Scissor { x: region.x as i32, y: region.y as i32, width: region.width as i32, height: region.height as i32 })
            } else {
                None
            }),
    {
        if self.scissor_region != region {
            self.scissor_region = region;
            Some(WebGlCommand::Scissor { x: region.x as i32, y: region.y as i32, width: region.width as i32, height: region.height as i32 })
        } else {
            None
        }
    }

    /// Request a framebuffer to be bound for drawing.
    pub fn bind_draw_framebuffer(&mut self, handle: Option<u32>) -> (cmd: Option<WebGlCommand>)
        ensures
            final(self)@ == (WebGL2StateView { bound_draw_framebuffer: handle, ..old(self)@ }),
            cmd == (if old(self)@.bound_draw_framebuffer != handle {
                Some(WebGlCommand::BindFramebuffer(glenum::FRAMEBUFFER, handle))
            } else {
                None
            }),
    {
        if !same_handle(self.bound_draw_framebuffer, handle) {
            self.bound_draw_framebuffer = handle;
            Some(WebGlCommand::BindFramebuffer(glenum::FRAMEBUFFER, handle))
        } else {
            None
        }
    }

    /// Request a framebuffer to be bound for reading.
    pub fn bind_read_framebuffer(&mut self, handle: Option<u32>) -> (cmd: Option<WebGlCommand>)
        ensures
            final(self)@ == (WebGL2StateView { bound_read_framebuffer: handle, ..old(self)@ }),
            cmd == (if old(self)@.bound_read_framebuffer != handle {
                Some(WebGlCommand::BindFramebuffer(glenum::READ_FRAMEBUFFER, handle))
            } else {
                None
            }),
    {
        if !same_handle(self.bound_read_framebuffer, handle) {
            self.bound_read_framebuffer = handle;
            Some(WebGlCommand::BindFramebuffer(glenum::READ_FRAMEBUFFER, handle))
        } else {
            None
        }
    }

    /// Request a shader program to be in use.
    pub fn use_program(&mut self, handle: Option<u32>) -> (cmd: Option<WebGlCommand>)
        ensures
            final(self)@ == (WebGL2StateView { current_program: handle, ..old(self)@ }),
            cmd == (if old(self)@.current_program != handle {
                Some(WebGlCommand::UseProgram(handle))
            } else {
                None
            }),
    {
        if !same_handle(self.current_program, handle) {
            self.current_program = handle;
            Some(WebGlCommand::UseProgram(handle))
        } else {
            None
        }
    }

}


/// Should a binding be cached or forced?
#[derive(Clone, Copy, Debug, PartialEq, Eq, Structural)]
pub enum Bind {
    Forced,
    Cached,
}

impl WebGL2State {
    /// Request one blending equation for both RGB and alpha.
    pub fn set_blending_equation(&mut self, equation: Equation) -> (cmd: Option<WebGlCommand>)
        ensures
            final(self)@ == (WebGL2StateView {
                blending_equations: BlendingEquations { rgb: equation, alpha: equation },
                ..old(self)@
            }),
            cmd == (if old(self)@.blending_equations != (BlendingEquations { rgb: equation, alpha: equation }) {
                Some(WebGlCommand::BlendEquation(render_state::equation_glenum(equation)))
            } else {
                None
            }),
    {
        let equations = BlendingEquations { rgb: equation, alpha: equation };
        if self.blending_equations != equations {
            self.blending_equations = equations;
            Some(WebGlCommand::BlendEquation(from_blending_equation(equation)))
        } else {
            None
        }
    }

    /// Request separate blending equations for RGB and alpha.
    pub fn set_blending_equation_separate(&mut self, equation_rgb: Equation, equation_alpha: Equation) -> (cmd:
        Option<WebGlCommand>)
        ensures
            final(self)@ == (WebGL2StateView {
                blending_equations: BlendingEquations { rgb: equation_rgb, alpha: equation_alpha },
                ..old(self)@
            }),
            cmd == (if old(self)@.blending_equations != (BlendingEquations { rgb: equation_rgb, alpha: equation_alpha }) {
                Some(WebGlCommand::BlendEquationSeparate(
                    render_state::equation_glenum(equation_rgb),
                    render_state::equation_glenum(equation_alpha),
                ))
            } else {
                None
            }),
    {
        let equations = BlendingEquations { rgb: equation_rgb, alpha: equation_alpha };
        if self.blending_equations != equations {
            self.blending_equations = equations;
            Some(WebGlCommand::BlendEquationSeparate(
                from_blending_equation(equation_rgb),
                from_blending_equation(equation_alpha),
            ))
        } else {
            None
        }
    }

    /// Request one pair of blending factors for both RGB and alpha.
    pub fn set_blending_func(&mut self, src: Factor, dst: Factor) -> (cmd: Option<WebGlCommand>)
        ensures
            final(self)@ == (WebGL2StateView {
                blending_funcs: BlendingFactors { src_rgb: src, dst_rgb: dst, src_alpha: src, dst_alpha: dst },
                ..old(self)@
            }),
            cmd == (if old(self)@.blending_funcs != (BlendingFactors {
                src_rgb: src,
                dst_rgb: dst,
                src_alpha: src,
                dst_alpha: dst,
            }) {
                Some(WebGlCommand::BlendFunc(render_state::factor_glenum(src), render_state::factor_glenum(dst)))
            } else {
                None
            }),
    {
        let funcs = BlendingFactors { src_rgb: src, dst_rgb: dst, src_alpha: src, dst_alpha: dst };
        if self.blending_funcs != funcs {
            self.blending_funcs = funcs;
            Some(WebGlCommand::BlendFunc(from_blending_factor(src), from_blending_factor(dst)))
        } else {
            None
        }
    }

    /// Request separate blending factors for RGB and alpha.
    pub fn set_blending_func_separate(
        &mut self,
        src_rgb: Factor,
        dst_rgb: Factor,
        src_alpha: Factor,
        dst_alpha: Factor,
    ) -> (cmd: Option<WebGlCommand>)
        ensures
            final(self)@ == (WebGL2StateView {
                blending_funcs: BlendingFactors { src_rgb, dst_rgb, src_alpha, dst_alpha },
                ..old(self)@
            }),
            cmd == (if old(self)@.blending_funcs != (BlendingFactors { src_rgb, dst_rgb, src_alpha, dst_alpha }) {
                Some(WebGlCommand::BlendFuncSeparate(
                    render_state::factor_glenum(src_rgb),
                    render_state::factor_glenum(dst_rgb),
                    render_state::factor_glenum(src_alpha),
                    render_state::factor_glenum(dst_alpha),
                ))
            } else {
                None
            }),
    {
        let funcs = BlendingFactors { src_rgb, dst_rgb, src_alpha, dst_alpha };
        if self.blending_funcs != funcs {
            self.blending_funcs = funcs;
            Some(WebGlCommand::BlendFuncSeparate(
                from_blending_factor(src_rgb),
                from_blending_factor(dst_rgb),
                from_blending_factor(src_alpha),
                from_blending_factor(dst_alpha),
            ))
        } else {
            None
        }
    }

    /// Request a texture unit to be the active one.
    pub fn set_texture_unit(&mut self, unit: u32) -> (cmd: Option<WebGlCommand>)
        requires
            unit <= u32::MAX - glenum::TEXTURE0,
        ensures
            final(self)@ == (WebGL2StateView { current_texture_unit: unit, ..old(self)@ }),
            cmd == (if old(self)@.current_texture_unit != unit {
                Some(WebGlCommand::ActiveTexture((glenum::TEXTURE0 + unit) as u32))
            } else {
                None
            }),
    {
        if self.current_texture_unit != unit {
            self.current_texture_unit = unit;
            Some(WebGlCommand::ActiveTexture(glenum::TEXTURE0 + unit))
        } else {
            None
        }
    }

    /// Request a texture to be bound on the active texture unit.
    pub fn bind_texture(&mut self, target: u32, handle: Option<u32>) -> (cmd: Option<WebGlCommand>)
        requires
            old(self)@.current_texture_unit + 1 <= usize::MAX,
        ensures
            ({
                let unit = old(self)@.current_texture_unit as int;
                &&& final(self)@ == (WebGL2StateView {
                    bound_textures: slot_store(
                        old(self)@.bound_textures,
                        unit,
                        (target, handle),
                        (glenum::TEXTURE_2D, None::<u32>),
                    ),
                    ..old(self)@
                })
                &&& cmd == (if slot_differs(old(self)@.bound_textures, unit, (target, handle)) {
                    Some(WebGlCommand::BindTexture(target, handle))
                } else {
                    None
                })
            }),
    {
        let unit = self.current_texture_unit as usize;
        if unit < self.bound_textures.len() {
            let (t, h) = self.bound_textures[unit];
            if target != t || !same_handle(handle, h) {
                self.bound_textures.set(unit, (target, handle));
                Some(WebGlCommand::BindTexture(target, handle))
            } else {
                assert(self.bound_textures@ =~= self.bound_textures@.update(unit as int, (target, handle)));
                None
            }
        } else {
            store(&mut self.bound_textures, unit, (target, handle), (glenum::TEXTURE_2D, None));
            Some(WebGlCommand::BindTexture(target, handle))
        }
    }

    /// Request a uniform buffer to be bound at a binding point.
    pub fn bind_buffer_base(&mut self, handle: u32, binding: u32) -> (cmd: Option<WebGlCommand>)
        requires
            binding + 1 <= usize::MAX,
        ensures
            final(self)@ == (WebGL2StateView {
                bound_uniform_buffers: slot_store(
                    old(self)@.bound_uniform_buffers,
                    binding as int,
                    Some(handle),
                    None::<u32>,
                ),
                ..old(self)@
            }),
            cmd == (if slot_differs(old(self)@.bound_uniform_buffers, binding as int, Some(handle)) {
                Some(WebGlCommand::BindBufferBase(glenum::UNIFORM_BUFFER, binding, Some(handle)))
            } else {
                None
            }),
    {
        let b = binding as usize;
        if b < self.bound_uniform_buffers.len() {
            let h = self.bound_uniform_buffers[b];
            if !same_handle(Some(handle), h) {
                self.bound_uniform_buffers.set(b, Some(handle));
                Some(WebGlCommand::BindBufferBase(glenum::UNIFORM_BUFFER, binding, Some(handle)))
            } else {
                assert(self.bound_uniform_buffers@ =~= self.bound_uniform_buffers@.update(b as int, Some(handle)));
                None
            }
        } else {
            store(&mut self.bound_uniform_buffers, b, Some(handle), None);
            Some(WebGlCommand::BindBufferBase(glenum::UNIFORM_BUFFER, binding, Some(handle)))
        }
    }

    /// Request an array buffer to be bound, through the cache or forced.
    pub fn bind_array_buffer(&mut self, buffer: Option<u32>, bind: Bind) -> (cmd: Option<WebGlCommand>)
        ensures
            final(self)@ == (WebGL2StateView { bound_array_buffer: buffer, ..old(self)@ }),
            cmd == (if bind == Bind::Forced || old(self)@.bound_array_buffer != buffer {
                Some(WebGlCommand::BindBuffer(glenum::ARRAY_BUFFER, buffer))
            } else {
                None
            }),
    {
        if bind == Bind::Forced || !same_handle(self.bound_array_buffer, buffer) {
            self.bound_array_buffer = buffer;
            Some(WebGlCommand::BindBuffer(glenum::ARRAY_BUFFER, buffer))
        } else {
            None
        }
    }

    /// Request an element array buffer to be bound, through the cache or forced.
    pub fn bind_element_array_buffer(&mut self, buffer: Option<u32>, bind: Bind) -> (cmd: Option<WebGlCommand>)
        ensures
            final(self)@ == (WebGL2StateView { bound_element_array_buffer: buffer, ..old(self)@ }),
            cmd == (if bind == Bind::Forced || old(self)@.bound_element_array_buffer != buffer {
                Some(WebGlCommand::BindBuffer(glenum::ELEMENT_ARRAY_BUFFER, buffer))
            } else {
                None
            }),
    {
        if bind == Bind::Forced || !same_handle(self.bound_element_array_buffer, buffer) {
            self.bound_element_array_buffer = buffer;
            Some(WebGlCommand::BindBuffer(glenum::ELEMENT_ARRAY_BUFFER, buffer))
        } else {
            None
        }
    }

    /// Request a vertex array to be bound, through the cache or forced.
    pub fn bind_vertex_array(&mut self, vao: Option<u32>, bind: Bind) -> (cmd: Option<WebGlCommand>)
        ensures
            final(self)@ == (WebGL2StateView { bound_vertex_array: vao, ..old(self)@ }),
            cmd == (if bind == Bind::Forced || old(self)@.bound_vertex_array != vao {
                Some(WebGlCommand::BindVertexArray(vao))
            } else {
                None
            }),
    {
        if bind == Bind::Forced || !same_handle(self.bound_vertex_array, vao) {
            self.bound_vertex_array = vao;
            Some(WebGlCommand::BindVertexArray(vao))
        } else {
            None
        }
    }

    /// Forget a buffer that is about to be deleted: unbind it if it is the array or element array
    /// buffer, otherwise clear the first uniform binding point that holds it.
    pub fn unbind_buffer(&mut self, buffer: u32) -> (cmd: Option<WebGlCommand>)
        ensures
            old(self)@.bound_array_buffer == Some(buffer) ==> {
                &&& final(self)@ == (WebGL2StateView { bound_array_buffer: None, ..old(self)@ })
                &&& cmd == Some(WebGlCommand::BindBuffer(glenum::ARRAY_BUFFER, None))
            },
            old(self)@.bound_array_buffer != Some(buffer) && old(self)@.bound_element_array_buffer == Some(buffer)
                ==> {
                &&& final(self)@ == (WebGL2StateView { bound_element_array_buffer: None, ..old(self)@ })
                &&& cmd == Some(WebGlCommand::BindBuffer(glenum::ELEMENT_ARRAY_BUFFER, None))
            },
            old(self)@.bound_array_buffer != Some(buffer) && old(self)@.bound_element_array_buffer != Some(buffer)
                ==> {
                let ubs = old(self)@.bound_uniform_buffers;
                &&& cmd is None
                &&& (forall|j: int| 0 <= j < ubs.len() ==> ubs[j] != Some(buffer)) ==> final(self)@ == old(self)@
                &&& forall|i: int|
                    0 <= i < ubs.len() && #[trigger] ubs[i] == Some(buffer) && (forall|j: int|
                        0 <= j < i ==> ubs[j] != Some(buffer)) ==> final(self)@ == (WebGL2StateView {
                        bound_uniform_buffers: ubs.update(i, None),
                        ..old(self)@
                    })
            },
    {
        if same_handle(self.bound_array_buffer, Some(buffer)) {
            self.bind_array_buffer(None, Bind::Cached)
        } else if same_handle(self.bound_element_array_buffer, Some(buffer)) {
            self.bind_element_array_buffer(None, Bind::Cached)
        } else {
            let n = self.bound_uniform_buffers.len();
            let mut i: usize = 0;
            while i < n
                invariant
                    n == self.bound_uniform_buffers.len(),
                    self@ == old(self)@,
                    old(self)@.bound_array_buffer != Some(buffer),
                    old(self)@.bound_element_array_buffer != Some(buffer),
                    i <= n,
                    forall|j: int| 0 <= j < i ==> self.bound_uniform_buffers@[j] != Some(buffer),
                decreases n - i,
            {
                if same_handle(self.bound_uniform_buffers[i], Some(buffer)) {
                    self.bound_uniform_buffers.set(i, None);
                    return None;
                }
                i = i + 1;
            }
            None
        }
    }

    /// Take a texture object from the pool of reserved ones. `None` when the pool is empty or
    /// its last entry holds no object: a new texture object must then be created.
    pub fn take_pooled_texture(&mut self) -> (t: Option<u32>)
        ensures
            old(self)@.texture_pool.len() > 0 ==> {
                &&& t == old(self)@.texture_pool.last()
                &&& final(self)@ == (WebGL2StateView { texture_pool: old(self)@.texture_pool.drop_last(), ..old(self)@ })
            },
            old(self)@.texture_pool.len() == 0 ==> t is None && final(self)@ == old(self)@,
    {
        match self.texture_swimming_pool.pop() {
            Some(t) => t,
            None => None,
        }
    }

    /// How many texture objects to create so that the pool holds at least `nb` entries.
    pub fn textures_to_reserve(&self, nb: usize) -> (needed: usize)
        ensures
            needed == (if nb > self@.texture_pool.len() { nb - self@.texture_pool.len() } else { 0 }),
    {
        let available = self.texture_swimming_pool.len();
        let m = if nb > available { nb } else { available };
        m - available
    }

    /// Record a reservation of `needed` texture objects: the pool first grows by `needed` empty
    /// entries, then receives the objects that could be created, in order.
    pub fn add_reserved_textures(&mut self, needed: usize, created: &Vec<u32>)
        requires
            old(self)@.texture_pool.len() + needed <= usize::MAX,
        ensures
            final(self)@ == (WebGL2StateView {
                texture_pool: old(self)@.texture_pool + Seq::new(needed as nat, |i: int| None::<u32>) + created@.map_values(
                    |t: u32| Some(t),
                ),
                ..old(self)@
            }),
    {
        if needed > 0 {
            let len = self.texture_swimming_pool.len() + needed;
            grow_webgl(&mut self.texture_swimming_pool, len, None);
        } else {
            assert(self@.texture_pool =~= old(self)@.texture_pool + Seq::new(needed as nat, |i: int| None::<u32>));
        }
        let ghost base = self@.texture_pool;
        let mut i: usize = 0;
        while i < created.len()
            invariant
                i <= created.len(),
                self@ == (WebGL2StateView {
                    texture_pool: base + created@.subrange(0, i as int).map_values(|t: u32| Some(t)),
                    ..old(self)@
                }),
            decreases created.len() - i,
        {
            self.texture_swimming_pool.push(Some(created[i]));
            i = i + 1;
            assert(self@.texture_pool =~= base + created@.subrange(0, i as int).map_values(|t: u32| Some(t)));
        }
        assert(created@.subrange(0, created.len() as int) =~= created@);
    }

    /// The readback framebuffer, if it was created already.
    pub fn readback_framebuffer(&self) -> (r: Option<u32>)
        ensures
            r == self@.readback_framebuffer,
    {
        self.readback_framebuffer
    }

    /// Remember the readback framebuffer once created.
    pub fn set_readback_framebuffer(&mut self, fb: Option<u32>)
        ensures
            final(self)@ == (WebGL2StateView { readback_framebuffer: fb, ..old(self)@ }),
    {
        self.readback_framebuffer = fb;
    }

    /// Hand out a uniform buffer binding point: the last one given back, or a fresh one. It
    /// differs from every binding point held so far.
    pub fn acquire_buffer_binding(&mut self) -> (b: u32)
        requires
            crate::state::can_acquire(old(self)@.buffer_bindings),
        ensures
            b == crate::state::acquired(old(self)@.buffer_bindings),
            final(self)@ == (WebGL2StateView {
                buffer_bindings: crate::state::after_acquire(old(self)@.buffer_bindings),
                ..old(self)@
            }),
            crate::state::stack_wf(final(self)@.buffer_bindings),
            crate::state::stack_holds(final(self)@.buffer_bindings, b),
            forall|h: u32| crate::state::stack_holds(old(self)@.buffer_bindings, h) ==> b != h,
    {
        self.binding_stack.acquire_buffer_binding()
    }

    /// Give a uniform buffer binding point back; it must be held.
    pub fn release_buffer_binding(&mut self, binding: u32)
        requires
            crate::state::stack_holds(old(self)@.buffer_bindings, binding),
        ensures
            crate::state::stack_wf(final(self)@.buffer_bindings),
            final(self)@ == (WebGL2StateView {
                buffer_bindings: crate::state::after_release(old(self)@.buffer_bindings, binding),
                ..old(self)@
            }),
    {
        self.binding_stack.release_buffer_binding(binding);
    }

    /// Hand out a texture unit: the last one given back, or a fresh one. It differs from every
    /// texture unit held so far.
    pub fn acquire_texture_unit(&mut self) -> (u: u32)
        requires
            crate::state::can_acquire(old(self)@.texture_units),
        ensures
            u == crate::state::acquired(old(self)@.texture_units),
            final(self)@ == (WebGL2StateView {
                texture_units: crate::state::after_acquire(old(self)@.texture_units),
                ..old(self)@
            }),
            crate::state::stack_wf(final(self)@.texture_units),
            crate::state::stack_holds(final(self)@.texture_units, u),
            forall|b: u32| crate::state::stack_holds(old(self)@.texture_units, b) ==> u != b,
    {
        self.binding_stack.acquire_texture_unit()
    }

    /// Give a texture unit back; it must be held.
    pub fn release_texture_unit(&mut self, unit: u32)
        requires
            crate::state::stack_holds(old(self)@.texture_units, unit),
        ensures
            crate::state::stack_wf(final(self)@.texture_units),
            final(self)@ == (WebGL2StateView {
                texture_units: crate::state::after_release(old(self)@.texture_units, unit),
                ..old(self)@
            }),
    {
        self.binding_stack.release_texture_unit(unit);
    }
}

fn grow_webgl<T: Copy>(v: &mut Vec<T>, len: usize, fill: T)
    requires
        old(v).len() <= len,
    ensures
        final(v)@ == old(v)@ + Seq::new((len - old(v).len()) as nat, |j: int| fill),
{
    let ghost start = v@;
    while v.len() < len
        invariant
            start.len() <= v.len() <= len,
            v@ == start + Seq::new((v.len() - start.len()) as nat, |j: int| fill),
        decreases len - v.len(),
    {
        v.push(fill);
        assert(v@ =~= start + Seq::new((v.len() - start.len()) as nat, |j: int| fill));
    }
    assert(v@ =~= start + Seq::new((len - start.len()) as nat, |j: int| fill));
}

fn store<T: Copy>(s: &mut Vec<T>, i: usize, v: T, fill: T)
    requires
        i + 1 <= usize::MAX,
        i >= old(s).len(),
    ensures
        final(s)@ == slot_store(old(s)@, i as int, v, fill),
{
    grow_webgl(s, i + 1, fill);
    s.set(i, v);
}


/// An error that might happen when the WebGL 2 context is queried.
#[derive(Clone, Debug, PartialEq, Eq)]
pub enum StateQueryError {
    /// The graphics state is unavailable.
    UnavailableWebGL2State,
    /// Unknown array buffer initial state.
    UnknownArrayBufferInitialState,
    /// Unknown viewport initial state.
    UnknownViewportInitialState,
    /// Unknown clear color initial state.
    UnknownClearColorInitialState,
    /// Unknown depth write mask initial state.
    UnknownDepthWriteMaskState,
    /// Corrupted blending equation.
    UnknownBlendingEquation(u32),
    /// The RGB blending equation could not be retrieved.
    CannotRetrieveBlendingEquationRGB,
    /// The alpha blending equation could not be retrieved.
    CannotRetrieveBlendingEquationAlpha,
    /// The RGB source factor could not be retrieved.
    CannotRetrieveBlendingSrcFactorRGB,
    /// The alpha source factor could not be retrieved.
    CannotRetrieveBlendingSrcFactorAlpha,
    /// The RGB destination factor could not be retrieved.
    CannotRetrieveBlendingDstFactorRGB,
    /// The alpha destination factor could not be retrieved.
    CannotRetrieveBlendingDstFactorAlpha,
    /// Required WebGL extensions cannot be enabled.
    CannotRetrieveRequiredWebGL2Extensions(Vec<String>),
    /// Corrupted RGB source factor.
    UnknownBlendingSrcFactorRGB(u32),
    /// Corrupted alpha source factor.
    UnknownBlendingSrcFactorAlpha(u32),
    /// Corrupted RGB destination factor.
    UnknownBlendingDstFactorRGB(u32),
    /// Corrupted alpha destination factor.
    UnknownBlendingDstFactorAlpha(u32),
    /// Corrupted face culling order.
    UnknownFaceCullingOrder,
    /// Corrupted face culling mode.
    UnknownFaceCullingMode,
    /// Unknown scissor region initial state.
    UnknownScissorRegionInitialState,
}

/// The extensions that the WebGL 2 backend requires.
pub const REQUIRED_EXTENSIONS: [&'static str; 2] = ["OES_texture_float_linear", "EXT_color_buffer_float"];

/// What the WebGL 2 context reports when a graphics state is created. A `None` is a query that
/// returned nothing; arrays are given with the length the context reported.
#[derive(Clone, Debug, PartialEq, Eq)]
pub struct WebGL2Snapshot {
    /// Whether each required extension could be enabled, in the order of `REQUIRED_EXTENSIONS`.
    pub extensions_available: [bool; 2],
    pub viewport: Option<Vec<i32>>,
    /// Whether the clear color could be read (four components).
    pub clear_color_ok: bool,
    pub blend_enabled: bool,
    pub blend_equation_rgb: Option<u32>,
    pub blend_equation_alpha: Option<u32>,
    pub blend_src_rgb: Option<u32>,
    pub blend_src_alpha: Option<u32>,
    pub blend_dst_rgb: Option<u32>,
    pub blend_dst_alpha: Option<u32>,
    pub depth_test_enabled: bool,
    pub depth_write_mask: Option<bool>,
    pub cull_face_enabled: bool,
    pub front_face: Option<u32>,
    pub cull_face_mode: Option<u32>,
    pub scissor_test_enabled: bool,
    pub scissor_box: Option<Vec<u32>>,
}

/// Whether a blending equation stands for the GL enumerant.
pub open spec fn known_equation(e: u32) -> bool {
    exists|x: Equation| render_state::equation_glenum(x) == e
}

/// Whether a blending factor stands for the GL enumerant.
pub open spec fn known_factor(e: u32) -> bool {
    exists|x: Factor| render_state::factor_glenum(x) == e
}

/// The first failing query of a snapshot once the extensions are enabled, in the order the
/// context is queried; `None` when all queries succeed.
pub open spec fn webgl2_snapshot_error(snap: WebGL2Snapshot) -> Option<StateQueryError> {
    if snap.viewport is None || snap.viewport.unwrap()@.len() != 4 {
        Some(StateQueryError::UnknownViewportInitialState)
    } else if !snap.clear_color_ok {
        Some(StateQueryError::UnknownClearColorInitialState)
    } else if snap.blend_equation_rgb is None {
        Some(StateQueryError::CannotRetrieveBlendingEquationRGB)
    } else if !known_equation(snap.blend_equation_rgb.unwrap()) {
        Some(StateQueryError::UnknownBlendingEquation(snap.blend_equation_rgb.unwrap()))
    } else if snap.blend_equation_alpha is None {
        Some(StateQueryError::CannotRetrieveBlendingEquationAlpha)
    } else if !known_equation(snap.blend_equation_alpha.unwrap()) {
        Some(StateQueryError::UnknownBlendingEquation(snap.blend_equation_alpha.unwrap()))
    } else if snap.blend_src_rgb is None {
        Some(StateQueryError::CannotRetrieveBlendingSrcFactorRGB)
    } else if !known_factor(snap.blend_src_rgb.unwrap()) {
        Some(StateQueryError::UnknownBlendingSrcFactorRGB(snap.blend_src_rgb.unwrap()))
    } else if snap.blend_src_alpha is None {
        Some(StateQueryError::CannotRetrieveBlendingSrcFactorAlpha)
    } else if !known_factor(snap.blend_src_alpha.unwrap()) {
        Some(StateQueryError::UnknownBlendingSrcFactorAlpha(snap.blend_src_alpha.unwrap()))
    } else if snap.blend_dst_rgb is None {
        Some(StateQueryError::CannotRetrieveBlendingDstFactorRGB)
    } else if !known_factor(snap.blend_dst_rgb.unwrap()) {
        Some(StateQueryError::UnknownBlendingDstFactorRGB(snap.blend_dst_rgb.unwrap()))
    } else if snap.blend_dst_alpha is None {
        Some(StateQueryError::CannotRetrieveBlendingDstFactorAlpha)
    } else if !known_factor(snap.blend_dst_alpha.unwrap()) {
        Some(StateQueryError::UnknownBlendingDstFactorAlpha(snap.blend_dst_alpha.unwrap()))
    } else if snap.depth_write_mask is None {
        Some(StateQueryError::UnknownDepthWriteMaskState)
    } else if snap.front_face is None || !(exists|o: FaceCullingOrder|
        render_state::face_culling_order_glenum(o) == snap.front_face.unwrap()) {
        Some(StateQueryError::UnknownFaceCullingOrder)
    } else if snap.cull_face_mode is None || !(exists|m: FaceCullingMode|
        render_state::face_culling_mode_glenum(m) == snap.cull_face_mode.unwrap()) {
        Some(StateQueryError::UnknownFaceCullingMode)
    } else if snap.scissor_box is None || snap.scissor_box.unwrap()@.len() != 4 {
        Some(StateQueryError::UnknownScissorRegionInitialState)
    } else {
        None
    }
}


/// The positions, in `REQUIRED_EXTENSIONS`, of the extensions that could not be enabled.
pub open spec fn missing_extensions(avail: [bool; 2]) -> Seq<int> {
    (if avail[0] { Seq::<int>::empty() } else { seq![0int] }) + (if avail[1] {
        Seq::<int>::empty()
    } else {
        seq![1int]
    })
}

/// The view of a WebGL 2 graphics state freshly built from a snapshot whose queries all succeed.
pub open spec fn webgl2_initial_view(snap: WebGL2Snapshot) -> WebGL2StateView {
    let vp = snap.viewport.unwrap()@;
    let sb = snap.scissor_box.unwrap()@;
    WebGL2StateView {
        texture_units: StackView { next: 0, free: Seq::empty() },
        buffer_bindings: StackView { next: 0, free: Seq::empty() },
        viewport: ViewportRect { x: vp[0], y: vp[1], width: vp[2], height: vp[3] },
        blending_state: if snap.blend_enabled { BlendingState::On } else { BlendingState::Off },
        blending_equations: BlendingEquations {
            rgb: choose|x: Equation| render_state::equation_glenum(x) == snap.blend_equation_rgb.unwrap(),
            alpha: choose|x: Equation| render_state::equation_glenum(x) == snap.blend_equation_alpha.unwrap(),
        },
        blending_funcs: BlendingFactors {
            src_rgb: choose|x: Factor| render_state::factor_glenum(x) == snap.blend_src_rgb.unwrap(),
            dst_rgb: choose|x: Factor| render_state::factor_glenum(x) == snap.blend_dst_rgb.unwrap(),
            src_alpha: choose|x: Factor| render_state::factor_glenum(x) == snap.blend_src_alpha.unwrap(),
            dst_alpha: choose|x: Factor| render_state::factor_glenum(x) == snap.blend_dst_alpha.unwrap(),
        },
        depth_test: if snap.depth_test_enabled { DepthTest::On } else { DepthTest::Off },
        depth_test_comparison: Comparison::Less,
        depth_write: if snap.depth_write_mask.unwrap() { DepthWrite::On } else { DepthWrite::Off },
        face_culling_state: if snap.cull_face_enabled { FaceCullingState::On } else { FaceCullingState::Off },
        face_culling_order: choose|o: FaceCullingOrder|
            render_state::face_culling_order_glenum(o) == snap.front_face.unwrap(),
        face_culling_mode: choose|m: FaceCullingMode|
            render_state::face_culling_mode_glenum(m) == snap.cull_face_mode.unwrap(),
        scissor_state: if snap.scissor_test_enabled { ScissorState::On } else { ScissorState::Off },
        scissor_region: ScissorRegion { x: sb[0], y: sb[1], width: sb[2], height: sb[3] },
        current_texture_unit: 0,
        bound_textures: Seq::new(48, |i: int| (glenum::TEXTURE0, None::<u32>)),
        texture_pool: Seq::empty(),
        bound_uniform_buffers: Seq::new(36, |i: int| None::<u32>),
        bound_array_buffer: None,
        bound_element_array_buffer: None,
        bound_draw_framebuffer: None,
        bound_read_framebuffer: None,
        readback_framebuffer: None,
        bound_vertex_array: None,
        current_program: None,
        vendor_name: None,
        renderer_name: None,
        webgl_version: None,
        glsl_version: None,
        max_texture_array_elements: None,
    }
}

fn filled_webgl<T: Copy>(n: usize, v: T) -> (r: Vec<T>)
    ensures
        r@ == Seq::new(n as nat, |i: int| v),
{
    let mut r: Vec<T> = Vec::new();
    grow_webgl(&mut r, n, v);
    assert(r@ =~= Seq::new(n as nat, |i: int| v));
    r
}

impl WebGL2State {
    /// Build the WebGL 2 graphics state from what the context reports. Missing extensions are
    /// reported first, with their names; then the first failing query, in the order the context
    /// is queried.
    pub fn from_context(snap: &WebGL2Snapshot) -> (r: Result<WebGL2State, StateQueryError>)
        ensures
            !(snap.extensions_available[0] && snap.extensions_available[1]) ==> (r matches Err(
                StateQueryError::CannotRetrieveRequiredWebGL2Extensions(v),
            ) && v@.len() == missing_extensions(snap.extensions_available).len() && forall|k: int|
                0 <= k < v@.len() ==> #[trigger] v@[k]@ == REQUIRED_EXTENSIONS[missing_extensions(
                    snap.extensions_available,
                )[k]]@),
            snap.extensions_available[0] && snap.extensions_available[1] ==> match webgl2_snapshot_error(*snap) {
                Some(e) => r == Err::<WebGL2State, StateQueryError>(e),
                None => r matches Ok(st) && st@ == webgl2_initial_view(*snap),
            },
    {
        if !(snap.extensions_available[0] && snap.extensions_available[1]) {
            let mut missing: Vec<String> = Vec::new();
            let ghost idx = missing_extensions(snap.extensions_available);
            if !snap.extensions_available[0] {
                missing.push(REQUIRED_EXTENSIONS[0].to_owned());
            }
            if !snap.extensions_available[1] {
                missing.push(REQUIRED_EXTENSIONS[1].to_owned());
            }
            return Err(StateQueryError::CannotRetrieveRequiredWebGL2Extensions(missing));
        }
        let viewport = match &snap.viewport {
            Some(v) => {
                if v.len() != 4 {
                    return Err(StateQueryError::UnknownViewportInitialState);
                }
                ViewportRect { x: v[0], y: v[1], width: v[2], height: v[3] }
            },
            None => return Err(StateQueryError::UnknownViewportInitialState),
        };
        if !snap.clear_color_ok {
            return Err(StateQueryError::UnknownClearColorInitialState);
        }
        let blending_state = if snap.blend_enabled { BlendingState::On } else { BlendingState::Off };
        let rgb = match snap.blend_equation_rgb {
            None => return Err(StateQueryError::CannotRetrieveBlendingEquationRGB),
            Some(d) => match equation_from_glenum(d) {
                Ok(e) => e,
                Err(d) => return Err(StateQueryError::UnknownBlendingEquation(d)),
            },
        };
        let alpha = match snap.blend_equation_alpha {
            None => return Err(StateQueryError::CannotRetrieveBlendingEquationAlpha),
            Some(d) => match equation_from_glenum(d) {
                Ok(e) => e,
                Err(d) => return Err(StateQueryError::UnknownBlendingEquation(d)),
            },
        };
        let src_rgb = match snap.blend_src_rgb {
            None => return Err(StateQueryError::CannotRetrieveBlendingSrcFactorRGB),
            Some(d) => match from_gl_blending_factor(d) {
                Ok(f) => f,
                Err(d) => return Err(StateQueryError::UnknownBlendingSrcFactorRGB(d)),
            },
        };
        let src_alpha = match snap.blend_src_alpha {
            None => return Err(StateQueryError::CannotRetrieveBlendingSrcFactorAlpha),
            Some(d) => match from_gl_blending_factor(d) {
                Ok(f) => f,
                Err(d) => return Err(StateQueryError::UnknownBlendingSrcFactorAlpha(d)),
            },
        };
        let dst_rgb = match snap.blend_dst_rgb {
            None => return Err(StateQueryError::CannotRetrieveBlendingDstFactorRGB),
            Some(d) => match from_gl_blending_factor(d) {
                Ok(f) => f,
                Err(d) => return Err(StateQueryError::UnknownBlendingDstFactorRGB(d)),
            },
        };
        let dst_alpha = match snap.blend_dst_alpha {
            None => return Err(StateQueryError::CannotRetrieveBlendingDstFactorAlpha),
            Some(d) => match from_gl_blending_factor(d) {
                Ok(f) => f,
                Err(d) => return Err(StateQueryError::UnknownBlendingDstFactorAlpha(d)),
            },
        };
        let depth_test = if snap.depth_test_enabled { DepthTest::On } else { DepthTest::Off };
        let depth_write = match snap.depth_write_mask {
            Some(true) => DepthWrite::On,
            Some(false) => DepthWrite::Off,
            None => return Err(StateQueryError::UnknownDepthWriteMaskState),
        };
        let face_culling_state = if snap.cull_face_enabled { FaceCullingState::On } else { FaceCullingState::Off };
        let order = match snap.front_face {
            None => return Err(StateQueryError::UnknownFaceCullingOrder),
            Some(o) => match glenum_to_face_culling_order(o) {
                Some(o) => o,
                None => return Err(StateQueryError::UnknownFaceCullingOrder),
            },
        };
        let mode = match snap.cull_face_mode {
            None => return Err(StateQueryError::UnknownFaceCullingMode),
            Some(m) => match glenum_to_face_culling_mode(m) {
                Some(m) => m,
                None => return Err(StateQueryError::UnknownFaceCullingMode),
            },
        };
        let scissor_state = if snap.scissor_test_enabled { ScissorState::On } else { ScissorState::Off };
        let scissor_region = match &snap.scissor_box {
            None => return Err(StateQueryError::UnknownScissorRegionInitialState),
            Some(b) => {
                if b.len() != 4 {
                    return Err(StateQueryError::UnknownScissorRegionInitialState);
                }
                ScissorRegion { x: b[0], y: b[1], width: b[2], height: b[3] }
            },
        };
        proof {
            render_state::law_equation_glenum_injective(rgb, choose|x: Equation| render_state::equation_glenum(x) == snap.blend_equation_rgb.unwrap());
            render_state::law_equation_glenum_injective(alpha, choose|x: Equation| render_state::equation_glenum(x) == snap.blend_equation_alpha.unwrap());
            render_state::law_factor_glenum_injective(src_rgb, choose|x: Factor| render_state::factor_glenum(x) == snap.blend_src_rgb.unwrap());
            render_state::law_factor_glenum_injective(dst_rgb, choose|x: Factor| render_state::factor_glenum(x) == snap.blend_dst_rgb.unwrap());
            render_state::law_factor_glenum_injective(src_alpha, choose|x: Factor| render_state::factor_glenum(x) == snap.blend_src_alpha.unwrap());
            render_state::law_factor_glenum_injective(dst_alpha, choose|x: Factor| render_state::factor_glenum(x) == snap.blend_dst_alpha.unwrap());
            render_state::law_face_culling_glenum_injective(
                order,
                choose|o: FaceCullingOrder| render_state::face_culling_order_glenum(o) == snap.front_face.unwrap(),
                mode,
                choose|m: FaceCullingMode| render_state::face_culling_mode_glenum(m) == snap.cull_face_mode.unwrap(),
            );
        }
        let st = WebGL2State {
            binding_stack: crate::state::BindingStack::new(),
            viewport,
            blending_state,
            blending_equations: BlendingEquations { rgb, alpha },
            blending_funcs: BlendingFactors { src_rgb, dst_rgb, src_alpha, dst_alpha },
            depth_test,
            depth_test_comparison: Comparison::Less,
            depth_write,
            face_culling_state,
            face_culling_order: order,
            face_culling_mode: mode,
            scissor_state,
            scissor_region,
            current_texture_unit: 0,
            bound_textures: filled_webgl(48, (glenum::TEXTURE0, None)),
            texture_swimming_pool: Vec::new(),
            bound_uniform_buffers: filled_webgl(36, None),
            bound_array_buffer: None,
            bound_element_array_buffer: None,
            bound_draw_framebuffer: None,
            bound_read_framebuffer: None,
            readback_framebuffer: None,
            bound_vertex_array: None,
            current_program: None,
            vendor_name: None,
            renderer_name: None,
            webgl_version: None,
            glsl_version: None,
            max_texture_array_elements: None,
        };
        Ok(st)
    }
}


/// A context parameter that the WebGL 2 state caches once queried.
#[derive(Clone, Copy, Debug, PartialEq, Eq, Structural)]
pub enum ContextParam {
    VendorName,
    RendererName,
    WebGlVersion,
    GlslVersion,
}

/// The cached value of a context parameter.
pub open spec fn param_of(v: WebGL2StateView, p: ContextParam) -> Option<Seq<char>> {
    match p {
        ContextParam::VendorName => v.vendor_name,
        ContextParam::RendererName => v.renderer_name,
        ContextParam::WebGlVersion => v.webgl_version,
        ContextParam::GlslVersion => v.glsl_version,
    }
}

/// The state with a context parameter cached.
pub open spec fn with_param(v: WebGL2StateView, p: ContextParam, s: Seq<char>) -> WebGL2StateView {
    match p {
        ContextParam::VendorName => WebGL2StateView { vendor_name: Some(s), ..v },
        ContextParam::RendererName => WebGL2StateView { renderer_name: Some(s), ..v },
        ContextParam::WebGlVersion => WebGL2StateView { webgl_version: Some(s), ..v },
        ContextParam::GlslVersion => WebGL2StateView { glsl_version: Some(s), ..v },
    }
}

fn clone_opt(s: &Option<String>) -> (r: Option<String>)
    ensures
        opt_str(r) == opt_str(*s),
{
    match s {
        Some(s) => Some(s.clone()),
        None => None,
    }
}

impl WebGL2State {
    /// The cached value of a context parameter; `None` means that the context must be queried.
    pub fn cached_param(&self, p: ContextParam) -> (r: Option<String>)
        ensures
            opt_str(r) == param_of(self@, p),
    {
        match p {
            ContextParam::VendorName => clone_opt(&self.vendor_name),
            ContextParam::RendererName => clone_opt(&self.renderer_name),
            ContextParam::WebGlVersion => clone_opt(&self.webgl_version),
            ContextParam::GlslVersion => clone_opt(&self.glsl_version),
        }
    }

    /// Remember what the context answered for a parameter that was not cached: a value is cached
    /// and handed back; no value leaves the cache as it was.
    pub fn remember_param(&mut self, p: ContextParam, queried: Option<String>) -> (r: Option<String>)
        ensures
            opt_str(r) == opt_str(queried),
            match queried {
                Some(q) => final(self)@ == with_param(old(self)@, p, q@),
                None => final(self)@ == old(self)@,
            },
    {
        match queried {
            Some(q) => {
                let r = q.clone();
                match p {
                    ContextParam::VendorName => self.vendor_name = Some(q),
                    ContextParam::RendererName => self.renderer_name = Some(q),
                    ContextParam::WebGlVersion => self.webgl_version = Some(q),
                    ContextParam::GlslVersion => self.glsl_version = Some(q),
                }
                Some(r)
            },
            None => None,
        }
    }

    /// A context parameter, cached on the first answer: once a value is cached it is given back
    /// and `answer` is ignored; otherwise `answer`, what the context replied when asked, is
    /// cached when there is one, and given back.
    pub fn get_param(&mut self, p: ContextParam, answer: Option<String>) -> (r: Option<String>)
        ensures
            match param_of(old(self)@, p) {
                Some(v) => opt_str(r) == Some(v) && final(self)@ == old(self)@,
                None => opt_str(r) == opt_str(answer) && match answer {
                    Some(q) => final(self)@ == with_param(old(self)@, p, q@),
                    None => final(self)@ == old(self)@,
                },
            },
    {
        match self.cached_param(p) {
            Some(v) => Some(v),
            None => self.remember_param(p, answer),
        }
    }

    /// Whether the context must be asked for the maximum number of elements of an array texture:
    /// only while no answer is cached.
    pub fn max_texture_array_elements_query_needed(&self) -> (r: bool)
        ensures
            r == (self@.max_texture_array_elements is None),
    {
        self.max_texture_array_elements.is_none()
    }

    /// The maximum number of elements of an array texture. The first answer is cached: once one
    /// is, it is given back and `answer` is ignored; otherwise `answer`, what the context replied
    /// when asked, is cached and given back.
    pub fn get_max_texture_array_elements(&mut self, answer: Option<usize>) -> (r: Option<usize>)
        ensures
            match old(self)@.max_texture_array_elements {
                Some(n) => r == Some(n) && final(self)@ == old(self)@,
                None => r == answer && final(self)@ == (WebGL2StateView {
                    max_texture_array_elements: answer,
                    ..old(self)@
                }),
            },
    {
        match self.max_texture_array_elements {
            Some(n) => Some(n),
            None => {
                self.max_texture_array_elements = answer;
                answer
            },
        }
    }
}

/// Why a query on the backend gave no answer.
#[derive(Clone, Copy, Debug, PartialEq, Eq, Structural)]
pub enum QueryError {
    NoBackendAuthor,
    NoBackendName,
    NoBackendVersion,
    NoBackendShadingLanguageVersion,
}

/// The error a query of a context parameter gives when the context has no answer.
pub open spec fn missing_param_error(p: ContextParam) -> QueryError {
    match p {
        ContextParam::VendorName => QueryError::NoBackendAuthor,
        ContextParam::RendererName => QueryError::NoBackendName,
        ContextParam::WebGlVersion => QueryError::NoBackendVersion,
        ContextParam::GlslVersion => QueryError::NoBackendShadingLanguageVersion,
    }
}

/// Answer a backend query from the value of a context parameter: the vendor name is the
/// backend's author, the renderer name its name, the WebGL version its version and the GLSL
/// version its shading language version.
pub fn backend_query(p: ContextParam, value: Option<String>) -> (r: Result<String, QueryError>)
    ensures
        match value {
            Some(v) => r matches Ok(s) && s@ == v@,
            None => r == Err::<String, QueryError>(missing_param_error(p)),
        },
{
    match value {
        Some(v) => Ok(v),
        None => Err(match p {
            ContextParam::VendorName => QueryError::NoBackendAuthor,
            ContextParam::RendererName => QueryError::NoBackendName,
            ContextParam::WebGlVersion => QueryError::NoBackendVersion,
            ContextParam::GlslVersion => QueryError::NoBackendShadingLanguageVersion,
        }),
    }
}

/// A remembered context parameter is what the cache answers for it afterwards, and the other
/// parameters keep their cached values.
pub proof fn law_remembered_param_is_cached(v: WebGL2StateView, p: ContextParam, q: ContextParam, s: Seq<char>)
    ensures
        param_of(with_param(v, p, s), p) == Some(s),
        q != p ==> param_of(with_param(v, p, s), q) == param_of(v, q),
{
}

} // verus!
