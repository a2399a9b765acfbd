//! The OpenGL 3.3 graphics state: a cache in front of the context that decides which GL
//! commands must actually be issued.
use vstd::prelude::*;

use crate::glenum;
use crate::render_state::{
    BlendingEquations, BlendingFactors, BlendingState, Comparison, DepthTest, FaceCullingMode,
    FaceCullingOrder, FaceCullingState, VertexRestart, Equation, Factor, from_blending_equation, from_blending_factor,
    comparison_to_glenum, face_culling_order_to_glenum, face_culling_mode_to_glenum,
    equation_from_glenum, from_gl_blending_factor, glenum_to_face_culling_order,
    glenum_to_face_culling_mode,
};
use crate::render_state;

verus! {

/// A value that the graphics state caches: it can be compared with another one of its kind.
pub trait CacheValue: Copy {
    fn same_as(&self, other: &Self) -> (r: bool)
        ensures
            r == (*self == *other),
    ;
}

impl CacheValue for u32 {
    fn same_as(&self, other: &Self) -> (r: bool) {
        *self == *other
    }
}

impl CacheValue for usize {
    fn same_as(&self, other: &Self) -> (r: bool) {
        *self == *other
    }
}

impl CacheValue for bool {
    fn same_as(&self, other: &Self) -> (r: bool) {
        *self == *other
    }
}

impl CacheValue for BlendingState {
    fn same_as(&self, other: &Self) -> (r: bool) {
        *self == *other
    }
}

impl CacheValue for BlendingEquations {
    fn same_as(&self, other: &Self) -> (r: bool) {
        *self == *other
    }
}

impl CacheValue for BlendingFactors {
    fn same_as(&self, other: &Self) -> (r: bool) {
        *self == *other
    }
}

impl CacheValue for DepthTest {
    fn same_as(&self, other: &Self) -> (r: bool) {
        *self == *other
    }
}

impl CacheValue for Comparison {
    fn same_as(&self, other: &Self) -> (r: bool) {
        *self == *other
    }
}

impl CacheValue for FaceCullingState {
    fn same_as(&self, other: &Self) -> (r: bool) {
        *self == *other
    }
}

impl CacheValue for FaceCullingOrder {
    fn same_as(&self, other: &Self) -> (r: bool) {
        *self == *other
    }
}

impl CacheValue for FaceCullingMode {
    fn same_as(&self, other: &Self) -> (r: bool) {
        *self == *other
    }
}

impl CacheValue for VertexRestart {
    fn same_as(&self, other: &Self) -> (r: bool) {
        *self == *other
    }
}

impl CacheValue for ViewportRect {
    fn same_as(&self, other: &Self) -> (r: bool) {
        *self == *other
    }
}

/// A viewport rectangle: origin and size, in pixels.
#[derive(Clone, Copy, Debug, PartialEq, Eq, Structural)]
pub struct ViewportRect {
    pub x: i32,
    pub y: i32,
    pub width: i32,
    pub height: i32,
}

/// A cached value. `None` means that nothing is known of what the context holds, so that the next
/// request to set the value must reach the context whatever it asks for.
struct Cached<T> {
    value: Option<T>,
}

impl<T: CacheValue> Cached<T> {
    fn new(initial: T) -> (c: Self)
        ensures
            c.value == Some(initial),
    {
        Cached { value: Some(initial) }
    }

    fn invalidate(&mut self)
        ensures
            final(self).value == None::<T>,
    {
        self.value = None;
    }

    fn set(&mut self, value: T)
        ensures
            final(self).value == Some(value),
    {
        self.value = Some(value);
    }

    /// A value is invalid regarding a requested one when nothing is cached or when the cached
    /// value differs from the requested one.
    fn is_invalid(&self, new_val: &T) -> (r: bool)
        ensures
            r == needs_update(self.value, *new_val),
    {
        match &self.value {
            Some(t) => !t.same_as(new_val),
            None => true,
        }
    }
}

/// Whether a request for `v` must reach the context when `cached` is what the cache holds.
pub open spec fn needs_update<T>(cached: Option<T>, v: T) -> bool {
    cached != Some(v)
}

/// Should a binding go through the cache or be forced?
#[derive(Clone, Copy, Debug, PartialEq, Eq, Structural)]
pub enum Bind {
    Forced,
    Cached,
}

/// A GL command that the graphics state decided to issue. The caller performs it on the context.
#[derive(Clone, Copy, Debug, PartialEq, Eq, Structural)]
pub enum GlCommand {
    Viewport { x: i32, y: i32, width: i32, height: i32 },
    Enable(u32),
    Disable(u32),
    BlendEquation(u32),
    BlendEquationSeparate(u32, u32),
    BlendFunc(u32, u32),
    BlendFuncSeparate(u32, u32, u32, u32),
    DepthFunc(u32),
    FrontFace(u32),
    CullFace(u32),
    PatchParameter(u32, i32),
    ActiveTexture(u32),
    BindTexture(u32, u32),
    BindBufferBase(u32, u32, u32),
    BindBuffer(u32, u32),
    BindFramebuffer(u32, u32),
    BindVertexArray(u32),
    UseProgram(u32),
    Clear(u32),
    BindRenderbuffer(u32),
    DeleteRenderbuffer(u32),
    DeleteFramebuffer(u32),
}

/// The enable / disable command for a capability.
pub open spec fn toggle_command(on: bool, cap: u32) -> GlCommand {
    if on {
        GlCommand::Enable(cap)
    } else {
        GlCommand::Disable(cap)
    }
}

/// Texture units and uniform buffer bindings handed out to pipelines, and those given back.
pub struct BindingStack {
    next_texture_unit: u32,
    free_texture_units: Vec<u32>,
    next_buffer_binding: u32,
    free_buffer_bindings: Vec<u32>,
}

/// The view of one stack of bindings: the next never-used binding and the free list.
pub struct StackView {
    pub next: u32,
    pub free: Seq<u32>,
}

/// A stack of bindings is well formed when every free binding was handed out before (it is
/// below `next`) and no binding is free twice.
pub open spec fn stack_wf(s: StackView) -> bool {
    &&& forall|i: int| 0 <= i < s.free.len() ==> #[trigger] s.free[i] < s.next
    &&& s.free.no_duplicates()
}

/// A binding is held by a pipeline: it was handed out and was not given back.
pub open spec fn stack_holds(s: StackView, b: u32) -> bool {
    b < s.next && !s.free.contains(b)
}

/// The binding that an acquisition hands out: the last freed one, or a fresh one.
pub open spec fn acquired(s: StackView) -> u32 {
    if s.free.len() > 0 {
        s.free.last()
    } else {
        s.next
    }
}

/// The stack after an acquisition.
pub open spec fn after_acquire(s: StackView) -> StackView {
    if s.free.len() > 0 {
        StackView { next: s.next, free: s.free.drop_last() }
    } else {
        StackView { next: (s.next + 1) as u32, free: s.free }
    }
}

/// The stack after giving a binding back.
pub open spec fn after_release(s: StackView, b: u32) -> StackView {
    StackView { next: s.next, free: s.free.push(b) }
}

/// An acquisition can proceed: a freed binding is available or a fresh one can be numbered.
pub open spec fn can_acquire(s: StackView) -> bool {
    s.free.len() > 0 || s.next < u32::MAX
}

impl BindingStack {
    pub closed spec fn texture_units(&self) -> StackView {
        StackView { next: self.next_texture_unit, free: self.free_texture_units@ }
    }

    pub closed spec fn buffer_bindings(&self) -> StackView {
        StackView { next: self.next_buffer_binding, free: self.free_buffer_bindings@ }
    }

    /// Both stacks are always well formed: no binding is free twice, and every free binding was
    /// handed out before.
    #[verifier::type_invariant]
    pub closed spec fn well_formed(&self) -> bool {
        stack_wf(self.texture_units()) && stack_wf(self.buffer_bindings())
    }

    /// Create a new, empty binding stack.
    pub fn new() -> (s: Self)
        ensures
            s.texture_units() == (StackView { next: 0, free: Seq::empty() }),
            s.buffer_bindings() == (StackView { next: 0, free: Seq::empty() }),
    {
        BindingStack {
            next_texture_unit: 0,
            free_texture_units: Vec::new(),
            next_buffer_binding: 0,
            free_buffer_bindings: Vec::new(),
        }
    }

    /// Hand out a texture unit: the last one given back, or a fresh one. It differs from every
    /// unit held so far, and is held afterwards.
    pub fn acquire_texture_unit(&mut self) -> (u: u32)
        requires
            can_acquire(old(self).texture_units()),
        ensures
            u == acquired(old(self).texture_units()),
            final(self).texture_units() == after_acquire(old(self).texture_units()),
            final(self).buffer_bindings() == old(self).buffer_bindings(),
            stack_wf(old(self).texture_units()),
            stack_wf(final(self).texture_units()),
            stack_holds(final(self).texture_units(), u),
            forall|b: u32| stack_holds(old(self).texture_units(), b) ==> u != b,
    {
        proof {
            use_type_invariant(&*self);
            law_acquired_binding_is_held(self.texture_units());
            assert forall|b: u32| stack_holds(self.texture_units(), b) implies acquired(self.texture_units()) != b by {
                law_acquired_binding_is_not_held(self.texture_units(), b);
            }
        }
        let mut free: Vec<u32> = Vec::new();
        std::mem::swap(&mut free, &mut self.free_texture_units);
        let (u, next, free) = acquire_owned(self.next_texture_unit, free);
        self.next_texture_unit = next;
        self.free_texture_units = free;
        u
    }

    /// Give a texture unit back; it must be held.
    pub fn release_texture_unit(&mut self, unit: u32)
        requires
            stack_holds(old(self).texture_units(), unit),
        ensures
            final(self).texture_units() == after_release(old(self).texture_units(), unit),
            final(self).buffer_bindings() == old(self).buffer_bindings(),
            stack_wf(final(self).texture_units()),
    {
        proof {
            use_type_invariant(&*self);
            law_release_keeps_stack_wf(self.texture_units(), unit);
        }
        let mut free: Vec<u32> = Vec::new();
        std::mem::swap(&mut free, &mut self.free_texture_units);
        free.push(unit);
        self.free_texture_units = free;
    }

    /// Hand out a uniform buffer binding point: the last one given back, or a fresh one. It
    /// differs from every binding held so far, and is held afterwards.
    pub fn acquire_buffer_binding(&mut self) -> (b: u32)
        requires
            can_acquire(old(self).buffer_bindings()),
        ensures
            b == acquired(old(self).buffer_bindings()),
            final(self).buffer_bindings() == after_acquire(old(self).buffer_bindings()),
            final(self).texture_units() == old(self).texture_units(),
            stack_wf(old(self).buffer_bindings()),
            stack_wf(final(self).buffer_bindings()),
            stack_holds(final(self).buffer_bindings(), b),
            forall|h: u32| stack_holds(old(self).buffer_bindings(), h) ==> b != h,
    {
        proof {
            use_type_invariant(&*self);
            law_acquired_binding_is_held(self.buffer_bindings());
            assert forall|h: u32| stack_holds(self.buffer_bindings(), h) implies acquired(self.buffer_bindings()) != h by {
                law_acquired_binding_is_not_held(self.buffer_bindings(), h);
            }
        }
        let mut free: Vec<u32> = Vec::new();
        std::mem::swap(&mut free, &mut self.free_buffer_bindings);
        let (b, next, free) = acquire_owned(self.next_buffer_binding, free);
        self.next_buffer_binding = next;
        self.free_buffer_bindings = free;
        b
    }

    /// Give a uniform buffer binding point back; it must be held.
    pub fn release_buffer_binding(&mut self, binding: u32)
        requires
            stack_holds(old(self).buffer_bindings(), binding),
        ensures
            final(self).buffer_bindings() == after_release(old(self).buffer_bindings(), binding),
            final(self).texture_units() == old(self).texture_units(),
            stack_wf(final(self).buffer_bindings()),
    {
        proof {
            use_type_invariant(&*self);
            law_release_keeps_stack_wf(self.buffer_bindings(), binding);
        }
        let mut free: Vec<u32> = Vec::new();
        std::mem::swap(&mut free, &mut self.free_buffer_bindings);
        free.push(binding);
        self.free_buffer_bindings = free;
    }
}

fn acquire_owned(next: u32, free: Vec<u32>) -> (r: (u32, u32, Vec<u32>))
    requires
        can_acquire(StackView { next, free: free@ }),
    ensures
        r.0 == acquired(StackView { next, free: free@ }),
        (StackView { next: r.1, free: r.2@ }) == after_acquire(StackView { next, free: free@ }),
{
    let mut free = free;
    match free.pop() {
        Some(b) => (b, next, free),
        None => (next, next + 1, free),
    }
}

/// The view of a graphics state.
pub struct GLStateView {
    pub texture_units: StackView,
    pub buffer_bindings: StackView,
    pub viewport: Option<ViewportRect>,
    pub blending_state: Option<BlendingState>,
    pub blending_equations: Option<BlendingEquations>,
    pub blending_funcs: Option<BlendingFactors>,
    pub depth_test: Option<DepthTest>,
    pub depth_test_comparison: Option<Comparison>,
    pub face_culling_state: Option<FaceCullingState>,
    pub face_culling_order: Option<FaceCullingOrder>,
    pub face_culling_mode: Option<FaceCullingMode>,
    pub vertex_restart: Option<VertexRestart>,
    pub patch_vertex_nb: Option<usize>,
    pub current_texture_unit: Option<u32>,
    pub bound_textures: Seq<(u32, u32)>,
    pub texture_pool: Seq<u32>,
    pub bound_uniform_buffers: Seq<u32>,
    pub bound_array_buffer: u32,
    pub bound_element_array_buffer: u32,
    pub bound_draw_framebuffer: Option<u32>,
    pub bound_vertex_array: u32,
    pub current_program: u32,
    pub srgb_framebuffer_enabled: Option<bool>,
}

/// The graphics state.
///
/// It mirrors what the context currently holds and sits in front of the context so that the same
/// GL call with the same parameters is not issued twice. Each setter answers with the command to
/// issue, if any; the caller performs it.
pub struct GLState {
    binding_stack: BindingStack,
    viewport: Cached<ViewportRect>,
    blending_state: Cached<BlendingState>,
    blending_equations: Cached<BlendingEquations>,
    blending_funcs: Cached<BlendingFactors>,
    depth_test: Cached<DepthTest>,
    depth_test_comparison: Cached<Comparison>,
    face_culling_state: Cached<FaceCullingState>,
    face_culling_order: Cached<FaceCullingOrder>,
    face_culling_mode: Cached<FaceCullingMode>,
    vertex_restart: Cached<VertexRestart>,
    patch_vertex_nb: Cached<usize>,
    current_texture_unit: Cached<u32>,
    bound_textures: Vec<(u32, u32)>,
    texture_swimming_pool: Vec<u32>,
    bound_uniform_buffers: Vec<u32>,
    bound_array_buffer: u32,
    bound_element_array_buffer: u32,
    bound_draw_framebuffer: Cached<u32>,
    bound_vertex_array: u32,
    current_program: u32,
    srgb_framebuffer_enabled: Cached<bool>,
}

impl View for GLState {
    type V = GLStateView;

    closed spec fn view(&self) -> GLStateView {
        GLStateView {
            texture_units: self.binding_stack.texture_units(),
            buffer_bindings: self.binding_stack.buffer_bindings(),
            viewport: self.viewport.value,
            blending_state: self.blending_state.value,
            blending_equations: self.blending_equations.value,
            blending_funcs: self.blending_funcs.value,
            depth_test: self.depth_test.value,
            depth_test_comparison: self.depth_test_comparison.value,
            face_culling_state: self.face_culling_state.value,
            face_culling_order: self.face_culling_order.value,
            face_culling_mode: self.face_culling_mode.value,
            vertex_restart: self.vertex_restart.value,
            patch_vertex_nb: self.patch_vertex_nb.value,
            current_texture_unit: self.current_texture_unit.value,
            bound_textures: self.bound_textures@,
            texture_pool: self.texture_swimming_pool@,
            bound_uniform_buffers: self.bound_uniform_buffers@,
            bound_array_buffer: self.bound_array_buffer,
            bound_element_array_buffer: self.bound_element_array_buffer,
            bound_draw_framebuffer: self.bound_draw_framebuffer.value,
            bound_vertex_array: self.bound_vertex_array,
            current_program: self.current_program,
            srgb_framebuffer_enabled: self.srgb_framebuffer_enabled.value,
        }
    }
}


impl GLState {
    /// Invalidate the currently in-use framebuffer.
    pub fn invalidate_framebuffer(&mut self)
        ensures
            final(self)@ == (GLStateView { bound_draw_framebuffer: None, ..old(self)@ }),
    {
        self.bound_draw_framebuffer.invalidate();
    }

    /// Invalidate the currently in-use texture unit.
    pub fn invalidate_texture_unit(&mut self)
        ensures
            final(self)@ == (GLStateView { current_texture_unit: None, ..old(self)@ }),
    {
        self.current_texture_unit.invalidate();
    }

    /// Invalidate the currently in-use viewport.
    pub fn invalidate_viewport(&mut self)
        ensures
            final(self)@ == (GLStateView { viewport: None, ..old(self)@ }),
    {
        self.viewport.invalidate();
    }

    /// Invalidate the currently in-use blending state.
    pub fn invalidate_blending_state(&mut self)
        ensures
            final(self)@ == (GLStateView { blending_state: None, ..old(self)@ }),
    {
        self.blending_state.invalidate();
    }

    /// Invalidate the currently in-use blending equation.
    pub fn invalidate_blending_equation(&mut self)
        ensures
            final(self)@ == (GLStateView { blending_equations: None, ..old(self)@ }),
    {
        self.blending_equations.invalidate();
    }

    /// Invalidate the currently in-use blending function.
    pub fn invalidate_blending_func(&mut self)
        ensures
            final(self)@ == (GLStateView { blending_funcs: None, ..old(self)@ }),
    {
        self.blending_funcs.invalidate();
    }

    /// Invalidate the currently in-use depth test.
    pub fn invalidate_depth_test(&mut self)
        ensures
            final(self)@ == (GLStateView { depth_test: None, ..old(self)@ }),
    {
        self.depth_test.invalidate();
    }

    /// Invalidate the currently in-use depth test comparison.
    pub fn invalidate_depth_test_comparison(&mut self)
        ensures
            final(self)@ == (GLStateView { depth_test_comparison: None, ..old(self)@ }),
    {
        self.depth_test_comparison.invalidate();
    }

    /// Invalidate the currently in-use face culling state.
    pub fn invalidate_face_culling_state(&mut self)
        ensures
            final(self)@ == (GLStateView { face_culling_state: None, ..old(self)@ }),
    {
        self.face_culling_state.invalidate();
    }

    /// Invalidate the currently in-use face culling order.
    pub fn invalidate_face_culling_order(&mut self)
        ensures
            final(self)@ == (GLStateView { face_culling_order: None, ..old(self)@ }),
    {
        self.face_culling_order.invalidate();
    }

    /// Invalidate the currently in-use face culling mode.
    pub fn invalidate_face_culling_mode(&mut self)
        ensures
            final(self)@ == (GLStateView { face_culling_mode: None, ..old(self)@ }),
    {
        self.face_culling_mode.invalidate();
    }

    /// Invalidate the currently in-use vertex restart state.
    pub fn invalidate_vertex_restart(&mut self)
        ensures
            final(self)@ == (GLStateView { vertex_restart: None, ..old(self)@ }),
    {
        self.vertex_restart.invalidate();
    }

    /// Invalidate the currently in-use patch vertex number.
    pub fn invalidate_patch_vertex_nb(&mut self)
        ensures
            final(self)@ == (GLStateView { patch_vertex_nb: None, ..old(self)@ }),
    {
        self.patch_vertex_nb.invalidate();
    }

    /// Invalidate the currently in-use sRGB framebuffer state.
    pub fn reset_srgb_framebuffer_enabled(&mut self)
        ensures
            final(self)@ == (GLStateView { srgb_framebuffer_enabled: None, ..old(self)@ }),
    {
        self.srgb_framebuffer_enabled.invalidate();
    }

    /// Invalidate the currently in-use vertex array.
    pub fn invalidate_vertex_array(&mut self)
        ensures
            final(self)@ == (GLStateView { bound_vertex_array: 0, ..old(self)@ }),
    {
        self.bound_vertex_array = 0;
    }

    /// Invalidate the currently in-use array buffer.
    pub fn invalidate_array_buffer(&mut self)
        ensures
            final(self)@ == (GLStateView { bound_array_buffer: 0, ..old(self)@ }),
    {
        self.bound_array_buffer = 0;
    }

    /// Invalidate the currently in-use shader program.
    pub fn invalidate_shader_program(&mut self)
        ensures
            final(self)@ == (GLStateView { current_program: 0, ..old(self)@ }),
    {
        self.current_program = 0;
    }

    /// Invalidate the currently in-use element array buffer.
    pub fn invalidate_element_array_buffer(&mut self)
        ensures
            final(self)@ == (GLStateView { bound_element_array_buffer: 0, ..old(self)@ }),
    {
        self.bound_element_array_buffer = 0;
    }

}


impl GLState {
    /// Invalidate the texture bindings: every unit is reset to no 2D texture.
    pub fn invalidate_bound_textures(&mut self)
        ensures
            final(self)@ == (GLStateView {
                bound_textures: Seq::new(
                    old(self)@.bound_textures.len(),
                    |i: int| (glenum::TEXTURE_2D, 0u32),
                ),
                ..old(self)@
            }),
    {
        let n = self.bound_textures.len();
        let mut i: usize = 0;
        while i < n
            invariant
                n == self.bound_textures.len(),
                n == old(self)@.bound_textures.len(),
                i <= n,
                forall|j: int| 0 <= j < i ==> self.bound_textures@[j] == (glenum::TEXTURE_2D, 0u32),
                self@ == (GLStateView { bound_textures: self@.bound_textures, ..old(self)@ }),
            decreases n - i,
        {
            self.bound_textures.set(i, (glenum::TEXTURE_2D, 0));
            i = i + 1;
        }
        assert(self@.bound_textures =~= Seq::new(n as nat, |i: int| (glenum::TEXTURE_2D, 0u32)));
    }

    /// Invalidate the uniform buffer bindings: every binding point is reset to no buffer.
    pub fn invalidate_bound_uniform_buffers(&mut self)
        ensures
            final(self)@ == (GLStateView {
                bound_uniform_buffers: Seq::new(
                    old(self)@.bound_uniform_buffers.len(),
                    |i: int| 0u32,
                ),
                ..old(self)@
            }),
    {
        let n = self.bound_uniform_buffers.len();
        let mut i: usize = 0;
        while i < n
            invariant
                n == self.bound_uniform_buffers.len(),
                n == old(self)@.bound_uniform_buffers.len(),
                i <= n,
                forall|j: int| 0 <= j < i ==> self.bound_uniform_buffers@[j] == 0u32,
                self@ == (GLStateView { bound_uniform_buffers: self@.bound_uniform_buffers, ..old(self)@ }),
            decreases n - i,
        {
            self.bound_uniform_buffers.set(i, 0);
            i = i + 1;
        }
        assert(self@.bound_uniform_buffers =~= Seq::new(n as nat, |i: int| 0u32));
    }
}


impl GLState {
    /// Request a viewport.
    pub fn set_viewport(&mut self, viewport: ViewportRect) -> (cmd: Option<GlCommand>)
        ensures
            final(self)@ == (GLStateView { viewport: Some(viewport), ..old(self)@ }),
            cmd == (if needs_update(old(self)@.viewport, viewport) {
                Some(GlCommand::Viewport { x: viewport.x, y: viewport.y, width: viewport.width, height: viewport.height })
            } else {
                None
            }),
    {
        let value = viewport;
        if self.viewport.is_invalid(&value) {
            self.viewport.set(value);
            Some(GlCommand::Viewport { x: viewport.x, y: viewport.y, width: viewport.width, height: viewport.height })
        } else {
            None
        }
    }

    /// Request blending on or off.
    pub fn set_blending_state(&mut self, state: BlendingState) -> (cmd: Option<GlCommand>)
        ensures
            final(self)@ == (GLStateView { blending_state: Some(state), ..old(self)@ }),
            cmd == (if needs_update(old(self)@.blending_state, state) {
                Some(toggle_command(state == BlendingState::On, glenum::BLEND))
            } else {
                None
            }),
    {
        let value = state;
        if self.blending_state.is_invalid(&value) {
            self.blending_state.set(value);
            Some(match state {
                BlendingState::On => GlCommand::Enable(glenum::BLEND),
                BlendingState::Off => GlCommand::Disable(glenum::BLEND),
            })
        } else {
            None
        }
    }

    /// Request one blending equation for both RGB and alpha.
    pub fn set_blending_equation(&mut self, equation: Equation) -> (cmd: Option<GlCommand>)
        ensures
            final(self)@ == (GLStateView { blending_equations: Some(BlendingEquations { rgb: equation, alpha: equation }), ..old(self)@ }),
            cmd == (if needs_update(old(self)@.blending_equations, BlendingEquations { rgb: equation, alpha: equation }) {
                Some(GlCommand::BlendEquation(render_state::equation_glenum(equation)))
            } else {
                None
            }),
    {
        let value = BlendingEquations { rgb: equation, alpha: equation };
        if self.blending_equations.is_invalid(&value) {
            self.blending_equations.set(value);
            Some(GlCommand::BlendEquation(from_blending_equation(equation)))
        } else {
            None
        }
    }

    /// Request the depth test on or off.
    pub fn set_depth_test(&mut self, depth_test: DepthTest) -> (cmd: Option<GlCommand>)
        ensures
            final(self)@ == (GLStateView { depth_test: Some(depth_test), ..old(self)@ }),
            cmd == (if needs_update(old(self)@.depth_test, depth_test) {
                Some(toggle_command(depth_test == DepthTest::On, glenum::DEPTH_TEST))
            } else {
                None
            }),
    {
        let value = depth_test;
        if self.depth_test.is_invalid(&value) {
            self.depth_test.set(value);
            Some(match depth_test {
                DepthTest::On => GlCommand::Enable(glenum::DEPTH_TEST),
                DepthTest::Off => GlCommand::Disable(glenum::DEPTH_TEST),
            })
        } else {
            None
        }
    }

    /// Request a depth test comparison.
    pub fn set_depth_test_comparison(&mut self, depth_test_comparison: Comparison) -> (cmd: Option<GlCommand>)
        ensures
            final(self)@ == (GLStateView { depth_test_comparison: Some(depth_test_comparison), ..old(self)@ }),
            cmd == (if needs_update(old(self)@.depth_test_comparison, depth_test_comparison) {
                Some(GlCommand::DepthFunc(render_state::comparison_glenum(depth_test_comparison)))
            } else {
                None
            }),
    {
        let value = depth_test_comparison;
        if self.depth_test_comparison.is_invalid(&value) {
            self.depth_test_comparison.set(value);
            Some(GlCommand::DepthFunc(comparison_to_glenum(depth_test_comparison)))
        } else {
            None
        }
    }

    /// Request face culling on or off.
    pub fn set_face_culling_state(&mut self, state: FaceCullingState) -> (cmd: Option<GlCommand>)
        ensures
            final(self)@ == (GLStateView { face_culling_state: Some(state), ..old(self)@ }),
            cmd == (if needs_update(old(self)@.face_culling_state, state) {
                Some(toggle_command(state == FaceCullingState::On, glenum::CULL_FACE))
            } else {
                None
            }),
    {
        let value = state;
        if self.face_culling_state.is_invalid(&value) {
            self.face_culling_state.set(value);
            Some(match state {
                FaceCullingState::On => GlCommand::Enable(glenum::CULL_FACE),
                FaceCullingState::Off => GlCommand::Disable(glenum::CULL_FACE),
            })
        } else {
            None
        }
    }

    /// Request a face culling order.
    pub fn set_face_culling_order(&mut self, order: FaceCullingOrder) -> (cmd: Option<GlCommand>)
        ensures
            final(self)@ == (GLStateView { face_culling_order: Some(order), ..old(self)@ }),
            cmd == (if needs_update(old(self)@.face_culling_order, order) {
                Some(GlCommand::FrontFace(render_state::face_culling_order_glenum(order)))
            } else {
                None
            }),
    {
        let value = order;
        if self.face_culling_order.is_invalid(&value) {
            self.face_culling_order.set(value);
            Some(GlCommand::FrontFace(face_culling_order_to_glenum(order)))
        } else {
            None
        }
    }

    /// Request a face culling mode.
    pub fn set_face_culling_mode(&mut self, mode: FaceCullingMode) -> (cmd: Option<GlCommand>)
        ensures
            final(self)@ == (GLStateView { face_culling_mode: Some(mode), ..old(self)@ }),
            cmd == (if needs_update(old(self)@.face_culling_mode, mode) {
                Some(GlCommand::CullFace(render_state::face_culling_mode_glenum(mode)))
            } else {
                None
            }),
    {
        let value = mode;
        if self.face_culling_mode.is_invalid(&value) {
            self.face_culling_mode.set(value);
            Some(GlCommand::CullFace(face_culling_mode_to_glenum(mode)))
        } else {
            None
        }
    }

    /// Request primitive restart on or off.
    pub fn set_vertex_restart(&mut self, state: VertexRestart) -> (cmd: Option<GlCommand>)
        ensures
            final(self)@ == (GLStateView { vertex_restart: Some(state), ..old(self)@ }),
            cmd == (if needs_update(old(self)@.vertex_restart, state) {
                Some(toggle_command(state == VertexRestart::On, glenum::PRIMITIVE_RESTART))
            } else {
                None
            }),
    {
        let value = state;
        if self.vertex_restart.is_invalid(&value) {
            self.vertex_restart.set(value);
            Some(match state {
                VertexRestart::On => GlCommand::Enable(glenum::PRIMITIVE_RESTART),
                VertexRestart::Off => GlCommand::Disable(glenum::PRIMITIVE_RESTART),
            })
        } else {
            None
        }
    }

    /// Request the number of vertices per patch primitive.
    pub fn set_patch_vertex_nb(&mut self, nb: usize) -> (cmd: Option<GlCommand>)
        ensures
            final(self)@ == (GLStateView { patch_vertex_nb: Some(nb), ..old(self)@ }),
            cmd == (if needs_update(old(self)@.patch_vertex_nb, nb) {
                Some(GlCommand::PatchParameter(glenum::PATCH_VERTICES, nb as i32))
            } else {
                None
            }),
    {
        let value = nb;
        if self.patch_vertex_nb.is_invalid(&value) {
            self.patch_vertex_nb.set(value);
            Some(GlCommand::PatchParameter(glenum::PATCH_VERTICES, nb as i32))
        } else {
            None
        }
    }

    /// Request a texture unit to be the active one.
    pub fn set_texture_unit(&mut self, unit: u32) -> (cmd: Option<GlCommand>)
        requires
            unit <= u32::MAX - glenum::TEXTURE0,
        ensures
            final(self)@ == (GLStateView { current_texture_unit: Some(unit), ..old(self)@ }),
            cmd == (if needs_update(old(self)@.current_texture_unit, unit) {
                Some(GlCommand::ActiveTexture((glenum::TEXTURE0 + unit) as u32))
            } else {
                None
            }),
    {
        let value = unit;
        if self.current_texture_unit.is_invalid(&value) {
            self.current_texture_unit.set(value);
            Some(GlCommand::ActiveTexture(glenum::TEXTURE0 + unit))
        } else {
            None
        }
    }

    /// Request a framebuffer to be bound for drawing.
    pub fn bind_draw_framebuffer(&mut self, handle: u32) -> (cmd: Option<GlCommand>)
        ensures
            final(self)@ == (GLStateView { bound_draw_framebuffer: Some(handle), ..old(self)@ }),
            cmd == (if needs_update(old(self)@.bound_draw_framebuffer, handle) {
                Some(GlCommand::BindFramebuffer(glenum::DRAW_FRAMEBUFFER, handle))
            } else {
                None
            }),
    {
        let value = handle;
        if self.bound_draw_framebuffer.is_invalid(&value) {
            self.bound_draw_framebuffer.set(value);
            Some(GlCommand::BindFramebuffer(glenum::DRAW_FRAMEBUFFER, handle))
        } else {
            None
        }
    }

    /// Request sRGB framebuffer conversion on or off.
    pub fn enable_srgb_framebuffer(&mut self, srgb_framebuffer_enabled: bool) -> (cmd: Option<GlCommand>)
        ensures
            final(self)@ == (GLStateView { srgb_framebuffer_enabled: Some(srgb_framebuffer_enabled), ..old(self)@ }),
            cmd == (if needs_update(old(self)@.srgb_framebuffer_enabled, srgb_framebuffer_enabled) {
                Some(toggle_command(srgb_framebuffer_enabled, glenum::FRAMEBUFFER_SRGB))
            } else {
                None
            }),
    {
        let value = srgb_framebuffer_enabled;
        if self.srgb_framebuffer_enabled.is_invalid(&value) {
            self.srgb_framebuffer_enabled.set(value);
            Some(if srgb_framebuffer_enabled {
                GlCommand::Enable(glenum::FRAMEBUFFER_SRGB)
            } else {
                GlCommand::Disable(glenum::FRAMEBUFFER_SRGB)
            })
        } else {
            None
        }
    }

}


impl GLState {
    /// Request separate blending equations for RGB and alpha.
    pub fn set_blending_equation_separate(&mut self, equation_rgb: Equation, equation_alpha: Equation) -> (cmd: Option<GlCommand>)
        ensures
            final(self)@ == (GLStateView {
                blending_equations: Some(BlendingEquations { rgb: equation_rgb, alpha: equation_alpha }),
                ..old(self)@
            }),
            cmd == (if needs_update(
                old(self)@.blending_equations,
                BlendingEquations { rgb: equation_rgb, alpha: equation_alpha },
            ) {
                Some(GlCommand::BlendEquationSeparate(
                    render_state::equation_glenum(equation_rgb),
                    render_state::equation_glenum(equation_alpha),
                ))
            } else {
                None
            }),
    {
        let value = BlendingEquations { rgb: equation_rgb, alpha: equation_alpha };
        if self.blending_equations.is_invalid(&value) {
            self.blending_equations.set(value);
            Some(GlCommand::BlendEquationSeparate(
                from_blending_equation(equation_rgb),
                from_blending_equation(equation_alpha),
            ))
        } else {
            None
        }
    }

    /// Request one pair of blending factors for both RGB and alpha.
    pub fn set_blending_func(&mut self, src: Factor, dst: Factor) -> (cmd: Option<GlCommand>)
        ensures
            final(self)@ == (GLStateView {
                blending_funcs: Some(BlendingFactors { src_rgb: src, dst_rgb: dst, src_alpha: src, dst_alpha: dst }),
                ..old(self)@
            }),
            cmd == (if needs_update(
                old(self)@.blending_funcs,
                BlendingFactors { src_rgb: src, dst_rgb: dst, src_alpha: src, dst_alpha: dst },
            ) {
                Some(GlCommand::BlendFunc(render_state::factor_glenum(src), render_state::factor_glenum(dst)))
            } else {
                None
            }),
    {
        let value = BlendingFactors { src_rgb: src, dst_rgb: dst, src_alpha: src, dst_alpha: dst };
        if self.blending_funcs.is_invalid(&value) {
            self.blending_funcs.set(value);
            Some(GlCommand::BlendFunc(from_blending_factor(src), from_blending_factor(dst)))
        } else {
            None
        }
    }

    /// Request separate blending factors for RGB and alpha.
    pub fn set_blending_func_separate(
        &mut self,
        src_rgb: Factor,
        dst_rgb: Factor,
        src_alpha: Factor,
        dst_alpha: Factor,
    ) -> (cmd: Option<GlCommand>)
        ensures
            final(self)@ == (GLStateView {
                blending_funcs: Some(BlendingFactors { src_rgb, dst_rgb, src_alpha, dst_alpha }),
                ..old(self)@
            }),
            cmd == (if needs_update(
                old(self)@.blending_funcs,
                BlendingFactors { src_rgb, dst_rgb, src_alpha, dst_alpha },
            ) {
                Some(GlCommand::BlendFuncSeparate(
                    render_state::factor_glenum(src_rgb),
                    render_state::factor_glenum(dst_rgb),
                    render_state::factor_glenum(src_alpha),
                    render_state::factor_glenum(dst_alpha),
                ))
            } else {
                None
            }),
    {
        let value = BlendingFactors { src_rgb, dst_rgb, src_alpha, dst_alpha };
        if self.blending_funcs.is_invalid(&value) {
            self.blending_funcs.set(value);
            Some(GlCommand::BlendFuncSeparate(
                from_blending_factor(src_rgb),
                from_blending_factor(dst_rgb),
                from_blending_factor(src_alpha),
                from_blending_factor(dst_alpha),
            ))
        } else {
            None
        }
    }

    /// Request an array buffer to be bound, through the cache or forced.
    pub fn bind_array_buffer(&mut self, handle: u32, bind: Bind) -> (cmd: Option<GlCommand>)
        ensures
            final(self)@ == (GLStateView { bound_array_buffer: handle, ..old(self)@ }),
            cmd == (if bind == Bind::Forced || old(self)@.bound_array_buffer != handle {
                Some(GlCommand::BindBuffer(glenum::ARRAY_BUFFER, handle))
            } else {
                None
            }),
    {
        if bind == Bind::Forced || self.bound_array_buffer != handle {
            self.bound_array_buffer = handle;
            Some(GlCommand::BindBuffer(glenum::ARRAY_BUFFER, handle))
        } else {
            None
        }
    }

    /// Request an element array buffer to be bound, through the cache or forced.
    pub fn bind_element_array_buffer(&mut self, handle: u32, bind: Bind) -> (cmd: Option<GlCommand>)
        ensures
            final(self)@ == (GLStateView { bound_element_array_buffer: handle, ..old(self)@ }),
            cmd == (if bind == Bind::Forced || old(self)@.bound_element_array_buffer != handle {
                Some(GlCommand::BindBuffer(glenum::ELEMENT_ARRAY_BUFFER, handle))
            } else {
                None
            }),
    {
        if bind == Bind::Forced || self.bound_element_array_buffer != handle {
            self.bound_element_array_buffer = handle;
            Some(GlCommand::BindBuffer(glenum::ELEMENT_ARRAY_BUFFER, handle))
        } else {
            None
        }
    }

    /// Request a vertex array to be bound, through the cache or forced.
    pub fn bind_vertex_array(&mut self, handle: u32, bind: Bind) -> (cmd: Option<GlCommand>)
        ensures
            final(self)@ == (GLStateView { bound_vertex_array: handle, ..old(self)@ }),
            cmd == (if bind == Bind::Forced || old(self)@.bound_vertex_array != handle {
                Some(GlCommand::BindVertexArray(handle))
            } else {
                None
            }),
    {
        if bind == Bind::Forced || self.bound_vertex_array != handle {
            self.bound_vertex_array = handle;
            Some(GlCommand::BindVertexArray(handle))
        } else {
            None
        }
    }

    /// Unbind the current vertex array, through the cache.
    pub fn unbind_vertex_array(&mut self) -> (cmd: Option<GlCommand>)
        ensures
            final(self)@ == (GLStateView { bound_vertex_array: 0, ..old(self)@ }),
            cmd == (if old(self)@.bound_vertex_array != 0 {
                Some(GlCommand::BindVertexArray(0))
            } else {
                None
            }),
    {
        self.bind_vertex_array(0, Bind::Cached)
    }

    /// Request a shader program to be in use.
    pub fn use_program(&mut self, handle: u32) -> (cmd: Option<GlCommand>)
        ensures
            final(self)@ == (GLStateView { current_program: handle, ..old(self)@ }),
            cmd == (if old(self)@.current_program != handle {
                Some(GlCommand::UseProgram(handle))
            } else {
                None
            }),
    {
        if self.current_program != handle {
            self.current_program = handle;
            Some(GlCommand::UseProgram(handle))
        } else {
            None
        }
    }
}


/// The sequence `s` where slot `i` holds `v`; when `s` is too short it first grows with `fill`.
pub open spec fn slot_store<T>(s: Seq<T>, i: int, v: T, fill: T) -> Seq<T> {
    if i < s.len() {
        s.update(i, v)
    } else {
        (s + Seq::new((i + 1 - s.len()) as nat, |j: int| fill)).update(i, v)
    }
}

/// Slot `i` of `s` does not hold `v` yet (it may not exist).
pub open spec fn slot_differs<T>(s: Seq<T>, i: int, v: T) -> bool {
    i >= s.len() || s[i] != v
}

/// Grow `v` up to `len` items with copies of `fill`.
fn grow<T: Copy>(v: &mut Vec<T>, len: usize, fill: T)
    requires
        old(v).len() < len,
    ensures
        final(v)@ == old(v)@ + Seq::new((len - old(v).len()) as nat, |j: int| fill),
{
    let ghost start = v@;
    while v.len() < len
        invariant
            start.len() <= v.len() <= len,
            v@ == start + Seq::new((v.len() - start.len()) as nat, |j: int| fill),
        decreases len - v.len(),
    {
        v.push(fill);
        assert(v@ =~= start + Seq::new((v.len() - start.len()) as nat, |j: int| fill));
    }
}

/// Store `v` in slot `i` of `s`, growing `s` with `fill` first when needed.
fn store_slot<T: Copy>(s: &mut Vec<T>, i: usize, v: T, fill: T)
    requires
        i + 1 <= usize::MAX,
    ensures
        final(s)@ == slot_store(old(s)@, i as int, v, fill),
{
    if i >= s.len() {
        grow(s, i + 1, fill);
    }
    s.set(i, v);
}

impl GLState {
    /// Request a texture to be bound on the active texture unit.
    pub fn bind_texture(&mut self, target: u32, handle: u32) -> (cmd: Option<GlCommand>)
        requires
            old(self)@.current_texture_unit is Some,
            old(self)@.current_texture_unit.unwrap() + 1 <= usize::MAX,
        ensures
            ({
                let unit = old(self)@.current_texture_unit.unwrap() as int;
                &&& final(self)@ == (GLStateView {
                    bound_textures: slot_store(
                        old(self)@.bound_textures,
                        unit,
                        (target, handle),
                        (glenum::TEXTURE_2D, 0u32),
                    ),
                    ..old(self)@
                })
                &&& cmd == (if slot_differs(old(self)@.bound_textures, unit, (target, handle)) {
                    Some(GlCommand::BindTexture(target, handle))
                } else {
                    None
                })
            }),
    {
        let unit = match self.current_texture_unit.value {
            Some(u) => u as usize,
            None => 0,
        };
        if unit < self.bound_textures.len() {
            let (target_, handle_) = self.bound_textures[unit];
            if target != target_ || handle != handle_ {
                self.bound_textures.set(unit, (target, handle));
                Some(GlCommand::BindTexture(target, handle))
            } else {
                assert(self.bound_textures@ =~= self.bound_textures@.update(unit as int, (target, handle)));
                None
            }
        } else {
            // not enough registered texture units; grow a bit more
            store_slot(&mut self.bound_textures, unit, (target, handle), (glenum::TEXTURE_2D, 0));
            Some(GlCommand::BindTexture(target, handle))
        }
    }

    /// Request a uniform buffer to be bound at a binding point.
    pub fn bind_buffer_base(&mut self, handle: u32, binding: u32) -> (cmd: Option<GlCommand>)
        requires
            binding + 1 <= usize::MAX,
        ensures
            final(self)@ == (GLStateView {
                bound_uniform_buffers: slot_store(old(self)@.bound_uniform_buffers, binding as int, handle, 0u32),
                ..old(self)@
            }),
            cmd == (if slot_differs(old(self)@.bound_uniform_buffers, binding as int, handle) {
                Some(GlCommand::BindBufferBase(glenum::UNIFORM_BUFFER, binding, handle))
            } else {
                None
            }),
    {
        let binding_ = binding as usize;
        if binding_ < self.bound_uniform_buffers.len() {
            let handle_ = self.bound_uniform_buffers[binding_];
            if handle != handle_ {
                self.bound_uniform_buffers.set(binding_, handle);
                Some(GlCommand::BindBufferBase(glenum::UNIFORM_BUFFER, binding, handle))
            } else {
                assert(self.bound_uniform_buffers@ =~= self.bound_uniform_buffers@.update(binding as int, handle));
                None
            }
        } else {
            // not enough registered buffer bindings; grow a bit more
            store_slot(&mut self.bound_uniform_buffers, binding_, handle, 0);
            Some(GlCommand::BindBufferBase(glenum::UNIFORM_BUFFER, binding, handle))
        }
    }

    /// Forget a buffer that is about to be deleted: if it is bound as the array buffer or the
    /// element array buffer, unbind it; otherwise clear the first uniform binding point that
    /// holds it.
    pub fn unbind_buffer(&mut self, handle: u32) -> (cmd: Option<GlCommand>)
        ensures
            old(self)@.bound_array_buffer == handle ==> {
                &&& final(self)@ == (GLStateView { bound_array_buffer: 0, ..old(self)@ })
                &&& cmd == (if handle != 0 {
                    Some(GlCommand::BindBuffer(glenum::ARRAY_BUFFER, 0))
                } else {
                    None
                })
            },
            old(self)@.bound_array_buffer != handle && old(self)@.bound_element_array_buffer == handle ==> {
                &&& final(self)@ == (GLStateView { bound_element_array_buffer: 0, ..old(self)@ })
                &&& cmd == (if handle != 0 {
                    Some(GlCommand::BindBuffer(glenum::ELEMENT_ARRAY_BUFFER, 0))
                } else {
                    None
                })
            },
            old(self)@.bound_array_buffer != handle && old(self)@.bound_element_array_buffer != handle ==> {
                let ubs = old(self)@.bound_uniform_buffers;
                &&& cmd is None
                &&& (forall|j: int| 0 <= j < ubs.len() ==> ubs[j] != handle) ==> final(self)@ == old(self)@
                &&& forall|i: int|
                    0 <= i < ubs.len() && #[trigger] ubs[i] == handle && (forall|j: int| 0 <= j < i ==> ubs[j] != handle)
                        ==> final(self)@ == (GLStateView { bound_uniform_buffers: ubs.update(i, 0u32), ..old(self)@ })
            },
    {
        if self.bound_array_buffer == handle {
            self.bind_array_buffer(0, Bind::Cached)
        } else if self.bound_element_array_buffer == handle {
            self.bind_element_array_buffer(0, Bind::Cached)
        } else {
            let n = self.bound_uniform_buffers.len();
            let mut i: usize = 0;
            while i < n
                invariant
                    n == self.bound_uniform_buffers.len(),
                    self@ == old(self)@,
                    old(self)@.bound_array_buffer != handle,
                    old(self)@.bound_element_array_buffer != handle,
                    i <= n,
                    forall|j: int| 0 <= j < i ==> self.bound_uniform_buffers@[j] != handle,
                decreases n - i,
            {
                if self.bound_uniform_buffers[i] == handle {
                    self.bound_uniform_buffers.set(i, 0);
                    return None;
                }
                i = i + 1;
            }
            None
        }
    }

    /// Take a texture object from the pool of reserved ones, if any is left.
    pub fn take_pooled_texture(&mut self) -> (t: Option<u32>)
        ensures
            old(self)@.texture_pool.len() > 0 ==> {
                &&& t == Some(old(self)@.texture_pool.last())
                &&& final(self)@ == (GLStateView { texture_pool: old(self)@.texture_pool.drop_last(), ..old(self)@ })
            },
            old(self)@.texture_pool.len() == 0 ==> t is None && final(self)@ == old(self)@,
    {
        self.texture_swimming_pool.pop()
    }

    /// How many texture objects must be generated so that the pool holds at least `nb`.
    pub fn textures_to_reserve(&self, nb: usize) -> (needed: usize)
        ensures
            needed == (if nb > self@.texture_pool.len() { nb - self@.texture_pool.len() } else { 0 }),
    {
        let available = self.texture_swimming_pool.len();
        let m = if nb > available { nb } else { available };
        m - available
    }

    /// Add freshly generated texture objects to the pool.
    pub fn add_pooled_textures(&mut self, textures: &Vec<u32>)
        ensures
            final(self)@ == (GLStateView { texture_pool: old(self)@.texture_pool + textures@, ..old(self)@ }),
    {
        let mut i: usize = 0;
        while i < textures.len()
            invariant
                i <= textures.len(),
                self@ == (GLStateView {
                    texture_pool: old(self)@.texture_pool + textures@.subrange(0, i as int),
                    ..old(self)@
                }),
            decreases textures.len() - i,
        {
            self.texture_swimming_pool.push(textures[i]);
            i = i + 1;
            assert(self@.texture_pool =~= old(self)@.texture_pool + textures@.subrange(0, i as int));
        }
        assert(textures@.subrange(0, textures.len() as int) =~= textures@);
    }

    /// Hand out a uniform buffer binding point: the last one given back, or a fresh one. It
    /// differs from every binding point held so far.
    pub fn acquire_buffer_binding(&mut self) -> (b: u32)
        requires
            can_acquire(old(self)@.buffer_bindings),
        ensures
            b == acquired(old(self)@.buffer_bindings),
            final(self)@ == (GLStateView { buffer_bindings: after_acquire(old(self)@.buffer_bindings), ..old(self)@ }),
            stack_wf(final(self)@.buffer_bindings),
            stack_holds(final(self)@.buffer_bindings, b),
            forall|h: u32| stack_holds(old(self)@.buffer_bindings, h) ==> b != h,
    {
        self.binding_stack.acquire_buffer_binding()
    }

    /// Give a uniform buffer binding point back; it must be held.
    pub fn release_buffer_binding(&mut self, binding: u32)
        requires
            stack_holds(old(self)@.buffer_bindings, binding),
        ensures
            stack_wf(final(self)@.buffer_bindings),
            final(self)@ == (GLStateView { buffer_bindings: after_release(old(self)@.buffer_bindings, binding), ..old(self)@ }),
    {
        self.binding_stack.release_buffer_binding(binding);
    }

    /// Hand out a texture unit: the last one given back, or a fresh one. It differs from every
    /// texture unit held so far.
    pub fn acquire_texture_unit(&mut self) -> (u: u32)
        requires
            can_acquire(old(self)@.texture_units),
        ensures
            u == acquired(old(self)@.texture_units),
            final(self)@ == (GLStateView { texture_units: after_acquire(old(self)@.texture_units), ..old(self)@ }),
            stack_wf(final(self)@.texture_units),
            stack_holds(final(self)@.texture_units, u),
            forall|b: u32| stack_holds(old(self)@.texture_units, b) ==> u != b,
    {
        self.binding_stack.acquire_texture_unit()
    }

    /// Give a texture unit back; it must be held.
    pub fn release_texture_unit(&mut self, unit: u32)
        requires
            stack_holds(old(self)@.texture_units, unit),
        ensures
            stack_wf(final(self)@.texture_units),
            final(self)@ == (GLStateView { texture_units: after_release(old(self)@.texture_units, unit), ..old(self)@ }),
    {
        self.binding_stack.release_texture_unit(unit);
    }
}


/// Once a value is cached, requesting the same value again issues no GL command.
pub proof fn law_repeated_request_is_cached<T>(v: T)
    ensures
        !needs_update(Some(v), v),
{
}

/// After an invalidation, whatever value is requested next reaches the context.
pub proof fn law_invalidated_request_reaches_context<T>(v: T)
    ensures
        needs_update(None::<T>, v),
{
}

/// With a value cached, a request reaches the context exactly when it asks for another value.
pub proof fn law_request_reaches_context_iff_different<T>(cached: T, v: T)
    ensures
        needs_update(Some(cached), v) <==> cached != v,
{
}

/// Binding a slot and then binding it again with the same value issues nothing the second time,
/// and leaves every other existing slot as it was.
pub proof fn law_slot_store_then_same_is_cached<T>(s: Seq<T>, i: int, v: T, fill: T)
    requires
        0 <= i,
    ensures
        !slot_differs(slot_store(s, i, v, fill), i, v),
        slot_store(s, i, v, fill).len() == (if i < s.len() { s.len() as int } else { i + 1 }),
        forall|j: int| 0 <= j < s.len() && j != i ==> #[trigger] slot_store(s, i, v, fill)[j] == s[j],
{
}

/// An acquired binding is held by its pipeline and the stack stays well formed: no other
/// pipeline can be handed the same binding until it is given back.
pub proof fn law_acquired_binding_is_held(s: StackView)
    requires
        stack_wf(s),
        can_acquire(s),
    ensures
        stack_wf(after_acquire(s)),
        stack_holds(after_acquire(s), acquired(s)),
{
    if s.free.len() > 0 {
        let t = s.free.drop_last();
        assert forall|i: int| 0 <= i < t.len() implies #[trigger] t[i] != s.free.last() by {
            assert(s.free[i] != s.free[s.free.len() - 1]);
        }
    }
}

/// The binding an acquisition hands out is held by no pipeline yet: it differs from every
/// binding that is held. A fresh stack (as a graphics state starts with) is well formed, and the
/// acquisitions and releases keep it so, so that no binding is ever handed to two pipelines at
/// once.
pub proof fn law_acquired_binding_is_not_held(s: StackView, b: u32)
    requires
        stack_wf(s),
        can_acquire(s),
        stack_holds(s, b),
    ensures
        acquired(s) != b,
        stack_wf(StackView { next: 0, free: Seq::empty() }),
{
    if s.free.len() > 0 {
        assert(s.free.contains(s.free.last()));
    }
}

/// Two acquisitions in a row hand out two different bindings.
pub proof fn law_consecutive_acquisitions_differ(s: StackView)
    requires
        stack_wf(s),
        can_acquire(s),
        can_acquire(after_acquire(s)),
    ensures
        acquired(s) != acquired(after_acquire(s)),
{
    law_acquired_binding_is_held(s);
    let s1 = after_acquire(s);
    if s1.free.len() > 0 {
        assert(s1.free.contains(s1.free.last()));
    }
}

/// Giving a held binding back keeps the stack well formed, and the binding is no longer held.
pub proof fn law_release_keeps_stack_wf(s: StackView, b: u32)
    requires
        stack_wf(s),
        stack_holds(s, b),
    ensures
        stack_wf(after_release(s, b)),
        !stack_holds(after_release(s, b), b),
{
    let t = after_release(s, b).free;
    assert(t[t.len() - 1] == b);
    assert forall|i: int, j: int| 0 <= i < t.len() && 0 <= j < t.len() && i != j implies t[i] != t[j] by {
        if i < s.free.len() && j < s.free.len() {
        } else if i < s.free.len() {
            assert(s.free.contains(s.free[i]));
        } else {
            assert(s.free.contains(s.free[j]));
        }
    }
}

/// The binding given back last is the one handed out next, and the stack is then as before.
pub proof fn law_release_then_acquire(s: StackView, b: u32)
    ensures
        acquired(after_release(s, b)) == b,
        after_acquire(after_release(s, b)) == s,
{
    assert(s.free.push(b).drop_last() =~= s.free);
}


/// An error that might happen when the context is queried.
#[derive(Clone, Copy, Debug, PartialEq, Eq, Structural)]
pub enum StateQueryError {
    /// The graphics state is unavailable (one state per thread at most).
    UnavailableGLState,
    /// Corrupted blending state.
    UnknownBlendingState(u8),
    /// Corrupted blending equation.
    UnknownBlendingEquation(u32),
    /// Corrupted blending source factor.
    UnknownBlendingSrcFactor(u32),
    /// Corrupted blending destination factor.
    UnknownBlendingDstFactor(u32),
    /// Corrupted depth test state.
    UnknownDepthTestState(u8),
    /// Corrupted face culling state.
    UnknownFaceCullingState(u8),
    /// Corrupted face culling order.
    UnknownFaceCullingOrder(u32),
    /// Corrupted face culling mode.
    UnknownFaceCullingMode(u32),
    /// Corrupted vertex restart state.
    UnknownVertexRestartState(u8),
    /// Corrupted sRGB framebuffer state.
    UnknownSRGBFramebufferState(u8),
}

/// What the context reports when a graphics state is created: the raw values of the queries.
#[derive(Clone, Copy, Debug, PartialEq, Eq, Structural)]
pub struct ContextSnapshot {
    pub viewport: ViewportRect,
    pub blend_enabled: u8,
    pub blend_equation_rgb: u32,
    pub blend_equation_alpha: u32,
    pub blend_src_rgb: u32,
    pub blend_dst_rgb: u32,
    pub blend_src_alpha: u32,
    pub blend_dst_alpha: u32,
    pub depth_test_enabled: u8,
    pub cull_face_enabled: u8,
    pub front_face: u32,
    pub cull_face_mode: u32,
    pub primitive_restart_enabled: u8,
    pub active_texture: u32,
    pub draw_framebuffer_binding: u32,
    pub vertex_array_binding: u32,
    pub current_program: u32,
    pub framebuffer_srgb_enabled: u8,
}

/// A GL boolean: `Some` of its meaning, `None` when it is neither `TRUE` nor `FALSE`.
pub open spec fn gl_boolean(b: u8) -> Option<bool> {
    if b == glenum::TRUE {
        Some(true)
    } else if b == glenum::FALSE {
        Some(false)
    } else {
        None
    }
}

/// Decode a GL boolean.
pub fn decode_gl_boolean(b: u8) -> (r: Option<bool>)
    ensures
        r == gl_boolean(b),
{
    if b == glenum::TRUE {
        Some(true)
    } else if b == glenum::FALSE {
        Some(false)
    } else {
        None
    }
}

/// The texture unit that an `ACTIVE_TEXTURE` value (`TEXTURE0 + unit`) designates; `None` for a
/// value below `TEXTURE0`, which designates no unit.
pub open spec fn active_unit(active_texture: u32) -> Option<u32> {
    if active_texture >= glenum::TEXTURE0 {
        Some((active_texture - glenum::TEXTURE0) as u32)
    } else {
        None
    }
}

/// Decode an `ACTIVE_TEXTURE` value into the texture unit it designates.
pub fn decode_active_texture(active_texture: u32) -> (r: Option<u32>)
    ensures
        r == active_unit(active_texture),
{
    if active_texture >= glenum::TEXTURE0 {
        Some(active_texture - glenum::TEXTURE0)
    } else {
        None
    }
}

/// Some value stands for the given GL enumerant.
pub open spec fn is_equation(e: u32) -> bool {
    exists|x: Equation| render_state::equation_glenum(x) == e
}

/// Some blending factor stands for the given GL enumerant.
pub open spec fn is_factor(e: u32) -> bool {
    exists|x: Factor| render_state::factor_glenum(x) == e
}

/// Some face culling order stands for the given GL enumerant.
pub open spec fn is_face_culling_order(e: u32) -> bool {
    exists|x: FaceCullingOrder| render_state::face_culling_order_glenum(x) == e
}

/// Some face culling mode stands for the given GL enumerant.
pub open spec fn is_face_culling_mode(e: u32) -> bool {
    exists|x: FaceCullingMode| render_state::face_culling_mode_glenum(x) == e
}

/// The first value of the snapshot that does not decode, in the order in which the context is
/// queried; `None` when every value decodes.
pub open spec fn snapshot_error(snap: ContextSnapshot) -> Option<StateQueryError> {
    if gl_boolean(snap.blend_enabled) is None {
        Some(StateQueryError::UnknownBlendingState(snap.blend_enabled))
    } else if !is_equation(snap.blend_equation_rgb) {
        Some(StateQueryError::UnknownBlendingEquation(snap.blend_equation_rgb))
    } else if !is_equation(snap.blend_equation_alpha) {
        Some(StateQueryError::UnknownBlendingEquation(snap.blend_equation_alpha))
    } else if !is_factor(snap.blend_src_rgb) {
        Some(StateQueryError::UnknownBlendingSrcFactor(snap.blend_src_rgb))
    } else if !is_factor(snap.blend_dst_rgb) {
        Some(StateQueryError::UnknownBlendingDstFactor(snap.blend_dst_rgb))
    } else if !is_factor(snap.blend_src_alpha) {
        Some(StateQueryError::UnknownBlendingSrcFactor(snap.blend_src_alpha))
    } else if !is_factor(snap.blend_dst_alpha) {
        Some(StateQueryError::UnknownBlendingDstFactor(snap.blend_dst_alpha))
    } else if gl_boolean(snap.depth_test_enabled) is None {
        Some(StateQueryError::UnknownDepthTestState(snap.depth_test_enabled))
    } else if gl_boolean(snap.cull_face_enabled) is None {
        Some(StateQueryError::UnknownFaceCullingState(snap.cull_face_enabled))
    } else if !is_face_culling_order(snap.front_face) {
        Some(StateQueryError::UnknownFaceCullingOrder(snap.front_face))
    } else if !is_face_culling_mode(snap.cull_face_mode) {
        Some(StateQueryError::UnknownFaceCullingMode(snap.cull_face_mode))
    } else if gl_boolean(snap.primitive_restart_enabled) is None {
        Some(StateQueryError::UnknownVertexRestartState(snap.primitive_restart_enabled))
    } else if gl_boolean(snap.framebuffer_srgb_enabled) is None {
        Some(StateQueryError::UnknownSRGBFramebufferState(snap.framebuffer_srgb_enabled))
    } else {
        None
    }
}

/// Taking the right to create the graphics state of a thread, which may create one at most:
/// the right is spent either way, and only when it was still there may the state be read from
/// the context.
pub open spec fn state_token_spec(available: bool) -> (bool, Result<(), StateQueryError>) {
    if available {
        (false, Ok(()))
    } else {
        (false, Err(StateQueryError::UnavailableGLState))
    }
}

/// Take the right to create the graphics state of this thread; `available` says whether the
/// thread still has it. Returns whether it still has it afterwards, and whether the state may be
/// created.
pub fn take_state_token(available: bool) -> (r: (bool, Result<(), StateQueryError>))
    ensures
        r == state_token_spec(available),
{
    if available {
        (false, Ok(()))
    } else {
        (false, Err(StateQueryError::UnavailableGLState))
    }
}

/// Only one graphics state per thread: once the right was taken, every later attempt on the same
/// thread is refused as unavailable, whatever came before.
pub proof fn law_one_state_per_thread(available: bool)
    ensures
        state_token_spec(state_token_spec(available).0).1 == Err::<(), StateQueryError>(
            StateQueryError::UnavailableGLState,
        ),
        state_token_spec(true).1 == Ok::<(), StateQueryError>(()),
{
}

/// The view of a graphics state freshly built from a snapshot whose values all decode.
pub open spec fn initial_view(snap: ContextSnapshot) -> GLStateView {
    GLStateView {
        texture_units: StackView { next: 0, free: Seq::empty() },
        buffer_bindings: StackView { next: 0, free: Seq::empty() },
        viewport: Some(snap.viewport),
        blending_state: Some(
            if gl_boolean(snap.blend_enabled) == Some(true) { BlendingState::On } else { BlendingState::Off },
        ),
        blending_equations: Some(BlendingEquations {
            rgb: choose|x: Equation| render_state::equation_glenum(x) == snap.blend_equation_rgb,
            alpha: choose|x: Equation| render_state::equation_glenum(x) == snap.blend_equation_alpha,
        }),
        blending_funcs: Some(BlendingFactors {
            src_rgb: choose|x: Factor| render_state::factor_glenum(x) == snap.blend_src_rgb,
            dst_rgb: choose|x: Factor| render_state::factor_glenum(x) == snap.blend_dst_rgb,
            src_alpha: choose|x: Factor| render_state::factor_glenum(x) == snap.blend_src_alpha,
            dst_alpha: choose|x: Factor| render_state::factor_glenum(x) == snap.blend_dst_alpha,
        }),
        depth_test: Some(
            if gl_boolean(snap.depth_test_enabled) == Some(true) { DepthTest::On } else { DepthTest::Off },
        ),
        depth_test_comparison: Some(Comparison::Less),
        face_culling_state: Some(
            if gl_boolean(snap.cull_face_enabled) == Some(true) {
                FaceCullingState::On
            } else {
                FaceCullingState::Off
            },
        ),
        face_culling_order: Some(
            choose|x: FaceCullingOrder| render_state::face_culling_order_glenum(x) == snap.front_face,
        ),
        face_culling_mode: Some(
            choose|x: FaceCullingMode| render_state::face_culling_mode_glenum(x) == snap.cull_face_mode,
        ),
        vertex_restart: Some(
            if gl_boolean(snap.primitive_restart_enabled) == Some(true) {
                VertexRestart::On
            } else {
                VertexRestart::Off
            },
        ),
        patch_vertex_nb: Some(0usize),
        current_texture_unit: active_unit(snap.active_texture),
        bound_textures: Seq::new(48, |i: int| (glenum::TEXTURE_2D, 0u32)),
        texture_pool: Seq::empty(),
        bound_uniform_buffers: Seq::new(36, |i: int| 0u32),
        bound_array_buffer: 0,
        bound_element_array_buffer: 0,
        bound_draw_framebuffer: Some(snap.draw_framebuffer_binding),
        bound_vertex_array: snap.vertex_array_binding,
        current_program: snap.current_program,
        srgb_framebuffer_enabled: gl_boolean(snap.framebuffer_srgb_enabled),
    }
}

fn filled<T: Copy>(n: usize, v: T) -> (r: Vec<T>)
    ensures
        r@ == Seq::new(n as nat, |i: int| v),
{
    let mut r: Vec<T> = Vec::new();
    grow_from_empty(&mut r, n, v);
    r
}

fn grow_from_empty<T: Copy>(r: &mut Vec<T>, n: usize, v: T)
    requires
        old(r).len() == 0,
    ensures
        final(r)@ == Seq::new(n as nat, |i: int| v),
{
    if n > 0 {
        grow(r, n, v);
        assert(r@ =~= Seq::new(n as nat, |i: int| v));
    } else {
        assert(r@ =~= Seq::new(n as nat, |i: int| v));
    }
}

impl GLState {
    /// Build the graphics state from what the current context reports. The first value that
    /// does not decode, in the order the context is queried, is reported as the error.
    pub fn from_context(snap: ContextSnapshot) -> (r: Result<GLState, StateQueryError>)
        ensures
            match r {
                Ok(st) => snapshot_error(snap) is None && st@ == initial_view(snap),
                Err(e) => snapshot_error(snap) == Some(e),
            },
    {
        let blending_state = match decode_gl_boolean(snap.blend_enabled) {
            Some(true) => BlendingState::On,
            Some(false) => BlendingState::Off,
            None => return Err(StateQueryError::UnknownBlendingState(snap.blend_enabled)),
        };
        let rgb = match equation_from_glenum(snap.blend_equation_rgb) {
            Ok(e) => e,
            Err(d) => return Err(StateQueryError::UnknownBlendingEquation(d)),
        };
        let alpha = match equation_from_glenum(snap.blend_equation_alpha) {
            Ok(e) => e,
            Err(d) => return Err(StateQueryError::UnknownBlendingEquation(d)),
        };
        let src_rgb = match from_gl_blending_factor(snap.blend_src_rgb) {
            Ok(f) => f,
            Err(d) => return Err(StateQueryError::UnknownBlendingSrcFactor(d)),
        };
        let dst_rgb = match from_gl_blending_factor(snap.blend_dst_rgb) {
            Ok(f) => f,
            Err(d) => return Err(StateQueryError::UnknownBlendingDstFactor(d)),
        };
        let src_alpha = match from_gl_blending_factor(snap.blend_src_alpha) {
            Ok(f) => f,
            Err(d) => return Err(StateQueryError::UnknownBlendingSrcFactor(d)),
        };
        let dst_alpha = match from_gl_blending_factor(snap.blend_dst_alpha) {
            Ok(f) => f,
            Err(d) => return Err(StateQueryError::UnknownBlendingDstFactor(d)),
        };
        let depth_test = match decode_gl_boolean(snap.depth_test_enabled) {
            Some(true) => DepthTest::On,
            Some(false) => DepthTest::Off,
            None => return Err(StateQueryError::UnknownDepthTestState(snap.depth_test_enabled)),
        };
        let face_culling_state = match decode_gl_boolean(snap.cull_face_enabled) {
            Some(true) => FaceCullingState::On,
            Some(false) => FaceCullingState::Off,
            None => return Err(StateQueryError::UnknownFaceCullingState(snap.cull_face_enabled)),
        };
        let order = match glenum_to_face_culling_order(snap.front_face) {
            Some(o) => o,
            None => return Err(StateQueryError::UnknownFaceCullingOrder(snap.front_face)),
        };
        let mode = match glenum_to_face_culling_mode(snap.cull_face_mode) {
            Some(m) => m,
            None => return Err(StateQueryError::UnknownFaceCullingMode(snap.cull_face_mode)),
        };
        let vertex_restart = match decode_gl_boolean(snap.primitive_restart_enabled) {
            Some(true) => VertexRestart::On,
            Some(false) => VertexRestart::Off,
            None => return Err(StateQueryError::UnknownVertexRestartState(snap.primitive_restart_enabled)),
        };
        let srgb = match decode_gl_boolean(snap.framebuffer_srgb_enabled) {
            Some(b) => b,
            None => return Err(StateQueryError::UnknownSRGBFramebufferState(snap.framebuffer_srgb_enabled)),
        };
        proof {
            render_state::law_equation_glenum_injective(rgb, choose|x: Equation| render_state::equation_glenum(x) == snap.blend_equation_rgb);
            render_state::law_equation_glenum_injective(alpha, choose|x: Equation| render_state::equation_glenum(x) == snap.blend_equation_alpha);
            render_state::law_factor_glenum_injective(src_rgb, choose|x: Factor| render_state::factor_glenum(x) == snap.blend_src_rgb);
            render_state::law_factor_glenum_injective(dst_rgb, choose|x: Factor| render_state::factor_glenum(x) == snap.blend_dst_rgb);
            render_state::law_factor_glenum_injective(src_alpha, choose|x: Factor| render_state::factor_glenum(x) == snap.blend_src_alpha);
            render_state::law_factor_glenum_injective(dst_alpha, choose|x: Factor| render_state::factor_glenum(x) == snap.blend_dst_alpha);
            render_state::law_face_culling_glenum_injective(
                order,
                choose|x: FaceCullingOrder| render_state::face_culling_order_glenum(x) == snap.front_face,
                mode,
                choose|x: FaceCullingMode| render_state::face_culling_mode_glenum(x) == snap.cull_face_mode,
            );
        }
        let st = GLState {
            binding_stack: BindingStack::new(),
            viewport: Cached::new(snap.viewport),
            blending_state: Cached::new(blending_state),
            blending_equations: Cached::new(BlendingEquations { rgb, alpha }),
            blending_funcs: Cached::new(BlendingFactors { src_rgb, dst_rgb, src_alpha, dst_alpha }),
            depth_test: Cached::new(depth_test),
            depth_test_comparison: Cached::new(Comparison::Less),
            face_culling_state: Cached::new(face_culling_state),
            face_culling_order: Cached::new(order),
            face_culling_mode: Cached::new(mode),
            vertex_restart: Cached::new(vertex_restart),
            patch_vertex_nb: Cached::new(0),
            current_texture_unit: Cached { value: decode_active_texture(snap.active_texture) },
            bound_textures: filled(48, (glenum::TEXTURE_2D, 0)),
            texture_swimming_pool: Vec::new(),
            bound_uniform_buffers: filled(36, 0),
            bound_array_buffer: 0,
            bound_element_array_buffer: 0,
            bound_draw_framebuffer: Cached::new(snap.draw_framebuffer_binding),
            bound_vertex_array: snap.vertex_array_binding,
            current_program: snap.current_program,
            srgb_framebuffer_enabled: Cached::new(srgb),
        };
        Ok(st)
    }
}


/// `ACTIVE_TEXTURE` reports unit `u` as `TEXTURE0` (0x84C0) plus `u`: every such value designates
/// unit `u`, and a value below `TEXTURE0` designates none.
pub proof fn law_active_unit(u: u32, v: u32)
    ensures
        u <= u32::MAX - 0x84C0 ==> active_unit((0x84C0 + u) as u32) == Some(u),
        v < 0x84C0 ==> active_unit(v) is None,
{
}

} // verus!
