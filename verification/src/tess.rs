//! Tessellation support: vertex layout (offsets, strides, attribute pointers) and draw calls.
use vstd::prelude::*;

use crate::errors::SliceBufferError;
use crate::glenum;
use crate::pipeline::{cached_cmd, opt_seq};
use crate::render_state::VertexRestart;
use crate::state::{toggle_command, GLState, GLStateView, GlCommand};

verus! {

/// Whether integral vertex attributes are normalized when fetched in shaders.
#[derive(Clone, Copy, Debug, PartialEq, Eq, Structural)]
pub enum Normalized {
    Yes,
    No,
}

/// Type of a vertex attribute's components.
#[derive(Clone, Copy, Debug, PartialEq, Eq, Structural)]
pub enum VertexAttribType {
    Floating,
    Integral(Normalized),
    Unsigned(Normalized),
    Boolean,
}

/// Number of components of a vertex attribute.
#[derive(Clone, Copy, Debug, PartialEq, Eq, Structural)]
pub enum VertexAttribDim {
    Dim1,
    Dim2,
    Dim3,
    Dim4,
}

/// Description of a vertex attribute: component type and count, component size and alignment.
#[derive(Clone, Copy, Debug, PartialEq, Eq, Structural)]
pub struct VertexAttribDesc {
    pub ty: VertexAttribType,
    pub dim: VertexAttribDim,
    pub unit_size: usize,
    pub align: usize,
}

/// Whether a vertex attribute advances per instance rather than per vertex.
#[derive(Clone, Copy, Debug, PartialEq, Eq, Structural)]
pub enum VertexInstancing {
    On,
    Off,
}

/// Description of a vertex attribute in a vertex buffer: its index, instancing and layout.
#[derive(Clone, Copy, Debug, PartialEq, Eq, Structural)]
pub struct VertexBufferDesc {
    pub index: usize,
    pub instancing: VertexInstancing,
    pub attrib_desc: VertexAttribDesc,
}

/// The value of the alignment formula `(off + align - 1) & !(align - 1)`, the way the machine
/// computes it.
pub open spec fn off_align_spec(off: usize, align: usize) -> usize {
    ((off + (align - 1)) as usize) & !((align - 1) as usize)
}

/// `a` is a power of two.
pub open spec fn is_power_of_two(a: usize) -> bool {
    a != 0 && a & ((a - 1) as usize) == 0
}

/// Align an offset up to the next multiple of `align`.
pub fn off_align(off: usize, align: usize) -> (r: usize)
    requires
        align >= 1,
        off + (align - 1) <= usize::MAX,
    ensures
        r == off_align_spec(off, align),
        r <= off + (align - 1),
{
    let a = align - 1;
    let r = (off + a) & !a;
    proof {
        let s = (off + a) as usize;
        assert(s & !a <= s) by (bit_vector);
    }
    r
}

/// For a power-of-two alignment, the alignment formula rounds up to the smallest multiple of
/// `align` that is at least `off`.
pub proof fn law_off_align_rounds_up(off: usize, align: usize)
    requires
        is_power_of_two(align),
        off + (align - 1) <= usize::MAX,
    ensures
        off_align_spec(off, align) % align == 0,
        off <= off_align_spec(off, align),
        off_align_spec(off, align) < off + align,
{
    let m = (align - 1) as usize;
    let s = (off + m) as usize;
    let r = s & !m;
    assert(align == m + 1);
    assert((r & m) == 0usize) by (bit_vector)
        requires
            r == s & !m,
    ;
    assert(r <= s && s - r <= m) by (bit_vector)
        requires
            r == s & !m,
    ;
    lemma_mask_zero_is_multiple(r, align);
}

proof fn lemma_mask_zero_is_multiple(x: usize, a: usize)
    requires
        is_power_of_two(a),
        x & ((a - 1) as usize) == 0,
    ensures
        x % a == 0,
    decreases a,
{
    if a != 1 {
        let m = (a - 1) as usize;
        assert(a % 2 == 0 && (a / 2) != 0 && (a / 2) & (((a / 2) - 1) as usize) == 0) by (bit_vector)
            requires
                a != 0usize,
                a != 1usize,
                a & m == 0usize,
                m == a - 1,
        ;
        assert(x % 2 == 0 && (x / 2) & (((a / 2) - 1) as usize) == 0) by (bit_vector)
            requires
                a % 2 == 0usize,
                a != 0usize,
                x & m == 0usize,
                m == a - 1,
        ;
        let q = x / 2;
        let b = a / 2;
        lemma_mask_zero_is_multiple(q, b);
        assert(x % a == 0) by (nonlinear_arith)
            requires
                x == 2 * q,
                a == 2 * b,
                b > 0,
                q % b == 0,
        {
            assert(q == (q / b) * b);
            assert(x == (q / b) * a);
        }
    }
}

/// The number of components of a vertex attribute.
pub open spec fn dim_size(d: VertexAttribDim) -> i32 {
    match d {
        VertexAttribDim::Dim1 => 1,
        VertexAttribDim::Dim2 => 2,
        VertexAttribDim::Dim3 => 3,
        VertexAttribDim::Dim4 => 4,
    }
}

/// The number of components of a vertex attribute.
pub fn dim_as_size(d: VertexAttribDim) -> (r: i32)
    ensures
        r == dim_size(d),
{
    match d {
        VertexAttribDim::Dim1 => 1,
        VertexAttribDim::Dim2 => 2,
        VertexAttribDim::Dim3 => 3,
        VertexAttribDim::Dim4 => 4,
    }
}

/// Weight in bytes of a vertex attribute.
pub open spec fn weight(f: VertexAttribDesc) -> int {
    dim_size(f.dim) * f.unit_size
}

/// Weight in bytes of a vertex attribute.
pub fn component_weight(f: &VertexAttribDesc) -> (r: usize)
    requires
        weight(*f) <= usize::MAX,
    ensures
        r == weight(*f),
{
    dim_as_size(f.dim) as usize * f.unit_size
}

/// The offset reached once the first `n` attributes are laid out.
pub open spec fn end_after(descs: Seq<VertexBufferDesc>, n: nat) -> int
    decreases n, 0nat,
{
    if n == 0 {
        0
    } else {
        start_of(descs, (n - 1) as nat) + weight(descs[n - 1].attrib_desc)
    }
}

/// The offset of attribute `i`: the end of the previous ones, aligned for attribute `i`.
pub open spec fn start_of(descs: Seq<VertexBufferDesc>, i: nat) -> int
    decreases i, 1nat,
{
    if 0 <= end_after(descs, i) <= usize::MAX {
        off_align_spec(end_after(descs, i) as usize, descs[i as int].attrib_desc.align) as int
    } else {
        end_after(descs, i)
    }
}

/// Laying the attributes out one after the other fits in the address space.
pub open spec fn layout_fits(descs: Seq<VertexBufferDesc>) -> bool {
    forall|i: nat| #![trigger start_of(descs, i)] i < descs.len() ==> {
        &&& descs[i as int].attrib_desc.align >= 1
        &&& end_after(descs, i) + descs[i as int].attrib_desc.align - 1 <= usize::MAX
        &&& weight(descs[i as int].attrib_desc) <= usize::MAX
        &&& start_of(descs, i) + weight(descs[i as int].attrib_desc) <= usize::MAX
    }
}

proof fn lemma_end_after_nonneg(descs: Seq<VertexBufferDesc>, n: nat)
    requires
        layout_fits(descs),
        n <= descs.len(),
    ensures
        0 <= end_after(descs, n) <= usize::MAX,
    decreases n,
{
    if n > 0 {
        lemma_end_after_nonneg(descs, (n - 1) as nat);
        assert(start_of(descs, (n - 1) as nat) >= 0);
        assert(weight(descs[n - 1].attrib_desc) >= 0) by (nonlinear_arith)
            requires
                dim_size(descs[n - 1].attrib_desc.dim) >= 1,
                descs[n - 1].attrib_desc.unit_size >= 0,
                weight(descs[n - 1].attrib_desc) == dim_size(descs[n - 1].attrib_desc.dim)
                    * descs[n - 1].attrib_desc.unit_size,
        ;
    }
}

/// Compute the offsets of all the vertex attributes according to their alignments.
pub fn aligned_offsets(descriptor: &[VertexBufferDesc]) -> (offsets: Vec<usize>)
    requires
        layout_fits(descriptor@),
    ensures
        offsets@.len() == descriptor@.len(),
        forall|i: int| 0 <= i < offsets@.len() ==> offsets@[i] == start_of(descriptor@, i as nat),
{
    let mut offsets: Vec<usize> = Vec::new();
    let mut off: usize = 0;
    let mut i: usize = 0;
    while i < descriptor.len()
        invariant
            layout_fits(descriptor@),
            i <= descriptor@.len(),
            off == end_after(descriptor@, i as nat),
            offsets@.len() == i,
            forall|j: int| 0 <= j < i ==> offsets@[j] == start_of(descriptor@, j as nat),
        decreases descriptor.len() - i,
    {
        let desc = &descriptor[i].attrib_desc;
        proof {
            assert(start_of(descriptor@, i as nat) + weight(descriptor@[i as int].attrib_desc) <= usize::MAX);
            lemma_end_after_nonneg(descriptor@, i as nat);
        }
        off = off_align(off, desc.align);
        offsets.push(off);
        off = off + component_weight(desc);
        i = i + 1;
    }
    offsets
}

/// The largest alignment among the first `n` attributes (0 when there is none).
pub open spec fn max_align(descs: Seq<VertexBufferDesc>, n: int) -> usize
    decreases n,
{
    if n <= 0 {
        0
    } else if descs[n - 1].attrib_desc.align > max_align(descs, n - 1) {
        descs[n - 1].attrib_desc.align
    } else {
        max_align(descs, n - 1)
    }
}

proof fn lemma_max_align(descs: Seq<VertexBufferDesc>, n: int)
    requires
        0 <= n <= descs.len(),
    ensures
        forall|i: int| 0 <= i < n ==> #[trigger] descs[i].attrib_desc.align <= max_align(descs, n),
        n > 0 ==> exists|i: int| 0 <= i < n && #[trigger] descs[i].attrib_desc.align == max_align(descs, n),
    decreases n,
{
    if n > 0 {
        lemma_max_align(descs, n - 1);
        if descs[n - 1].attrib_desc.align > max_align(descs, n - 1) {
            assert(descs[n - 1].attrib_desc.align == max_align(descs, n));
        } else if n - 1 > 0 {
            let i = choose|i: int| 0 <= i < n - 1 && #[trigger] descs[i].attrib_desc.align == max_align(descs, n - 1);
            assert(descs[i].attrib_desc.align == max_align(descs, n));
        } else {
            assert(descs[0].attrib_desc.align == max_align(descs, n));
        }
    }
}

/// Weight in bytes of a single vertex: the end of its last attribute, aligned for the largest
/// alignment of its attributes, so that every attribute of the next vertex stays aligned.
pub open spec fn vertex_weight_spec(descs: Seq<VertexBufferDesc>, offsets: Seq<usize>) -> int {
    if descs.len() == 0 || offsets.len() == 0 {
        0
    } else {
        off_align_spec(
            (offsets.last() + weight(descs.last().attrib_desc)) as usize,
            max_align(descs, descs.len() as int),
        ) as int
    }
}

/// Weight in bytes of a single vertex, with padding so that vertices stay aligned.
pub fn offset_based_vertex_weight(descriptors: &[VertexBufferDesc], offsets: &[usize]) -> (r: usize)
    requires
        descriptors@.len() > 0 && offsets@.len() > 0 ==> {
            &&& descriptors@[0].attrib_desc.align >= 1
            &&& weight(descriptors@.last().attrib_desc) <= usize::MAX
            &&& offsets@.last() + weight(descriptors@.last().attrib_desc) + max_align(
                descriptors@,
                descriptors@.len() as int,
            ) - 1 <= usize::MAX
        },
    ensures
        r == vertex_weight_spec(descriptors@, offsets@),
{
    if descriptors.len() == 0 || offsets.len() == 0 {
        return 0;
    }
    let mut m: usize = 0;
    let mut i: usize = 0;
    while i < descriptors.len()
        invariant
            i <= descriptors@.len(),
            m == max_align(descriptors@, i as int),
        decreases descriptors.len() - i,
    {
        if descriptors[i].attrib_desc.align > m {
            m = descriptors[i].attrib_desc.align;
        }
        i = i + 1;
    }
    proof {
        lemma_max_align(descriptors@, descriptors@.len() as int);
        assert(descriptors@[0].attrib_desc.align <= m);
    }
    let last = offsets[offsets.len() - 1] + component_weight(&descriptors[descriptors.len() - 1].attrib_desc);
    off_align(last, m)
}

/// `x` is a multiple of the alignment of every attribute.
pub open spec fn aligned_for_all(descs: Seq<VertexBufferDesc>, x: int) -> bool {
    forall|i: int| 0 <= i < descs.len() ==> x % (#[trigger] descs[i].attrib_desc.align as int) == 0
}

/// With power-of-two alignments, the weight of a vertex is the smallest size that holds its
/// attributes and is a multiple of every attribute's alignment.
pub proof fn law_vertex_weight_aligns_every_attribute(descs: Seq<VertexBufferDesc>, offsets: Seq<usize>)
    requires
        descs.len() > 0,
        offsets.len() > 0,
        forall|i: int| 0 <= i < descs.len() ==> is_power_of_two(#[trigger] descs[i].attrib_desc.align),
        offsets.last() + weight(descs.last().attrib_desc) + max_align(descs, descs.len() as int) - 1 <= usize::MAX,
    ensures
        ({
            let end = offsets.last() + weight(descs.last().attrib_desc);
            let w = vertex_weight_spec(descs, offsets);
            &&& end <= w
            &&& aligned_for_all(descs, w)
            &&& forall|x: int| end <= x < w ==> !#[trigger] aligned_for_all(descs, x)
        }),
{
    let n = descs.len() as int;
    let m = max_align(descs, n);
    lemma_max_align(descs, n);
    let end = offsets.last() + weight(descs.last().attrib_desc);
    let k = choose|k: int| 0 <= k < n && #[trigger] descs[k].attrib_desc.align == m;
    assert(is_power_of_two(descs[k].attrib_desc.align));
    assert(is_power_of_two(m));
    law_off_align_rounds_up(end as usize, m);
    let w = vertex_weight_spec(descs, offsets);
    assert forall|i: int| 0 <= i < descs.len() implies w % (#[trigger] descs[i].attrib_desc.align as int) == 0 by {
        let a = descs[i].attrib_desc.align;
        assert(is_power_of_two(a));
        assert(a <= m);
        assert(m & ((a - 1) as usize) == 0) by (bit_vector)
            requires
                a != 0usize,
                a & ((a - 1) as usize) == 0usize,
                m != 0usize,
                m & ((m - 1) as usize) == 0usize,
                a <= m,
        ;
        lemma_mask_zero_is_multiple(m, a);
        assert(w % (a as int) == 0) by (nonlinear_arith)
            requires
                a > 0,
                m > 0,
                w % (m as int) == 0,
                (m as int) % (a as int) == 0,
        {
            let q = w / (m as int);
            let p = (m as int) / (a as int);
            assert(w == q * (m as int));
            assert((m as int) == p * (a as int));
            assert(w == (q * p) * (a as int));
        }
    }
    assert forall|x: int| end <= x < w implies !#[trigger] aligned_for_all(descs, x) by {
        // the multiples of m: w is the first at or above end
        if x % (m as int) == 0 {
            assert(x >= end && x < end + m);
            assert(false) by (nonlinear_arith)
                requires
                    m > 0,
                    x % (m as int) == 0,
                    w % (m as int) == 0,
                    end <= x < w,
                    w < end + m,
            ;
        }
        assert(x % (descs[k].attrib_desc.align as int) != 0);
    }
}

/// The GL type of a vertex attribute's components, when the backend supports it.
pub open spec fn sized_type(ty: VertexAttribType, unit_size: usize) -> Option<u32> {
    match ty {
        VertexAttribType::Integral(_) => if unit_size == 1 {
            Some(glenum::BYTE)
        } else if unit_size == 2 {
            Some(glenum::SHORT)
        } else if unit_size == 4 {
            Some(glenum::INT)
        } else {
            None
        },
        VertexAttribType::Unsigned(_) => if unit_size == 1 {
            Some(glenum::UNSIGNED_BYTE)
        } else if unit_size == 2 {
            Some(glenum::UNSIGNED_SHORT)
        } else if unit_size == 4 {
            Some(glenum::UNSIGNED_INT)
        } else {
            None
        },
        VertexAttribType::Boolean => if unit_size == 1 {
            Some(glenum::UNSIGNED_BYTE)
        } else {
            None
        },
        VertexAttribType::Floating => if unit_size == 4 {
            Some(glenum::FLOAT)
        } else {
            None
        },
    }
}

/// The GL type of a vertex attribute's components. Unsupported formats are rejected by the
/// backend, so the attribute must have one of the supported formats.
pub fn opengl_sized_type(f: &VertexAttribDesc) -> (r: u32)
    requires
        sized_type(f.ty, f.unit_size) is Some,
    ensures
        Some(r) == sized_type(f.ty, f.unit_size),
{
    match f.ty {
        VertexAttribType::Integral(_) => {
            if f.unit_size == 1 {
                glenum::BYTE
            } else if f.unit_size == 2 {
                glenum::SHORT
            } else {
                glenum::INT
            }
        },
        VertexAttribType::Unsigned(_) => {
            if f.unit_size == 1 {
                glenum::UNSIGNED_BYTE
            } else if f.unit_size == 2 {
                glenum::UNSIGNED_SHORT
            } else {
                glenum::UNSIGNED_INT
            }
        },
        VertexAttribType::Boolean => glenum::UNSIGNED_BYTE,
        VertexAttribType::Floating => glenum::FLOAT,
    }
}

/// A vertex attribute pointer to declare to the context.
#[derive(Clone, Copy, Debug, PartialEq, Eq, Structural)]
pub struct VertexAttribPointer {
    /// Attribute index.
    pub index: u32,
    /// Number of components.
    pub size: i32,
    /// GL type of the components.
    pub ty: u32,
    /// `Some(normalized)` for a floating-point pointer, `None` for an integer pointer.
    pub normalized: Option<bool>,
    /// Stride between two vertices, in bytes.
    pub stride: i32,
    /// Offset of the attribute in a vertex, in bytes.
    pub offset: usize,
    /// Attribute divisor: 1 when the attribute advances per instance, 0 otherwise.
    pub divisor: u32,
}

/// How the components of an attribute are fetched: floating-point (with normalization) or as
/// integers.
pub open spec fn pointer_normalization(ty: VertexAttribType) -> Option<bool> {
    match ty {
        VertexAttribType::Floating => Some(false),
        VertexAttribType::Integral(Normalized::No) => None,
        VertexAttribType::Unsigned(Normalized::No) => None,
        VertexAttribType::Boolean => None,
        _ => Some(true),
    }
}

/// The pointer that declares attribute `desc` at offset `off` with the given stride.
pub open spec fn component_format(stride: i32, off: usize, desc: VertexBufferDesc) -> VertexAttribPointer {
    VertexAttribPointer {
        index: desc.index as u32,
        size: dim_size(desc.attrib_desc.dim),
        ty: sized_type(desc.attrib_desc.ty, desc.attrib_desc.unit_size).unwrap(),
        normalized: pointer_normalization(desc.attrib_desc.ty),
        stride,
        offset: off,
        divisor: if desc.instancing == VertexInstancing::On { 1 } else { 0 },
    }
}

/// Compute the pointer that declares a vertex attribute.
pub fn set_component_format(stride: i32, off: usize, desc: &VertexBufferDesc) -> (p: VertexAttribPointer)
    requires
        sized_type(desc.attrib_desc.ty, desc.attrib_desc.unit_size) is Some,
    ensures
        p == component_format(stride, off, *desc),
{
    let attrib_desc = &desc.attrib_desc;
    let normalized = match attrib_desc.ty {
        VertexAttribType::Floating => Some(false),
        VertexAttribType::Integral(Normalized::No) | VertexAttribType::Unsigned(Normalized::No)
        | VertexAttribType::Boolean => None,
        _ => Some(true),
    };
    let divisor = match desc.instancing {
        VertexInstancing::On => 1,
        VertexInstancing::Off => 0,
    };
    VertexAttribPointer {
        index: desc.index as u32,
        size: dim_as_size(attrib_desc.dim),
        ty: opengl_sized_type(attrib_desc),
        normalized,
        stride,
        offset: off,
        divisor,
    }
}

/// Every attribute has a format that the backend supports.
pub open spec fn all_supported(descs: Seq<VertexBufferDesc>) -> bool {
    forall|i: int| 0 <= i < descs.len() ==> #[trigger] sized_type(
        descs[i].attrib_desc.ty,
        descs[i].attrib_desc.unit_size,
    ) is Some
}

/// The whole vertex, padded for the largest alignment of its attributes, fits in the address
/// space.
pub open spec fn vertex_fits(descs: Seq<VertexBufferDesc>) -> bool {
    &&& layout_fits(descs)
    &&& descs.len() > 0 ==> end_after(descs, descs.len()) + max_align(descs, descs.len() as int) - 1 <= usize::MAX
}

/// The pointers that declare a list of vertex attributes: each at its aligned offset, all with
/// the padded weight of a vertex as stride.
pub fn set_vertex_pointers(descriptors: &[VertexBufferDesc]) -> (ptrs: Vec<VertexAttribPointer>)
    requires
        all_supported(descriptors@),
        vertex_fits(descriptors@),
    ensures
        ptrs@.len() == descriptors@.len(),
        forall|i: int| 0 <= i < ptrs@.len() ==> ptrs@[i] == component_format(
            vertex_weight_spec(
                descriptors@,
                Seq::new(descriptors@.len(), |j: int| start_of(descriptors@, j as nat) as usize),
            ) as i32,
            start_of(descriptors@, i as nat) as usize,
            descriptors@[i],
        ),
{
    let offsets = aligned_offsets(descriptors);
    let ghost offs = Seq::new(descriptors@.len(), |j: int| start_of(descriptors@, j as nat) as usize);
    assert(offsets@ =~= offs);
    proof {
        if descriptors@.len() > 0 {
            let n = descriptors@.len();
            lemma_end_after_nonneg(descriptors@, (n - 1) as nat);
            assert(start_of(descriptors@, 0) >= 0);
            assert(start_of(descriptors@, (n - 1) as nat) >= 0);
            assert(end_after(descriptors@, n) == start_of(descriptors@, (n - 1) as nat) + weight(descriptors@[n - 1].attrib_desc));
            assert(start_of(descriptors@, (n - 1) as nat) + weight(descriptors@[n - 1].attrib_desc) <= usize::MAX);
            assert(offsets@.last() == start_of(descriptors@, (n - 1) as nat));
        }
    }
    let vertex_weight = offset_based_vertex_weight(descriptors, offsets.as_slice()) as i32;
    let mut ptrs: Vec<VertexAttribPointer> = Vec::new();
    let mut i: usize = 0;
    while i < descriptors.len()
        invariant
            all_supported(descriptors@),
            offsets@ == offs,
            offs.len() == descriptors@.len(),
            vertex_weight == vertex_weight_spec(descriptors@, offs) as i32,
            i <= descriptors@.len(),
            ptrs@.len() == i,
            forall|k: int| 0 <= k < i ==> ptrs@[k] == component_format(
                vertex_weight,
                offs[k],
                descriptors@[k],
            ),
        decreases descriptors.len() - i,
    {
        let p = set_component_format(vertex_weight, offsets[i], &descriptors[i]);
        ptrs.push(p);
        i = i + 1;
    }
    ptrs
}

/// Type of the indices of an indexed tessellation.
#[derive(Clone, Copy, Debug, PartialEq, Eq, Structural)]
pub enum TessIndexType {
    U8,
    U16,
    U32,
}

/// Size in bytes of one index.
pub open spec fn index_bytes(ty: TessIndexType) -> usize {
    match ty {
        TessIndexType::U8 => 1,
        TessIndexType::U16 => 2,
        TessIndexType::U32 => 4,
    }
}

impl TessIndexType {
    /// Size in bytes of one index.
    pub fn bytes(self) -> (r: usize)
        ensures
            r == index_bytes(self),
    {
        match self {
            TessIndexType::U8 => 1,
            TessIndexType::U16 => 2,
            TessIndexType::U32 => 4,
        }
    }
}

/// The GL type of the indices.
pub open spec fn index_type_glenum(ty: TessIndexType) -> u32 {
    match ty {
        TessIndexType::U8 => glenum::UNSIGNED_BYTE,
        TessIndexType::U16 => glenum::UNSIGNED_SHORT,
        TessIndexType::U32 => glenum::UNSIGNED_INT,
    }
}

/// The GL type of the indices.
pub fn index_type_to_glenum(ty: TessIndexType) -> (r: u32)
    ensures
        r == index_type_glenum(ty),
{
    match ty {
        TessIndexType::U8 => glenum::UNSIGNED_BYTE,
        TessIndexType::U16 => glenum::UNSIGNED_SHORT,
        TessIndexType::U32 => glenum::UNSIGNED_INT,
    }
}

/// Primitive mode of a tessellation; a patch carries its number of vertices.
#[derive(Clone, Copy, Debug, PartialEq, Eq, Structural)]
pub enum Mode {
    Point,
    Line,
    LineStrip,
    Triangle,
    TriangleFan,
    TriangleStrip,
    Patch(usize),
}

/// The GL primitive of a mode.
pub open spec fn mode_glenum(mode: Mode) -> u32 {
    match mode {
        Mode::Point => glenum::POINTS,
        Mode::Line => glenum::LINES,
        Mode::LineStrip => glenum::LINE_STRIP,
        Mode::Triangle => glenum::TRIANGLES,
        Mode::TriangleFan => glenum::TRIANGLE_FAN,
        Mode::TriangleStrip => glenum::TRIANGLE_STRIP,
        Mode::Patch(_) => glenum::PATCHES,
    }
}

/// The GL primitive of a mode.
pub fn opengl_mode(mode: Mode) -> (r: u32)
    ensures
        r == mode_glenum(mode),
{
    match mode {
        Mode::Point => glenum::POINTS,
        Mode::Line => glenum::LINES,
        Mode::LineStrip => glenum::LINE_STRIP,
        Mode::Triangle => glenum::TRIANGLES,
        Mode::TriangleFan => glenum::TRIANGLE_FAN,
        Mode::TriangleStrip => glenum::TRIANGLE_STRIP,
        Mode::Patch(_) => glenum::PATCHES,
    }
}

/// The number of vertices per patch of a mode; zero for modes that are not patches.
pub fn patch_vertex_count(mode: Mode) -> (r: usize)
    ensures
        r == (match mode {
            Mode::Patch(nb) => nb,
            _ => 0,
        }),
{
    match mode {
        Mode::Patch(nb) => nb,
        _ => 0,
    }
}


/// A draw call.
#[derive(Clone, Copy, Debug, PartialEq, Eq, Structural)]
pub enum DrawCall {
    /// Indexed draw: primitive mode, index count, index type, byte offset of the first index.
    Elements { mode: u32, count: i32, ty: u32, offset: usize },
    /// Instanced indexed draw.
    ElementsInstanced { mode: u32, count: i32, ty: u32, offset: usize, instances: i32 },
    /// Direct draw: primitive mode, first vertex, vertex count.
    Arrays { mode: u32, first: i32, count: i32 },
    /// Instanced direct draw.
    ArraysInstanced { mode: u32, first: i32, count: i32, instances: i32 },
}

/// What rendering a tessellation asks of the context: the state changes, the restart index to
/// declare if any, then the draw call.
#[derive(Clone, Debug, PartialEq, Eq)]
pub struct RenderCommands {
    pub state: Vec<GlCommand>,
    pub restart_index: Option<u32>,
    pub draw: DrawCall,
}

/// A tessellation as the backend holds it: vertex array, GL primitive, vertex and instance counts,
/// vertices per patch, and for an indexed tessellation its index type and restart index.
#[derive(Clone, Copy, Debug, PartialEq, Eq, Structural)]
pub struct TessRaw {
    pub vao: u32,
    pub mode: u32,
    pub vert_nb: usize,
    pub inst_nb: usize,
    pub patch_vert_nb: usize,
    /// The index type and restart index of an indexed tessellation.
    pub index_state: Option<IndexedDrawState>,
}

/// What an indexed tessellation needs at draw time: the type of its indices and its restart index.
#[derive(Clone, Copy, Debug, PartialEq, Eq, Structural)]
pub struct IndexedDrawState {
    pub index_type: TessIndexType,
    pub restart_index: Option<u32>,
}

/// The tessellation that building records from its description.
pub open spec fn built_tess(
    vao: u32,
    mode: Mode,
    vert_nb: usize,
    inst_nb: usize,
    index_type: TessIndexType,
    index_count: usize,
    restart_index: Option<u32>,
) -> TessRaw {
    TessRaw {
        vao,
        mode: mode_glenum(mode),
        vert_nb,
        inst_nb,
        patch_vert_nb: match mode {
            Mode::Patch(nb) => nb,
            _ => 0,
        },
        index_state: if index_count > 0 {
            Some(IndexedDrawState { index_type, restart_index })
        } else {
            None
        },
    }
}

/// Record a freshly built tessellation: its vertex array `vao`, the GL primitive of `mode`, the
/// vertex and instance counts, the number of vertices per patch, and, when `index_count` indices
/// were given, their type and restart index. Without indices the tessellation is direct.
pub fn build_tess_raw(
    vao: u32,
    mode: Mode,
    vert_nb: usize,
    inst_nb: usize,
    index_type: TessIndexType,
    index_count: usize,
    restart_index: Option<u32>,
) -> (r: TessRaw)
    ensures
        r == built_tess(vao, mode, vert_nb, inst_nb, index_type, index_count, restart_index),
{
    let patch_vert_nb = patch_vertex_count(mode);
    let index_state = if index_count > 0 {
        Some(IndexedDrawState { index_type, restart_index })
    } else {
        None
    };
    TessRaw { vao, mode: opengl_mode(mode), vert_nb, inst_nb, patch_vert_nb, index_state }
}

/// Why the buffers of a tessellation could not be mapped.
#[derive(Clone, Copy, Debug, PartialEq, Eq, Structural)]
pub enum TessMapError {
    /// The buffer could not be mapped.
    CannotMap,
    /// The tessellation has no such buffer (an attributeless tessellation).
    ForbiddenAttributelessMapping,
}

/// The outcome of mapping one of the buffers of a tessellation (vertices, instances or
/// indices): a tessellation without that buffer cannot be mapped; otherwise the mapping of the
/// buffer decides.
pub fn tess_buffer_mapping(has_buffer: bool, mapping: Result<(), SliceBufferError>) -> (r: Result<(), TessMapError>)
    ensures
        !has_buffer ==> r == Err::<(), TessMapError>(TessMapError::ForbiddenAttributelessMapping),
        has_buffer && mapping is Err ==> r == Err::<(), TessMapError>(TessMapError::CannotMap),
        has_buffer && mapping is Ok ==> r is Ok,
{
    if !has_buffer {
        return Err(TessMapError::ForbiddenAttributelessMapping);
    }
    match mapping {
        Ok(()) => Ok(()),
        Err(SliceBufferError::MapFailed) => Err(TessMapError::CannotMap),
    }
}

/// The graphics state once the vertex array is bound and, for patches, the patch size is set.
pub open spec fn after_render_setup(v: GLStateView, raw: TessRaw) -> GLStateView {
    let v1 = GLStateView { bound_vertex_array: raw.vao, ..v };
    if raw.mode == glenum::PATCHES {
        GLStateView { patch_vertex_nb: Some(raw.patch_vert_nb), ..v1 }
    } else {
        v1
    }
}

/// The graphics state after a tessellation was rendered.
pub open spec fn after_render(v: GLStateView, raw: TessRaw) -> GLStateView {
    let v2 = after_render_setup(v, raw);
    match raw.index_state {
        Some(IndexedDrawState { restart_index: Some(_), .. }) => GLStateView { vertex_restart: Some(VertexRestart::On), ..v2 },
        Some(IndexedDrawState { restart_index: None, .. }) => GLStateView { vertex_restart: Some(VertexRestart::Off), ..v2 },
        None => v2,
    }
}

/// The state commands issued to render a tessellation.
pub open spec fn render_state_cmds(v: GLStateView, raw: TessRaw) -> Seq<GlCommand> {
    let v1 = GLStateView { bound_vertex_array: raw.vao, ..v };
    let setup = (if v.bound_vertex_array != raw.vao {
        seq![GlCommand::BindVertexArray(raw.vao)]
    } else {
        Seq::empty()
    }) + (if raw.mode == glenum::PATCHES {
        cached_cmd(
            v1.patch_vertex_nb,
            raw.patch_vert_nb,
            GlCommand::PatchParameter(glenum::PATCH_VERTICES, raw.patch_vert_nb as i32),
        )
    } else {
        Seq::empty()
    });
    let v2 = after_render_setup(v, raw);
    setup + match raw.index_state {
        Some(IndexedDrawState { restart_index: Some(_), .. }) => cached_cmd(
            v2.vertex_restart,
            VertexRestart::On,
            toggle_command(true, glenum::PRIMITIVE_RESTART),
        ),
        Some(IndexedDrawState { restart_index: None, .. }) => cached_cmd(
            v2.vertex_restart,
            VertexRestart::Off,
            toggle_command(false, glenum::PRIMITIVE_RESTART),
        ),
        None => Seq::empty(),
    }
}

/// The draw call that renders `vert_nb` vertices from `start_index`, `inst_nb` times.
pub open spec fn draw_call(raw: TessRaw, start_index: usize, vert_nb: usize, inst_nb: usize) -> DrawCall {
    match raw.index_state {
        Some(st) => if inst_nb as i32 <= 1 {
            DrawCall::Elements {
                mode: raw.mode,
                count: vert_nb as i32,
                ty: index_type_glenum(st.index_type),
                offset: (index_bytes(st.index_type) * start_index) as usize,
            }
        } else {
            DrawCall::ElementsInstanced {
                mode: raw.mode,
                count: vert_nb as i32,
                ty: index_type_glenum(st.index_type),
                offset: (index_bytes(st.index_type) * start_index) as usize,
                instances: inst_nb as i32,
            }
        },
        None => if inst_nb as i32 <= 1 {
            DrawCall::Arrays { mode: raw.mode, first: start_index as i32, count: vert_nb as i32 }
        } else {
            DrawCall::ArraysInstanced {
                mode: raw.mode,
                first: start_index as i32,
                count: vert_nb as i32,
                instances: inst_nb as i32,
            }
        },
    }
}

impl GLState {
    /// Render a tessellation: bind its vertex array, set the patch size for patches, set primitive
    /// restart for indexed tessellations, and pick the draw call.
    pub fn render_tess(&mut self, raw: &TessRaw, start_index: usize, vert_nb: usize, inst_nb: usize) -> (r:
        RenderCommands)
        requires
            match raw.index_state {
                Some(st) => index_bytes(st.index_type) * start_index <= usize::MAX,
                None => true,
            },
        ensures
            final(self)@ == after_render(old(self)@, *raw),
            r.state@ == render_state_cmds(old(self)@, *raw),
            r.restart_index == (match raw.index_state {
                Some(st) => st.restart_index,
                None => None,
            }),
            r.draw == draw_call(*raw, start_index, vert_nb, inst_nb),
    {
        let vert_nb = vert_nb as i32;
        let inst_nb = inst_nb as i32;
        let mut cmds: Vec<GlCommand> = Vec::new();
        let c = self.bind_vertex_array(raw.vao, crate::state::Bind::Cached);
        push_opt_cmd(&mut cmds, c);
        let ghost n0 = cmds@;
        if raw.mode == glenum::PATCHES {
            let c = self.set_patch_vertex_nb(raw.patch_vert_nb);
            push_opt_cmd(&mut cmds, c);
        }
        let ghost n1 = cmds@;
        let ghost v2 = self@;
        match raw.index_state {
            Some(st) => {
                let ty = st.index_type;
                let first = ty.bytes() * start_index;
                let restart_index = match st.restart_index {
                    Some(r) => {
                        let c = self.set_vertex_restart(VertexRestart::On);
                        push_opt_cmd(&mut cmds, c);
                        Some(r)
                    },
                    None => {
                        let c = self.set_vertex_restart(VertexRestart::Off);
                        push_opt_cmd(&mut cmds, c);
                        None
                    },
                };
                let draw = if inst_nb <= 1 {
                    DrawCall::Elements { mode: raw.mode, count: vert_nb, ty: index_type_to_glenum(ty), offset: first }
                } else {
                    DrawCall::ElementsInstanced {
                        mode: raw.mode,
                        count: vert_nb,
                        ty: index_type_to_glenum(ty),
                        offset: first,
                        instances: inst_nb,
                    }
                };
                assert(cmds@ =~= render_state_cmds(old(self)@, *raw));
                RenderCommands { state: cmds, restart_index, draw }
            },
            None => {
                let first = start_index as i32;
                let draw = if inst_nb <= 1 {
                    DrawCall::Arrays { mode: raw.mode, first, count: vert_nb }
                } else {
                    DrawCall::ArraysInstanced { mode: raw.mode, first, count: vert_nb, instances: inst_nb }
                };
                assert(cmds@ =~= render_state_cmds(old(self)@, *raw));
                RenderCommands { state: cmds, restart_index: None, draw }
            },
        }
    }
}

fn push_opt_cmd(v: &mut Vec<GlCommand>, c: Option<GlCommand>)
    ensures
        final(v)@ == old(v)@ + opt_seq(c),
{
    match c {
        Some(c) => {
            v.push(c);
            assert(v@ =~= old(v)@ + opt_seq(Some(c)));
        },
        None => {
            assert(v@ =~= old(v)@ + opt_seq(None));
        },
    }
}


/// Indices of 8, 16 and 32 bits are drawn as `UNSIGNED_BYTE` (0x1401), `UNSIGNED_SHORT` (0x1403) and
/// `UNSIGNED_INT` (0x1405).
pub proof fn law_index_type_enumerants(x: TessIndexType, y: TessIndexType)
    ensures
        x is U8 ==> index_type_glenum(x) == 0x1401u32,
        x is U16 ==> index_type_glenum(x) == 0x1403u32,
        x is U32 ==> index_type_glenum(x) == 0x1405u32,
        index_type_glenum(x) == index_type_glenum(y) ==> x == y,
{
}

/// Each primitive mode is drawn as the GL primitive of that name: points `POINTS` (0x0000), lines
/// `LINES` (0x0001), a line strip `LINE_STRIP` (0x0003), triangles `TRIANGLES` (0x0004), a fan
/// `TRIANGLE_FAN` (0x0006), a strip `TRIANGLE_STRIP` (0x0005), patches `PATCHES` (0x000E); two modes
/// share a primitive only when both are patches.
pub proof fn law_mode_primitives(x: Mode, y: Mode)
    ensures
        x is Point ==> mode_glenum(x) == 0x0000u32,
        x is Line ==> mode_glenum(x) == 0x0001u32,
        x is LineStrip ==> mode_glenum(x) == 0x0003u32,
        x is Triangle ==> mode_glenum(x) == 0x0004u32,
        x is TriangleFan ==> mode_glenum(x) == 0x0006u32,
        x is TriangleStrip ==> mode_glenum(x) == 0x0005u32,
        x is Patch ==> mode_glenum(x) == 0x000Eu32,
        mode_glenum(x) == mode_glenum(y) ==> x == y || (x is Patch && y is Patch),
{
}


/// Indices take 1, 2 and 4 bytes; vertex attributes have 1 to 4 components.
pub proof fn law_index_and_component_sizes(ty: TessIndexType, d: VertexAttribDim)
    ensures
        ty is U8 ==> index_bytes(ty) == 1,
        ty is U16 ==> index_bytes(ty) == 2,
        ty is U32 ==> index_bytes(ty) == 4,
        d is Dim1 ==> dim_size(d) == 1,
        d is Dim2 ==> dim_size(d) == 2,
        d is Dim3 ==> dim_size(d) == 3,
        d is Dim4 ==> dim_size(d) == 4,
{
}

/// The GL component type of a vertex attribute: signed components of 1, 2 and 4 bytes are
/// `BYTE` (0x1400), `SHORT` (0x1402) and `INT` (0x1404); unsigned ones `UNSIGNED_BYTE` (0x1401),
/// `UNSIGNED_SHORT` (0x1403) and `UNSIGNED_INT` (0x1405); booleans are single `UNSIGNED_BYTE`s
/// and floating-point components 4-byte `FLOAT`s (0x1406); any other size is unsupported.
pub proof fn law_vertex_component_types(ty: VertexAttribType, unit_size: usize)
    ensures
        ty is Integral ==> sized_type(ty, unit_size) == (if unit_size == 1 {
            Some(0x1400u32)
        } else if unit_size == 2 {
            Some(0x1402u32)
        } else if unit_size == 4 {
            Some(0x1404u32)
        } else {
            None
        }),
        ty is Unsigned ==> sized_type(ty, unit_size) == (if unit_size == 1 {
            Some(0x1401u32)
        } else if unit_size == 2 {
            Some(0x1403u32)
        } else if unit_size == 4 {
            Some(0x1405u32)
        } else {
            None
        }),
        ty is Boolean ==> sized_type(ty, unit_size) == (if unit_size == 1 { Some(0x1401u32) } else { None }),
        ty is Floating ==> sized_type(ty, unit_size) == (if unit_size == 4 { Some(0x1406u32) } else { None }),
{
}


/// How an attribute is declared: floating-point components through a float pointer without
/// normalization; normalized integral or unsigned components through a float pointer with
/// normalization; other integral, unsigned and boolean components through an integer pointer.
/// The pointer carries the attribute's index, its number of components, the GL type of its
/// components, the given stride and offset, and advances per instance (divisor 1) exactly for
/// instanced attributes.
pub proof fn law_attribute_pointer(stride: i32, off: usize, desc: VertexBufferDesc)
    ensures
        desc.attrib_desc.ty is Floating ==> pointer_normalization(desc.attrib_desc.ty) == Some(false),
        desc.attrib_desc.ty == VertexAttribType::Integral(Normalized::Yes) ==> pointer_normalization(
            desc.attrib_desc.ty,
        ) == Some(true),
        desc.attrib_desc.ty == VertexAttribType::Unsigned(Normalized::Yes) ==> pointer_normalization(
            desc.attrib_desc.ty,
        ) == Some(true),
        desc.attrib_desc.ty == VertexAttribType::Integral(Normalized::No) || desc.attrib_desc.ty
            == VertexAttribType::Unsigned(Normalized::No) || desc.attrib_desc.ty is Boolean ==> pointer_normalization(
            desc.attrib_desc.ty,
        ) is None,
        ({
            let p = component_format(stride, off, desc);
            &&& p.index == desc.index as u32
            &&& p.size == dim_size(desc.attrib_desc.dim)
            &&& Some(p.ty) == sized_type(desc.attrib_desc.ty, desc.attrib_desc.unit_size) || sized_type(
                desc.attrib_desc.ty,
                desc.attrib_desc.unit_size,
            ) is None
            &&& p.stride == stride
            &&& p.offset == off
            &&& p.divisor == (if desc.instancing == VertexInstancing::On { 1u32 } else { 0u32 })
        }),
{
}

} // verus!
