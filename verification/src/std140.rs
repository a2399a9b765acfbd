//! Types and traits implementing the std140 OpenGL layout rule.
//!
//! A value is encoded into its std140 representation by wrapping it in aligned wrappers. The
//! [`Layout`] trait is a model of the std140 rule: it gives the size and alignment that each
//! representation must have in a std140 buffer, where an aligned wrapper raises the alignment of
//! its content to its own and pads the size up to a multiple of the resulting alignment. It is
//! not the Rust layout of these types: the wrappers carry no alignment attribute, so in memory
//! they have the size and alignment of what they wrap, and a buffer laid out for the GPU is
//! built from the model's sizes and offsets, not by copying the values as they are.
use vstd::prelude::*;

verus! {

/// `s` rounded up to a multiple of `a`.
pub open spec fn round_up(s: nat, a: nat) -> nat {
    if a == 0 {
        s
    } else {
        (((s + a - 1) / a as int) * a) as nat
    }
}

/// The larger of two alignments.
pub open spec fn max_nat(a: nat, b: nat) -> nat {
    if a >= b {
        a
    } else {
        b
    }
}

/// Size and alignment of a type under the std140 rule (a model, not the Rust layout).
pub trait Layout {
    spec fn layout_size() -> nat;

    spec fn layout_align() -> nat;

    /// Size in bytes under the std140 rule.
    fn size() -> (r: usize)
        requires
            Self::layout_size() <= usize::MAX,
            Self::layout_align() <= usize::MAX,
        ensures
            r == Self::layout_size(),
    ;

    /// Alignment in bytes under the std140 rule.
    fn align() -> (r: usize)
        requires
            Self::layout_align() <= usize::MAX,
        ensures
            r == Self::layout_align(),
    ;
}

impl Layout for i32 {
    open spec fn layout_size() -> nat {
        4
    }

    open spec fn layout_align() -> nat {
        4
    }

    fn size() -> (r: usize) {
        4
    }

    fn align() -> (r: usize) {
        4
    }
}

impl Layout for u32 {
    open spec fn layout_size() -> nat {
        4
    }

    open spec fn layout_align() -> nat {
        4
    }

    fn size() -> (r: usize) {
        4
    }

    fn align() -> (r: usize) {
        4
    }
}

impl Layout for bool {
    open spec fn layout_size() -> nat {
        1
    }

    open spec fn layout_align() -> nat {
        1
    }

    fn size() -> (r: usize) {
        1
    }

    fn align() -> (r: usize) {
        1
    }
}

/// Round `s` up to a multiple of `a`, without overflowing when the result fits.
fn round_up_exec(s: usize, a: usize) -> (r: usize)
    requires
        a > 0,
        round_up(s as nat, a as nat) <= usize::MAX,
    ensures
        r == round_up(s as nat, a as nat),
{
    let rem = s % a;
    proof {
        let q = s as int / a as int;
        assert(s == q * a + rem) by (nonlinear_arith)
            requires
                a > 0,
                q == s as int / a as int,
                rem == s % a,
        ;
        if rem == 0 {
            assert((s + a - 1) / (a as int) == q) by (nonlinear_arith)
                requires
                    a > 0,
                    s == q * a,
                    q >= 0,
            ;
        } else {
            assert((s + a - 1) / (a as int) == q + 1) by (nonlinear_arith)
                requires
                    a > 0,
                    s == q * a + rem,
                    0 < rem < a,
                    q >= 0,
            ;
            assert((q + 1) * a == s - rem + a) by (nonlinear_arith)
                requires
                    s == q * a + rem,
            ;
        }
    }
    if rem == 0 {
        s
    } else {
        s - rem + a
    }
}

proof fn lemma_round_up_is_multiple(s: nat, a: nat)
    requires
        a > 0,
    ensures
        round_up(s, a) % a == 0,
        round_up(s, a) >= s,
        round_up(s, a) < s + a,
{
    let q = (s + a - 1) / a as int;
    assert((q * a) % (a as int) == 0) by (nonlinear_arith)
        requires
            a > 0,
    ;
    assert(q * a >= s && q * a < s + a) by (nonlinear_arith)
        requires
            a > 0,
            q == (s + a - 1) / a as int,
    ;
}

/// 4-bytes aligned wrapper: its content, aligned on 4 bytes under the std140 rule.
#[derive(Clone, Copy, Debug, PartialEq, Eq, Hash, PartialOrd, Ord)]
pub struct Aligned4<T>(pub T);

/// 8-bytes aligned wrapper: its content, aligned on 8 bytes under the std140 rule.
#[derive(Clone, Copy, Debug, PartialEq, Eq, Hash, PartialOrd, Ord)]
pub struct Aligned8<T>(pub T);

/// 16-bytes aligned wrapper: its content, aligned on 16 bytes under the std140 rule.
#[derive(Clone, Copy, Debug, PartialEq, Eq, Hash, PartialOrd, Ord)]
pub struct Aligned16<T>(pub T);

/// 32-bytes aligned wrapper: its content, aligned on 32 bytes under the std140 rule.
#[derive(Clone, Copy, Debug, PartialEq, Eq, Hash, PartialOrd, Ord)]
pub struct Aligned32<T>(pub T);

impl<T: Layout> Layout for Aligned4<T> {
    open spec fn layout_size() -> nat {
        round_up(T::layout_size(), max_nat(T::layout_align(), 4))
    }

    open spec fn layout_align() -> nat {
        max_nat(T::layout_align(), 4)
    }

    fn size() -> (r: usize) {
        proof {
            lemma_round_up_is_multiple(T::layout_size(), max_nat(T::layout_align(), 4));
        }
        let a = Self::align();
        round_up_exec(T::size(), a)
    }

    fn align() -> (r: usize) {
        let a = T::align();
        if a >= 4 {
            a
        } else {
            4
        }
    }
}

impl<T: Layout> Layout for Aligned8<T> {
    open spec fn layout_size() -> nat {
        round_up(T::layout_size(), max_nat(T::layout_align(), 8))
    }

    open spec fn layout_align() -> nat {
        max_nat(T::layout_align(), 8)
    }

    fn size() -> (r: usize) {
        proof {
            lemma_round_up_is_multiple(T::layout_size(), max_nat(T::layout_align(), 8));
        }
        let a = Self::align();
        round_up_exec(T::size(), a)
    }

    fn align() -> (r: usize) {
        let a = T::align();
        if a >= 8 {
            a
        } else {
            8
        }
    }
}

impl<T: Layout> Layout for Aligned16<T> {
    open spec fn layout_size() -> nat {
        round_up(T::layout_size(), max_nat(T::layout_align(), 16))
    }

    open spec fn layout_align() -> nat {
        max_nat(T::layout_align(), 16)
    }

    fn size() -> (r: usize) {
        proof {
            lemma_round_up_is_multiple(T::layout_size(), max_nat(T::layout_align(), 16));
        }
        let a = Self::align();
        round_up_exec(T::size(), a)
    }

    fn align() -> (r: usize) {
        let a = T::align();
        if a >= 16 {
            a
        } else {
            16
        }
    }
}

impl<T: Layout> Layout for Aligned32<T> {
    open spec fn layout_size() -> nat {
        round_up(T::layout_size(), max_nat(T::layout_align(), 32))
    }

    open spec fn layout_align() -> nat {
        max_nat(T::layout_align(), 32)
    }

    fn size() -> (r: usize) {
        proof {
            lemma_round_up_is_multiple(T::layout_size(), max_nat(T::layout_align(), 32));
        }
        let a = Self::align();
        round_up_exec(T::size(), a)
    }

    fn align() -> (r: usize) {
        let a = T::align();
        if a >= 32 {
            a
        } else {
            32
        }
    }
}

/// A 2-component vector.
#[derive(Clone, Copy, Debug, PartialEq, Eq, Hash)]
pub struct Vec2<T>(pub [T; 2]);

/// A 3-component vector.
#[derive(Clone, Copy, Debug, PartialEq, Eq, Hash)]
pub struct Vec3<T>(pub [T; 3]);

/// A 4-component vector.
#[derive(Clone, Copy, Debug, PartialEq, Eq, Hash)]
pub struct Vec4<T>(pub [T; 4]);

impl<T: Layout> Layout for Vec2<T> {
    open spec fn layout_size() -> nat {
        2 * T::layout_size()
    }

    open spec fn layout_align() -> nat {
        T::layout_align()
    }

    fn size() -> (r: usize) {
        2 * T::size()
    }

    fn align() -> (r: usize) {
        T::align()
    }
}

impl<T: Layout> Layout for Vec3<T> {
    open spec fn layout_size() -> nat {
        3 * T::layout_size()
    }

    open spec fn layout_align() -> nat {
        T::layout_align()
    }

    fn size() -> (r: usize) {
        3 * T::size()
    }

    fn align() -> (r: usize) {
        T::align()
    }
}

impl<T: Layout> Layout for Vec4<T> {
    open spec fn layout_size() -> nat {
        4 * T::layout_size()
    }

    open spec fn layout_align() -> nat {
        T::layout_align()
    }

    fn size() -> (r: usize) {
        4 * T::size()
    }

    fn align() -> (r: usize) {
        T::align()
    }
}

/// An aligned wrapper is aligned on at least its own alignment and on its content's; its size is
/// the smallest multiple of that alignment that holds the content.
pub proof fn law_aligned_wrappers_pad_to_their_alignment<T: Layout>()
    ensures
        Aligned4::<T>::layout_align() >= 4 && Aligned4::<T>::layout_align() >= T::layout_align(),
        Aligned8::<T>::layout_align() >= 8 && Aligned8::<T>::layout_align() >= T::layout_align(),
        Aligned16::<T>::layout_align() >= 16 && Aligned16::<T>::layout_align() >= T::layout_align(),
        Aligned32::<T>::layout_align() >= 32 && Aligned32::<T>::layout_align() >= T::layout_align(),
        Aligned4::<T>::layout_size() % Aligned4::<T>::layout_align() == 0,
        Aligned8::<T>::layout_size() % Aligned8::<T>::layout_align() == 0,
        Aligned16::<T>::layout_size() % Aligned16::<T>::layout_align() == 0,
        Aligned32::<T>::layout_size() % Aligned32::<T>::layout_align() == 0,
        T::layout_size() <= Aligned4::<T>::layout_size() < T::layout_size() + Aligned4::<T>::layout_align(),
        T::layout_size() <= Aligned8::<T>::layout_size() < T::layout_size() + Aligned8::<T>::layout_align(),
        T::layout_size() <= Aligned16::<T>::layout_size() < T::layout_size() + Aligned16::<T>::layout_align(),
        T::layout_size() <= Aligned32::<T>::layout_size() < T::layout_size() + Aligned32::<T>::layout_align(),
{
    lemma_round_up_is_multiple(T::layout_size(), max_nat(T::layout_align(), 4));
    lemma_round_up_is_multiple(T::layout_size(), max_nat(T::layout_align(), 8));
    lemma_round_up_is_multiple(T::layout_size(), max_nat(T::layout_align(), 16));
    lemma_round_up_is_multiple(T::layout_size(), max_nat(T::layout_align(), 32));
}

/// Types that have a `std140` representation.
///
/// A value is encoded into its `std140` representation, and such a representation is decoded
/// back into the value.
pub trait Std140: Sized + Copy {
    type Encoded: Copy + Layout;

    /// The `std140` representation of a value.
    spec fn encoded(self) -> Self::Encoded;

    /// The value a `std140` representation stands for.
    spec fn decoded(encoded: Self::Encoded) -> Self;

    /// Decoding the representation of a value gives the value back.
    proof fn lemma_round_trip(x: Self)
        ensures
            Self::decoded(x.encoded()) == x,
    ;

    /// Encode the value into its `std140` representation.
    fn std140_encode(self) -> (e: Self::Encoded)
        ensures
            e == self.encoded(),
    ;

    /// Decode a value from its `std140` representation.
    fn std140_decode(encoded: Self::Encoded) -> (r: Self)
        ensures
            r == Self::decoded(encoded),
    ;
}

/// Decoding the `std140` representation of a value gives the value back.
pub proof fn law_std140_round_trip<T: Std140>(x: T)
    ensures
        T::decoded(x.encoded()) == x,
{
    T::lemma_round_trip(x);
}

impl Std140 for i32 {
    type Encoded = i32;

    open spec fn encoded(self) -> i32 {
        self
    }

    open spec fn decoded(encoded: i32) -> i32 {
        encoded
    }

    proof fn lemma_round_trip(x: Self) {
    }

    fn std140_encode(self) -> (e: i32) {
        self
    }

    fn std140_decode(encoded: i32) -> (r: i32) {
        encoded
    }
}

impl Std140 for u32 {
    type Encoded = u32;

    open spec fn encoded(self) -> u32 {
        self
    }

    open spec fn decoded(encoded: u32) -> u32 {
        encoded
    }

    proof fn lemma_round_trip(x: Self) {
    }

    fn std140_encode(self) -> (e: u32) {
        self
    }

    fn std140_decode(encoded: u32) -> (r: u32) {
        encoded
    }
}

impl Std140 for bool {
    type Encoded = Aligned4<bool>;

    open spec fn encoded(self) -> Aligned4<bool> {
        Aligned4(self)
    }

    open spec fn decoded(encoded: Aligned4<bool>) -> bool {
        encoded.0
    }

    proof fn lemma_round_trip(x: Self) {
    }

    fn std140_encode(self) -> (e: Aligned4<bool>) {
        Aligned4(self)
    }

    fn std140_decode(encoded: Aligned4<bool>) -> (r: bool) {
        encoded.0
    }
}

impl Std140 for Vec2<i32> {
    type Encoded = Aligned8<Vec2<i32>>;

    open spec fn encoded(self) -> Aligned8<Vec2<i32>> {
        Aligned8(self)
    }

    open spec fn decoded(encoded: Aligned8<Vec2<i32>>) -> Vec2<i32> {
        encoded.0
    }

    proof fn lemma_round_trip(x: Self) {
    }

    fn std140_encode(self) -> (e: Aligned8<Vec2<i32>>) {
        Aligned8(self)
    }

    fn std140_decode(encoded: Aligned8<Vec2<i32>>) -> (r: Vec2<i32>) {
        encoded.0
    }
}

impl Std140 for Vec3<i32> {
    type Encoded = Aligned16<Vec3<i32>>;

    open spec fn encoded(self) -> Aligned16<Vec3<i32>> {
        Aligned16(self)
    }

    open spec fn decoded(encoded: Aligned16<Vec3<i32>>) -> Vec3<i32> {
        encoded.0
    }

    proof fn lemma_round_trip(x: Self) {
    }

    fn std140_encode(self) -> (e: Aligned16<Vec3<i32>>) {
        Aligned16(self)
    }

    fn std140_decode(encoded: Aligned16<Vec3<i32>>) -> (r: Vec3<i32>) {
        encoded.0
    }
}

impl Std140 for Vec4<i32> {
    type Encoded = Aligned16<Vec4<i32>>;

    open spec fn encoded(self) -> Aligned16<Vec4<i32>> {
        Aligned16(self)
    }

    open spec fn decoded(encoded: Aligned16<Vec4<i32>>) -> Vec4<i32> {
        encoded.0
    }

    proof fn lemma_round_trip(x: Self) {
    }

    fn std140_encode(self) -> (e: Aligned16<Vec4<i32>>) {
        Aligned16(self)
    }

    fn std140_decode(encoded: Aligned16<Vec4<i32>>) -> (r: Vec4<i32>) {
        encoded.0
    }
}

impl Std140 for Vec2<u32> {
    type Encoded = Aligned8<Vec2<u32>>;

    open spec fn encoded(self) -> Aligned8<Vec2<u32>> {
        Aligned8(self)
    }

    open spec fn decoded(encoded: Aligned8<Vec2<u32>>) -> Vec2<u32> {
        encoded.0
    }

    proof fn lemma_round_trip(x: Self) {
    }

    fn std140_encode(self) -> (e: Aligned8<Vec2<u32>>) {
        Aligned8(self)
    }

    fn std140_decode(encoded: Aligned8<Vec2<u32>>) -> (r: Vec2<u32>) {
        encoded.0
    }
}

impl Std140 for Vec3<u32> {
    type Encoded = Aligned16<Vec3<u32>>;

    open spec fn encoded(self) -> Aligned16<Vec3<u32>> {
        Aligned16(self)
    }

    open spec fn decoded(encoded: Aligned16<Vec3<u32>>) -> Vec3<u32> {
        encoded.0
    }

    proof fn lemma_round_trip(x: Self) {
    }

    fn std140_encode(self) -> (e: Aligned16<Vec3<u32>>) {
        Aligned16(self)
    }

    fn std140_decode(encoded: Aligned16<Vec3<u32>>) -> (r: Vec3<u32>) {
        encoded.0
    }
}

impl Std140 for Vec4<u32> {
    type Encoded = Aligned16<Vec4<u32>>;

    open spec fn encoded(self) -> Aligned16<Vec4<u32>> {
        Aligned16(self)
    }

    open spec fn decoded(encoded: Aligned16<Vec4<u32>>) -> Vec4<u32> {
        encoded.0
    }

    proof fn lemma_round_trip(x: Self) {
    }

    fn std140_encode(self) -> (e: Aligned16<Vec4<u32>>) {
        Aligned16(self)
    }

    fn std140_decode(encoded: Aligned16<Vec4<u32>>) -> (r: Vec4<u32>) {
        encoded.0
    }
}

impl Std140 for Vec2<bool> {
    type Encoded = Aligned8<Vec2<Aligned4<bool>>>;

    open spec fn encoded(self) -> Aligned8<Vec2<Aligned4<bool>>> {
        Aligned8(Vec2([Aligned4(self.0[0]), Aligned4(self.0[1])]))
    }

    open spec fn decoded(encoded: Aligned8<Vec2<Aligned4<bool>>>) -> Vec2<bool> {
        Vec2([encoded.0.0[0].0, encoded.0.0[1].0])
    }

    proof fn lemma_round_trip(x: Self) {
        let y = Self::decoded(x.encoded());
        assert(y.0 =~= x.0);
    }

    fn std140_encode(self) -> (e: Aligned8<Vec2<Aligned4<bool>>>) {
        let x = self.0[0];
        let y = self.0[1];
        Aligned8(Vec2([Aligned4(x), Aligned4(y)]))
    }

    fn std140_decode(encoded: Aligned8<Vec2<Aligned4<bool>>>) -> (r: Vec2<bool>) {
        let x = encoded.0.0[0].0;
        let y = encoded.0.0[1].0;
        Vec2([x, y])
    }
}

impl Std140 for Vec3<bool> {
    type Encoded = Aligned16<Vec3<bool>>;

    open spec fn encoded(self) -> Aligned16<Vec3<bool>> {
        Aligned16(self)
    }

    open spec fn decoded(encoded: Aligned16<Vec3<bool>>) -> Vec3<bool> {
        encoded.0
    }

    proof fn lemma_round_trip(x: Self) {
    }

    fn std140_encode(self) -> (e: Aligned16<Vec3<bool>>) {
        Aligned16(self)
    }

    fn std140_decode(encoded: Aligned16<Vec3<bool>>) -> (r: Vec3<bool>) {
        encoded.0
    }
}

impl Std140 for Vec4<bool> {
    type Encoded = Aligned16<Vec4<bool>>;

    open spec fn encoded(self) -> Aligned16<Vec4<bool>> {
        Aligned16(self)
    }

    open spec fn decoded(encoded: Aligned16<Vec4<bool>>) -> Vec4<bool> {
        encoded.0
    }

    proof fn lemma_round_trip(x: Self) {
    }

    fn std140_encode(self) -> (e: Aligned16<Vec4<bool>>) {
        Aligned16(self)
    }

    fn std140_decode(encoded: Aligned16<Vec4<bool>>) -> (r: Vec4<bool>) {
        encoded.0
    }
}

/// Type wrapper for values inside arrays.
#[derive(Clone, Copy, Debug, PartialEq, Eq, Hash, PartialOrd, Ord)]
pub struct Arr<T>(pub T);

impl<T: Layout> Layout for Arr<T> {
    open spec fn layout_size() -> nat {
        T::layout_size()
    }

    open spec fn layout_align() -> nat {
        T::layout_align()
    }

    fn size() -> (r: usize) {
        T::size()
    }

    fn align() -> (r: usize) {
        T::align()
    }
}

impl<T: Std140> Std140 for Arr<T> {
    type Encoded = Aligned16<T::Encoded>;

    open spec fn encoded(self) -> Aligned16<T::Encoded> {
        Aligned16(self.0.encoded())
    }

    open spec fn decoded(encoded: Aligned16<T::Encoded>) -> Arr<T> {
        Arr(T::decoded(encoded.0))
    }

    proof fn lemma_round_trip(x: Self) {
        T::lemma_round_trip(x.0);
    }

    fn std140_encode(self) -> (e: Aligned16<T::Encoded>) {
        Aligned16(self.0.std140_encode())
    }

    fn std140_decode(encoded: Aligned16<T::Encoded>) -> (r: Arr<T>) {
        Arr(T::std140_decode(encoded.0))
    }
}

/// Size in bytes that the `std140` representation of `T` takes under the std140 rule.
pub fn encoded_size<T: Std140>() -> (r: usize)
    requires
        <T::Encoded as Layout>::layout_size() <= usize::MAX,
        <T::Encoded as Layout>::layout_align() <= usize::MAX,
    ensures
        r == <T::Encoded as Layout>::layout_size(),
{
    <T::Encoded as Layout>::size()
}

/// Alignment in bytes that the `std140` representation of `T` has under the std140 rule.
pub fn encoded_align<T: Std140>() -> (r: usize)
    requires
        <T::Encoded as Layout>::layout_align() <= usize::MAX,
    ensures
        r == <T::Encoded as Layout>::layout_align(),
{
    <T::Encoded as Layout>::align()
}


/// The `std140` representation of a scalar or a vector only places it: component `i` of the
/// representation is component `i` of the value (for vectors of booleans, each component in a
/// 4-byte slot of its own).
pub proof fn law_std140_encoding_keeps_components()
    ensures
        forall|v: i32| #[trigger] v.encoded() == v,
        forall|v: u32| #[trigger] v.encoded() == v,
        forall|v: bool| (#[trigger] v.encoded()).0 == v,
        forall|v: Vec2<i32>, i: int| 0 <= i < 2 ==> #[trigger] v.encoded().0.0[i] == v.0[i],
        forall|v: Vec3<i32>, i: int| 0 <= i < 3 ==> #[trigger] v.encoded().0.0[i] == v.0[i],
        forall|v: Vec4<i32>, i: int| 0 <= i < 4 ==> #[trigger] v.encoded().0.0[i] == v.0[i],
        forall|v: Vec2<u32>, i: int| 0 <= i < 2 ==> #[trigger] v.encoded().0.0[i] == v.0[i],
        forall|v: Vec3<u32>, i: int| 0 <= i < 3 ==> #[trigger] v.encoded().0.0[i] == v.0[i],
        forall|v: Vec4<u32>, i: int| 0 <= i < 4 ==> #[trigger] v.encoded().0.0[i] == v.0[i],
        forall|v: Vec2<bool>, i: int| 0 <= i < 2 ==> #[trigger] v.encoded().0.0[i].0 == v.0[i],
        forall|v: Vec3<bool>, i: int| 0 <= i < 3 ==> #[trigger] v.encoded().0.0[i] == v.0[i],
        forall|v: Vec4<bool>, i: int| 0 <= i < 4 ==> #[trigger] v.encoded().0.0[i] == v.0[i],
{
}

/// The `std140` representation of an array element is the element's own representation, in a
/// slot of its own.
pub proof fn law_std140_array_element<T: Std140>(x: Arr<T>)
    ensures
        x.encoded().0 == x.0.encoded(),
{
}

/// The sizes and alignments the std140 rule gives scalars and vectors: 4 bytes for scalars
/// (booleans included), 8 for two-component vectors, 16 for three- and four-component ones; an
/// array element takes a full 16-byte slot.
pub proof fn law_std140_sizes()
    ensures
        <<i32 as Std140>::Encoded as Layout>::layout_size() == 4,
        <<i32 as Std140>::Encoded as Layout>::layout_align() == 4,
        <<u32 as Std140>::Encoded as Layout>::layout_size() == 4,
        <<u32 as Std140>::Encoded as Layout>::layout_align() == 4,
        <<bool as Std140>::Encoded as Layout>::layout_size() == 4,
        <<bool as Std140>::Encoded as Layout>::layout_align() == 4,
        <<Vec2<i32> as Std140>::Encoded as Layout>::layout_size() == 8,
        <<Vec2<i32> as Std140>::Encoded as Layout>::layout_align() == 8,
        <<Vec3<i32> as Std140>::Encoded as Layout>::layout_size() == 16,
        <<Vec3<i32> as Std140>::Encoded as Layout>::layout_align() == 16,
        <<Vec4<i32> as Std140>::Encoded as Layout>::layout_size() == 16,
        <<Vec4<i32> as Std140>::Encoded as Layout>::layout_align() == 16,
        <<Vec2<u32> as Std140>::Encoded as Layout>::layout_size() == 8,
        <<Vec2<u32> as Std140>::Encoded as Layout>::layout_align() == 8,
        <<Vec3<u32> as Std140>::Encoded as Layout>::layout_size() == 16,
        <<Vec3<u32> as Std140>::Encoded as Layout>::layout_align() == 16,
        <<Vec4<u32> as Std140>::Encoded as Layout>::layout_size() == 16,
        <<Vec4<u32> as Std140>::Encoded as Layout>::layout_align() == 16,
        <<Vec2<bool> as Std140>::Encoded as Layout>::layout_size() == 8,
        <<Vec2<bool> as Std140>::Encoded as Layout>::layout_align() == 8,
        <<Vec3<bool> as Std140>::Encoded as Layout>::layout_size() == 16,
        <<Vec3<bool> as Std140>::Encoded as Layout>::layout_align() == 16,
        <<Vec4<bool> as Std140>::Encoded as Layout>::layout_size() == 16,
        <<Vec4<bool> as Std140>::Encoded as Layout>::layout_align() == 16,
        <<Arr<i32> as Std140>::Encoded as Layout>::layout_size() == 16,
        <<Arr<i32> as Std140>::Encoded as Layout>::layout_align() == 16,
{
    assert(round_up(4, 4) == 4);
    assert(round_up(8, 8) == 8);
    assert(round_up(12, 16) == 16);
    assert(round_up(16, 16) == 16);
    assert(round_up(3, 16) == 16);
    assert(round_up(4, 16) == 16);
    assert(round_up(1, 4) == 4);
}

} // verus!
