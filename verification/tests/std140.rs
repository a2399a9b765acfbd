use luminance_gl::std140::{
    encoded_align, encoded_size, Aligned16, Aligned32, Aligned4, Aligned8, Arr, Layout, Std140, Vec2, Vec3, Vec4,
};

/// Check the size and alignment that the std140 rule gives the representation of `T`, as the
/// library's layout model computes them (the Rust layout of the wrappers is not checked: they
/// carry no alignment attribute).
fn assert_model_size_align<T>(size: usize, align: usize)
where
    T: Std140,
{
    assert_eq!(encoded_size::<T>(), size);
    assert_eq!(encoded_align::<T>(), align);
}

#[test]
fn i32() {
    assert_model_size_align::<i32>(4, 4);
}

#[test]
fn ivec2() {
    assert_model_size_align::<Vec2<i32>>(8, 8);
}

#[test]
fn ivec3() {
    assert_model_size_align::<Vec3<i32>>(16, 16);
}

#[test]
fn ivec4() {
    assert_model_size_align::<Vec4<i32>>(16, 16);
}

#[test]
fn u32() {
    assert_model_size_align::<u32>(4, 4);
}

#[test]
fn uvec2() {
    assert_model_size_align::<Vec2<u32>>(8, 8);
}

#[test]
fn uvec3() {
    assert_model_size_align::<Vec3<i32>>(16, 16);
}

#[test]
fn uvec4() {
    assert_model_size_align::<Vec4<i32>>(16, 16);
}

#[test]
fn bool() {
    assert_model_size_align::<bool>(4, 4);
}

#[test]
fn bvec2() {
    assert_model_size_align::<Vec2<bool>>(8, 8);
}

#[test]
fn bvec3() {
    assert_model_size_align::<Vec3<bool>>(16, 16);
}

#[test]
fn bvec4() {
    assert_model_size_align::<Vec4<bool>>(16, 16);
}

#[test]
fn layout_model_gives_arrayed_scalars_a_full_slot() {
    assert_model_size_align::<Arr<i32>>(16, 16);
    assert_model_size_align::<Arr<Vec2<u32>>>(16, 16);
    assert_model_size_align::<Arr<Vec3<bool>>>(16, 16);
    assert_model_size_align::<Arr<Arr<bool>>>(16, 16);
}

#[test]
fn encoding_round_trips() {
    let v = Vec2([true, false]);
    let e = v.std140_encode();
    assert_eq!(e.0 .0[0], Aligned4(true));
    assert_eq!(<Vec2<bool> as Std140>::std140_decode(e), v);

    let a = Arr(Vec3([1i32, -2, 3]));
    let e = a.std140_encode();
    assert_eq!(e, Aligned16(Aligned16(Vec3([1i32, -2, 3]))));
    assert_eq!(<Arr<Vec3<i32>> as Std140>::std140_decode(e), a);

    assert_eq!(<bool as Std140>::std140_decode(true.std140_encode()), true);
    assert_eq!(7u32.std140_encode(), 7u32);
}

#[test]
fn layout_model_pads_aligned_wrappers() {
    assert_eq!(<Aligned16<u32> as Layout>::size(), 16);
    assert_eq!(<Aligned16<Aligned16<u32>> as Layout>::size(), 16);
    assert_eq!(<Aligned16<u32> as Layout>::align(), 16);
    assert_eq!(<Aligned4<bool> as Layout>::size(), 4);
    assert_eq!(<Aligned8<Vec3<u32>> as Layout>::size(), 16);
    assert_eq!(<Aligned8<Vec3<u32>> as Layout>::align(), 8);
    assert_eq!(<Aligned32<Vec2<i32>> as Layout>::size(), 32);
}
