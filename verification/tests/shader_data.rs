use luminance_gl::shader_data::{ShaderDataBuffer, ShaderDataError};
use luminance_gl::std140::{Aligned16, Vec2};

#[test]
fn shader_data_holds_its_values() {
    let buf = ShaderDataBuffer::new_shader_data(vec![1u32, 2, 3]);
    assert_eq!(buf.len(), 3);
    assert_eq!(buf.get_shader_data_at(0), Ok(1));
    assert_eq!(buf.get_shader_data_at(2), Ok(3));
    assert_eq!(buf.get_shader_data_at(3), Err(ShaderDataError::OutOfBounds { index: 3 }));
    // each value takes a 16-bytes slot
    assert_eq!(buf.slots_exec(), &vec![Aligned16(1u32), Aligned16(2), Aligned16(3)]);
}

#[test]
fn shader_data_read_after_write() {
    let mut buf = ShaderDataBuffer::new_shader_data(vec![Vec2([1i32, 2]), Vec2([3, 4])]);
    assert_eq!(buf.set_shader_data_at(1, Vec2([5, 6]), true), Ok(Vec2([3, 4])));
    assert_eq!(buf.get_shader_data_at(1), Ok(Vec2([5, 6])));
    assert_eq!(buf.get_shader_data_at(0), Ok(Vec2([1, 2])));
}

#[test]
fn shader_data_needs_a_mapped_buffer_to_change() {
    let mut buf = ShaderDataBuffer::new_shader_data(vec![true, false]);
    assert_eq!(buf.set_shader_data_at(0, false, false), Err(ShaderDataError::CannotSetData { index: 0 }));
    assert_eq!(buf.get_shader_data_at(0), Ok(true));
    assert_eq!(buf.set_shader_data_values(vec![false, true], false), Err(ShaderDataError::CannotReplaceData));
    assert_eq!(buf.get_shader_data_at(1), Ok(false));
}

#[test]
fn shader_data_values_replace_as_many_as_given() {
    let mut buf = ShaderDataBuffer::new_shader_data(vec![10i32, 20, 30]);
    assert_eq!(buf.set_shader_data_values(vec![-1, -2], true), Ok(()));
    assert_eq!(buf.get_shader_data_at(0), Ok(-1));
    assert_eq!(buf.get_shader_data_at(1), Ok(-2));
    assert_eq!(buf.get_shader_data_at(2), Ok(30));
    assert_eq!(buf.set_shader_data_values(vec![7, 8, 9, 10], true), Ok(()));
    assert_eq!(buf.len(), 3);
    assert_eq!(buf.get_shader_data_at(2), Ok(9));
}
