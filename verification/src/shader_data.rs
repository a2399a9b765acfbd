//! Shader data: arrays of values shared with shaders through a uniform buffer.
//!
//! The buffer keeps a host copy of its items in their `std140` array form (each item in a
//! 16-bytes slot under the std140 rule); the GPU buffer mirrors that copy, slot by slot. Writes need the GPU buffer to be
//! mapped, which the caller reports with a flag.
use vstd::prelude::*;

use crate::std140::{Aligned16, Std140};

verus! {

/// Errors that can happen while accessing shader data.
#[derive(Clone, Copy, Debug, PartialEq, Eq, Structural)]
pub enum ShaderDataError {
    /// The index is out of the buffer's bounds.
    OutOfBounds { index: usize },
    /// The buffer could not be mapped to write an item.
    CannotSetData { index: usize },
    /// The buffer could not be mapped to replace its items.
    CannotReplaceData,
}

/// A shader data buffer holding values of type `T`.
pub struct ShaderDataBuffer<T: Std140> {
    items: Vec<Aligned16<T::Encoded>>,
}

/// The `std140` array slot of a value.
pub open spec fn slot<T: Std140>(x: T) -> Aligned16<T::Encoded> {
    Aligned16(x.encoded())
}

impl<T: Std140> ShaderDataBuffer<T> {
    /// The values held, in order.
    pub closed spec fn values(&self) -> Seq<T> {
        Seq::new(self.items@.len(), |i: int| T::decoded(self.items@[i].0))
    }

    /// The slots held, in order: the std140 array slots that the GPU buffer holds, each to be
    /// written at a 16-bytes stride.
    pub closed spec fn slots(&self) -> Seq<Aligned16<T::Encoded>> {
        self.items@
    }

    /// The slots always stand for the values.
    pub proof fn lemma_slots_are_values(&self)
        ensures
            self.slots().len() == self.values().len(),
            forall|i: int| 0 <= i < self.values().len() ==> T::decoded(#[trigger] self.slots()[i].0) == self.values()[i],
    {
    }

    /// Create a buffer holding `values`.
    pub fn new_shader_data(values: Vec<T>) -> (r: Self)
        ensures
            r.values() == values@,
            r.slots() == values@.map_values(|x: T| slot(x)),
    {
        let mut items: Vec<Aligned16<T::Encoded>> = Vec::new();
        let mut k: usize = 0;
        while k < values.len()
            invariant
                k <= values.len(),
                items@ == values@.subrange(0, k as int).map_values(|x: T| slot(x)),
            decreases values.len() - k,
        {
            let e = values[k].std140_encode();
            items.push(Aligned16(e));
            proof {
                assert(values@.subrange(0, k + 1) == values@.subrange(0, k as int).push(values@[k as int]));
            }
            k = k + 1;
        }
        proof {
            assert(values@.subrange(0, values@.len() as int) == values@);
        }
        let r = ShaderDataBuffer { items };
        proof {
            assert forall|i: int| 0 <= i < values@.len() implies #[trigger] r.values()[i] == values@[i] by {
                T::lemma_round_trip(values@[i]);
            }
            assert(r.values() =~= values@);
        }
        r
    }

    /// Number of values held.
    pub fn len(&self) -> (r: usize)
        ensures
            r == self.values().len(),
    {
        self.items.len()
    }

    /// The slots to write into the GPU buffer, each at a 16-bytes stride.
    pub fn slots_exec(&self) -> (r: &Vec<Aligned16<T::Encoded>>)
        ensures
            r@ == self.slots(),
    {
        &self.items
    }

    /// The value at index `i`, or [`ShaderDataError::OutOfBounds`] when there is none.
    pub fn get_shader_data_at(&self, i: usize) -> (r: Result<T, ShaderDataError>)
        ensures
            i < self.values().len() ==> r == Ok::<T, ShaderDataError>(self.values()[i as int]),
            i >= self.values().len() ==> r == Err::<T, ShaderDataError>(ShaderDataError::OutOfBounds { index: i }),
    {
        if i < self.items.len() {
            Ok(T::std140_decode(self.items[i].0))
        } else {
            Err(ShaderDataError::OutOfBounds { index: i })
        }
    }

    /// Replace the value at index `i` with `x` and return the previous one.
    ///
    /// `mapped` tells whether the GPU buffer could be mapped; when it could not, nothing changes
    /// and [`ShaderDataError::CannotSetData`] is returned.
    pub fn set_shader_data_at(&mut self, i: usize, x: T, mapped: bool) -> (r: Result<T, ShaderDataError>)
        requires
            mapped ==> i < old(self).values().len(),
        ensures
            !mapped ==> r == Err::<T, ShaderDataError>(ShaderDataError::CannotSetData { index: i }),
            !mapped ==> final(self).slots() == old(self).slots(),
            mapped ==> r == Ok::<T, ShaderDataError>(old(self).values()[i as int]),
            mapped ==> final(self).values() == old(self).values().update(i as int, x),
            mapped ==> final(self).slots() == old(self).slots().update(i as int, slot(x)),
    {
        if !mapped {
            return Err(ShaderDataError::CannotSetData { index: i });
        }
        let prev = T::std140_decode(self.items[i].0);
        let e = x.std140_encode();
        self.items.set(i, Aligned16(e));
        proof {
            T::lemma_round_trip(x);
            assert(self.values() =~= old(self).values().update(i as int, x));
        }
        Ok(prev)
    }

    /// Replace the first values with the ones of `values`, as many as both hold.
    ///
    /// `mapped` tells whether the GPU buffer could be mapped; when it could not, nothing changes
    /// and [`ShaderDataError::CannotReplaceData`] is returned.
    pub fn set_shader_data_values(&mut self, values: Vec<T>, mapped: bool) -> (r: Result<(), ShaderDataError>)
        ensures
            !mapped ==> r == Err::<(), ShaderDataError>(ShaderDataError::CannotReplaceData),
            !mapped ==> final(self).slots() == old(self).slots(),
            mapped ==> r == Ok::<(), ShaderDataError>(()),
            final(self).values().len() == old(self).values().len(),
            mapped ==> forall|k: int|
                0 <= k < final(self).values().len() ==> #[trigger] final(self).values()[k] == if k < values@.len() {
                    values@[k]
                } else {
                    old(self).values()[k]
                },
    {
        if !mapped {
            return Err(ShaderDataError::CannotReplaceData);
        }
        let n = self.items.len();
        let mut k: usize = 0;
        while k < n && k < values.len()
            invariant
                k <= n,
                k <= values.len(),
                n == old(self).items@.len(),
                self.items@.len() == n,
                forall|j: int| 0 <= j < k ==> #[trigger] T::decoded(self.items@[j].0) == values@[j],
                forall|j: int| k <= j < n ==> #[trigger] self.items@[j] == old(self).items@[j],
            decreases n - k,
        {
            let e = values[k].std140_encode();
            proof {
                T::lemma_round_trip(values@[k as int]);
            }
            self.items.set(k, Aligned16(e));
            k = k + 1;
        }
        proof {
            assert forall|j: int| 0 <= j < self.values().len() implies #[trigger] self.values()[j] == if j < values@.len() {
                values@[j]
            } else {
                old(self).values()[j]
            } by {
                if j >= values@.len() {
                    assert(self.items@[j] == old(self).items@[j]);
                }
            }
        }
        Ok(())
    }
}

/// Reading a value just written gives that value back, and the other values are untouched.
pub proof fn law_shader_data_read_after_write<T: Std140>(b: ShaderDataBuffer<T>, i: int, x: T, j: int)
    requires
        0 <= i < b.values().len(),
        0 <= j < b.values().len(),
    ensures
        b.values().update(i, x)[i] == x,
        j != i ==> b.values().update(i, x)[j] == b.values()[j],
{
}

} // verus!
