//! Single-slot latest-value exchange between one producer and one consumer.
//!
//! `Buffer` holds two slots: `r`, the currently published value, and `w`,
//! the scratch slot owned by the producer. A publish writes the new value
//! into the scratch slot and then swaps the roles of the two slots, so the
//! consumer always sees either the previous published value or the new one
//! in its entirety, never a mixture, and intermediate values are silently
//! dropped when the producer outpaces the consumer.

use vstd::prelude::*;

verus! {

/// A two-slot hand-off cell: `r` is the published slot read by the
/// consumer, `w` is the producer's private scratch slot.
pub struct Buffer<T> {
    pub r: T,
    pub w: T,
}

/// The state of a buffer after one publish of `value`: the new value is
/// published and the previously published value becomes the scratch slot.
pub open spec fn spec_publish<T>(b: Buffer<T>, value: T) -> Buffer<T> {
    Buffer { r: value, w: b.r }
}

/// The state of a buffer after publishing every element of `values` in order.
pub open spec fn spec_publish_all<T>(b: Buffer<T>, values: Seq<T>) -> Buffer<T>
    decreases values.len(),
{
    if values.len() == 0 {
        b
    } else {
        spec_publish_all(spec_publish(b, values[0]), values.drop_first())
    }
}

impl<T> Buffer<T> {
    /// Creates a buffer whose two slots each hold a value produced by `f`.
    pub fn with_constructor<F: Fn() -> T>(f: F) -> (s: Self)
        requires
            call_requires(f, ()),
        ensures
            call_ensures(f, (), s.r),
            call_ensures(f, (), s.w),
    {
        Self { r: f(), w: f() }
    }

    /// Publishes `value`: it becomes the published slot, and the previously
    /// published value is demoted to the scratch slot. Values published
    /// earlier and never read are dropped, never mixed into the result.
    pub fn update(&mut self, value: T)
        ensures
            *final(self) == spec_publish(*old(self), value),
            final(self).r == value,
            final(self).w == old(self).r,
    {
        self.w = value;
        core::mem::swap(&mut self.r, &mut self.w);
    }

    /// Returns the currently published value, whole: exactly the value of
    /// the most recent `update`, or the initial published slot if none.
    pub fn read(&self) -> (value: &T)
        ensures
            *value == self.r,
    {
        &self.r
    }
}

/// Latest-value law: after any non-empty sequence of publishes, the
/// published slot holds exactly the last value published, never an earlier
/// one and never a combination.
pub proof fn lemma_latest_value<T>(b: Buffer<T>, values: Seq<T>)
    requires
        values.len() > 0,
    ensures
        spec_publish_all(b, values).r == values.last(),
    decreases values.len(),
{
    let published = spec_publish(b, values[0]);
    if values.len() == 1 {
        assert(spec_publish_all(published, values.drop_first()) == published);
        assert(values.last() == values[0]);
    } else {
        lemma_latest_value(published, values.drop_first());
        assert(values.drop_first().last() == values.last());
    }
}

} // verus!
