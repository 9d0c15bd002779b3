//! Attribute channels: growable sequences of values that are staged for the
//! device.

use vstd::prelude::*;

verus! {

/// How often the device should expect the staged contents of a channel to be
/// rewritten.
#[derive(Clone, Copy, Debug, PartialEq, Eq, Structural)]
pub enum UsageHint {
    /// Written once, drawn many times.
    Static,
    /// Rewritten now and then.
    Dynamic,
    /// Rewritten for every draw.
    Streaming,
}

/// A growable sequence of values of one type, together with the usage hint
/// under which it is staged for the device.
///
/// The view of a channel is the sequence of its values, oldest first.
pub struct AttributeChannel<T> {
    data: Vec<T>,
    usage: UsageHint,
}

impl<T> View for AttributeChannel<T> {
    type V = Seq<T>;

    closed spec fn view(&self) -> Seq<T> {
        self.data@
    }
}

/// Calls `Vec::capacity`. A vector's capacity is never below its length;
/// how much more is allocated is left to the allocator, and nothing is said
/// of it here.
#[verifier::external_body]
fn allocated<T>(data: &Vec<T>) -> (capacity: usize)
    ensures
        capacity >= data@.len(),
{
    data.capacity()
}

impl<T> AttributeChannel<T> {
    /// The usage hint the channel is currently staged under.
    pub closed spec fn spec_usage(&self) -> UsageHint {
        self.usage
    }

    /// An empty channel staged under `usage`.
    pub fn new(usage: UsageHint) -> (channel: Self)
        ensures
            channel@ == Seq::<T>::empty(),
            channel.spec_usage() == usage,
    {
        AttributeChannel { data: Vec::new(), usage }
    }

    /// Adds `value` at the end. Nothing is checked about the value itself.
    pub fn append(&mut self, value: T)
        ensures
            final(self)@ == old(self)@.push(value),
            final(self).spec_usage() == old(self).spec_usage(),
    {
        self.data.push(value);
    }

    /// Empties the channel. The backing storage is kept, so the next frame
    /// fills the same allocation again.
    pub fn clear(&mut self)
        ensures
            final(self)@ == Seq::<T>::empty(),
            final(self).spec_usage() == old(self).spec_usage(),
    {
        self.data.clear();
    }

    /// The number of values in the channel.
    pub fn length(&self) -> (n: usize)
        ensures
            n == self@.len(),
    {
        self.data.len()
    }

    /// The number of values that the backing storage holds without growing.
    /// It is at least the length; beyond that it is whatever the allocator
    /// gave.
    pub fn capacity(&self) -> (capacity: usize)
        ensures
            capacity >= self@.len(),
    {
        allocated(&self.data)
    }

    /// Restages the channel under `usage`; the values stay as they are.
    pub fn stage_for_device(&mut self, usage: UsageHint)
        ensures
            final(self)@ == old(self)@,
            final(self).spec_usage() == usage,
    {
        self.usage = usage;
    }

    /// The usage hint the channel is currently staged under.
    #[verifier::when_used_as_spec(spec_usage)]
    pub fn usage(&self) -> (usage: UsageHint)
        ensures
            usage == self.spec_usage(),
    {
        self.usage
    }

    /// The values of the channel in order, as the device reads them.
    pub fn values(&self) -> (values: &[T])
        ensures
            values@ == self@,
    {
        self.data.as_slice()
    }
}

} // verus!
