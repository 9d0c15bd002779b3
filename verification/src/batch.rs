//! The frame batch: the points queued for the next draw.

use vstd::prelude::*;
use crate::channel::AttributeChannel;
use crate::channel::UsageHint;

verus! {

/// One queued point.
pub ghost struct PointEntry<V, S> {
    pub position: V,
    pub color: V,
    pub size: S,
}

/// What a frame batch holds: the queued points, oldest first, and the size
/// given to points that are queued without one.
pub ghost struct BatchModel<V, S> {
    pub entries: Seq<PointEntry<V, S>>,
    pub default_size: S,
}

impl<V, S> BatchModel<V, S> {
    /// The batch with no point queued and the given default size.
    pub open spec fn empty(default_size: S) -> Self {
        BatchModel { entries: Seq::empty(), default_size }
    }

    /// The batch with a point of the default size queued behind the others.
    pub open spec fn add_point(self, position: V, color: V) -> Self {
        self.add_point_with_size(position, color, self.default_size)
    }

    /// The batch with a point of the given size queued behind the others. The
    /// default size stays as it is.
    pub open spec fn add_point_with_size(self, position: V, color: V, size: S) -> Self {
        BatchModel {
            entries: self.entries.push(PointEntry { position, color, size }),
            default_size: self.default_size,
        }
    }

    /// The batch with another default size. The queued points keep theirs.
    pub open spec fn set_default_size(self, size: S) -> Self {
        BatchModel { entries: self.entries, default_size: size }
    }

    /// The batch with no point queued.
    pub open spec fn clear(self) -> Self {
        Self::empty(self.default_size)
    }

    /// The number of queued points.
    pub open spec fn point_count(self) -> nat {
        self.entries.len()
    }

    /// The number of vertices that one draw call draws for the batch: one for
    /// each queued point. A batch in memory never holds more points than a
    /// `usize` counts; for any other the count stops at the largest `usize`.
    pub open spec fn vertex_count(self) -> usize {
        if self.point_count() <= usize::MAX {
            self.point_count() as usize
        } else {
            usize::MAX
        }
    }

    /// The position/colour channel: the position of point `k` at index `2k`,
    /// its colour at index `2k + 1`.
    pub open spec fn positions_colors(self) -> Seq<V> {
        Seq::new(
            2 * self.entries.len(),
            |i: int|
                if i % 2 == 0 {
                    self.entries[i / 2].position
                } else {
                    self.entries[i / 2].color
                },
        )
    }

    /// The size channel: the size of point `k` at index `k`.
    pub open spec fn sizes(self) -> Seq<S> {
        Seq::new(self.entries.len(), |k: int| self.entries[k].size)
    }

    /// The batch after one request for a point.
    pub open spec fn queue(self, call: PointCall<V, S>) -> Self {
        match call.size {
            Some(size) => self.add_point_with_size(call.position, call.color, size),
            None => self.add_point(call.position, call.color),
        }
    }

    /// The batch after the requests of `calls`, made in order.
    pub open spec fn queue_all(self, calls: Seq<PointCall<V, S>>) -> Self
        decreases calls.len(),
    {
        if calls.len() == 0 {
            self
        } else {
            self.queue_all(calls.drop_last()).queue(calls.last())
        }
    }
}

/// One request for a point: with a size of its own, or with `None` for the
/// default size of the batch.
pub ghost struct PointCall<V, S> {
    pub position: V,
    pub color: V,
    pub size: Option<S>,
}

/// The points queued for the next draw, stored as the device reads them: one
/// channel in which positions and colours alternate, and one channel of sizes.
pub struct FrameBatch<V, S> {
    points: AttributeChannel<V>,
    sizes: AttributeChannel<S>,
    default_size: S,
}

impl<V, S> View for FrameBatch<V, S> {
    type V = BatchModel<V, S>;

    closed spec fn view(&self) -> BatchModel<V, S> {
        BatchModel {
            entries: Seq::new(
                self.sizes@.len(),
                |k: int|
                    PointEntry {
                        position: self.points@[2 * k],
                        color: self.points@[2 * k + 1],
                        size: self.sizes@[k],
                    },
            ),
            default_size: self.default_size,
        }
    }
}

impl<V, S> FrameBatch<V, S> {
    /// Two values in the position/colour channel for each value in the size
    /// channel, and both channels staged for streaming.
    #[verifier::type_invariant]
    spec fn channels_agree(&self) -> bool {
        &&& self.points@.len() == 2 * self.sizes@.len()
        &&& self.points.spec_usage() == UsageHint::Streaming
        &&& self.sizes.spec_usage() == UsageHint::Streaming
    }
}

impl<V, S: Copy> FrameBatch<V, S> {
    /// An empty batch whose channels are staged for streaming.
    pub fn new(default_size: S) -> (batch: Self)
        ensures
            batch@ == BatchModel::<V, S>::empty(default_size),
    {
        let batch = FrameBatch {
            points: AttributeChannel::new(UsageHint::Streaming),
            sizes: AttributeChannel::new(UsageHint::Streaming),
            default_size,
        };
        assert(batch@.entries =~= Seq::<PointEntry<V, S>>::empty());
        batch
    }

    /// Moves the batch out and leaves an empty one behind, so that the
    /// channels can be filled one after the other.
    fn take(&mut self) -> (batch: Self)
        ensures
            batch == *old(self),
    {
        let mut batch = FrameBatch::new(self.default_size);
        std::mem::swap(self, &mut batch);
        batch
    }

    /// Queues a point of the default size: its position and then its colour
    /// go to the end of the position/colour channel, the default size to the
    /// end of the size channel.
    pub fn add_point(&mut self, position: V, color: V)
        ensures
            final(self)@ == old(self)@.add_point(position, color),
            final(self)@.positions_colors() == old(self)@.positions_colors().push(position).push(
                color,
            ),
            final(self)@.sizes() == old(self)@.sizes().push(old(self)@.default_size),
    {
        let size = self.default_size;
        self.add_point_with_size(position, color, size);
    }

    /// Queues a point of the given size: its position and then its colour go
    /// to the end of the position/colour channel, its size to the end of the
    /// size channel. The default size stays as it is.
    pub fn add_point_with_size(&mut self, position: V, color: V, size: S)
        ensures
            final(self)@ == old(self)@.add_point_with_size(position, color, size),
            final(self)@.positions_colors() == old(self)@.positions_colors().push(position).push(
                color,
            ),
            final(self)@.sizes() == old(self)@.sizes().push(size),
    {
        let batch = self.take();
        proof {
            use_type_invariant(&batch);
        }
        let FrameBatch { mut points, mut sizes, default_size } = batch;
        points.append(position);
        points.append(color);
        sizes.append(size);
        *self = FrameBatch { points, sizes, default_size };
        proof {
            assert(self@.entries =~= old(self)@.entries.push(PointEntry { position, color, size }));
            lemma_add_point_appends(old(self)@, position, color, size);
        }
    }

    /// Changes the size given to points that are queued without one from now
    /// on. The points already queued keep theirs.
    pub fn set_default_size(&mut self, size: S)
        ensures
            final(self)@ == old(self)@.set_default_size(size),
    {
        proof {
            use_type_invariant(&*self);
        }
        self.default_size = size;
    }

    /// The size given to points that are queued without one.
    pub fn default_size(&self) -> (size: S)
        ensures
            size == self@.default_size,
    {
        self.default_size
    }

    /// Whether no point is queued.
    pub fn is_empty(&self) -> (empty: bool)
        ensures
            empty == (self@.point_count() == 0),
    {
        proof {
            use_type_invariant(self);
        }
        self.points.length() == 0
    }

    /// The number of queued points.
    pub fn point_count(&self) -> (count: usize)
        ensures
            count == self@.point_count(),
    {
        proof {
            use_type_invariant(self);
        }
        self.points.length() / 2
    }

    /// Drops every queued point, so that both channels are empty. The
    /// channels keep their storage, and the default size stays as it is. On
    /// an empty batch nothing changes.
    pub fn clear(&mut self)
        ensures
            final(self)@ == old(self)@.clear(),
            final(self)@.positions_colors() == Seq::<V>::empty(),
            final(self)@.sizes() == Seq::<S>::empty(),
            old(self)@.point_count() == 0 ==> final(self)@ == old(self)@,
    {
        let batch = self.take();
        proof {
            use_type_invariant(&batch);
        }
        let FrameBatch { mut points, mut sizes, default_size } = batch;
        points.clear();
        sizes.clear();
        *self = FrameBatch { points, sizes, default_size };
        proof {
            assert(self@.entries =~= Seq::<PointEntry<V, S>>::empty());
            assert(self@.positions_colors() =~= Seq::<V>::empty());
            assert(self@.sizes() =~= Seq::<S>::empty());
            if old(self)@.point_count() == 0 {
                assert(old(self)@.entries =~= Seq::<PointEntry<V, S>>::empty());
            }
        }
    }

    /// The position/colour channel, staged for streaming.
    pub fn points(&self) -> (channel: &AttributeChannel<V>)
        ensures
            channel@ == self@.positions_colors(),
            channel.spec_usage() == UsageHint::Streaming,
    {
        proof {
            use_type_invariant(self);
            assert(self.points@ =~= self@.positions_colors());
        }
        &self.points
    }

    /// The size channel, staged for streaming.
    pub fn sizes(&self) -> (channel: &AttributeChannel<S>)
        ensures
            channel@ == self@.sizes(),
            channel.spec_usage() == UsageHint::Streaming,
    {
        proof {
            use_type_invariant(self);
            assert(self.sizes@ =~= self@.sizes());
        }
        &self.sizes
    }
}

/// Queuing a point appends its position and then its colour to the
/// position/colour channel and its size to the size channel: the one grows
/// by two values, the other by one.
pub proof fn lemma_add_point_appends<V, S>(
    batch: BatchModel<V, S>,
    position: V,
    color: V,
    size: S,
)
    ensures
        batch.add_point_with_size(position, color, size).positions_colors()
            == batch.positions_colors().push(position).push(color),
        batch.add_point_with_size(position, color, size).sizes() == batch.sizes().push(size),
        batch.add_point(position, color).positions_colors() == batch.positions_colors().push(
            position,
        ).push(color),
        batch.add_point(position, color).sizes() == batch.sizes().push(batch.default_size),
{
    assert(batch.add_point_with_size(position, color, size).positions_colors()
        =~= batch.positions_colors().push(position).push(color));
    assert(batch.add_point_with_size(position, color, size).sizes() =~= batch.sizes().push(size));
    assert(batch.add_point(position, color).positions_colors() =~= batch.positions_colors().push(
        position,
    ).push(color));
    assert(batch.add_point(position, color).sizes() =~= batch.sizes().push(batch.default_size));
}

/// Requests for points change nothing but the end of the queue: the points
/// queued before stay where they are, one point is queued per request, and the
/// default size is the same afterwards, whether or not a request brought a
/// size of its own.
pub proof fn lemma_queue_all_extends<V, S>(start: BatchModel<V, S>, calls: Seq<PointCall<V, S>>)
    ensures
        start.queue_all(calls).default_size == start.default_size,
        start.queue_all(calls).entries.len() == start.entries.len() + calls.len(),
        forall|k: int|
            0 <= k < start.entries.len() ==> start.queue_all(calls).entries[k] == start.entries[k],
        forall|k: int|
            0 <= k < calls.len() ==> #[trigger] start.queue_all(calls).entries[start.entries.len()
                + k] == (PointEntry {
                    position: calls[k].position,
                    color: calls[k].color,
                    size: match calls[k].size {
                        Some(size) => size,
                        None => start.default_size,
                    },
                }),
    decreases calls.len(),
{
    if calls.len() > 0 {
        lemma_queue_all_extends(start, calls.drop_last());
    }
}

/// Within one frame, that is from an empty batch on, `n` requests for points
/// leave `2 * n` values in the position/colour channel and `n` values in the
/// size channel, and some point is queued exactly when a request was made.
pub proof fn lemma_channel_lengths<V, S>(start: BatchModel<V, S>, calls: Seq<PointCall<V, S>>)
    requires
        start.point_count() == 0,
    ensures
        start.queue_all(calls).positions_colors().len() == 2 * calls.len(),
        start.queue_all(calls).sizes().len() == calls.len(),
        start.queue_all(calls).point_count() == calls.len(),
        (start.queue_all(calls).point_count() == 0) <==> (calls.len() == 0),
{
    lemma_queue_all_extends(start, calls);
}

/// Within one frame, the position/colour channel holds the position of the
/// `k`-th request at index `2 * k` and its colour at index `2 * k + 1`, and
/// the size channel holds at index `k` the size that the request brought,
/// or the default size of the batch where it brought none.
pub proof fn lemma_interleaving<V, S>(start: BatchModel<V, S>, calls: Seq<PointCall<V, S>>, k: int)
    requires
        start.point_count() == 0,
        0 <= k < calls.len(),
    ensures
        start.queue_all(calls).positions_colors()[2 * k] == calls[k].position,
        start.queue_all(calls).positions_colors()[2 * k + 1] == calls[k].color,
        start.queue_all(calls).sizes()[k] == match calls[k].size {
            Some(size) => size,
            None => start.default_size,
        },
{
    lemma_queue_all_extends(start, calls);
    assert(start.queue_all(calls).entries[start.entries.len() + k].position == calls[k].position);
}

/// In any batch, the position/colour channel is twice as long as the size
/// channel, and it holds the position of point `k` at index `2 * k` and its
/// colour at index `2 * k + 1`.
pub proof fn lemma_channels_of_batch<V, S>(batch: BatchModel<V, S>, k: int)
    requires
        0 <= k < batch.point_count(),
    ensures
        batch.positions_colors().len() == 2 * batch.point_count(),
        batch.sizes().len() == batch.point_count(),
        batch.positions_colors()[2 * k] == batch.entries[k].position,
        batch.positions_colors()[2 * k + 1] == batch.entries[k].color,
        batch.sizes()[k] == batch.entries[k].size,
{
}

} // verus!
