//! The point renderer: a frame batch, the handles of the shader that draws
//! it, and the draw session that submits it.

use vstd::prelude::*;
use crate::batch::BatchModel;
use crate::batch::FrameBatch;
use crate::batch::PointCall;
use crate::batch::lemma_channel_lengths;
use crate::channel::AttributeChannel;
use crate::channel::UsageHint;
use crate::session::DeviceOutcome;
use crate::session::DrawParams;
use crate::session::DrawSession;
use crate::session::RenderStep;
use crate::session::SessionState;
use crate::session::session_order;
use crate::session::session_script;
use crate::shader::HandleLookup;
use crate::shader::ShaderBindings;
use crate::shader::ShaderError;

verus! {

/// What a point renderer holds.
pub ghost struct RendererModel<V, S> {
    /// The handles of the shader inputs.
    pub bindings: ShaderBindings,
    /// The queued points and the default point size.
    pub batch: BatchModel<V, S>,
    /// The draw session.
    pub session: DrawSession,
}

impl<V, S> RendererModel<V, S> {
    /// Whether some point is queued.
    pub open spec fn needs_rendering(self) -> bool {
        self.batch.point_count() != 0
    }

    /// The renderer after the requests of `calls` for points, made in
    /// order.
    pub open spec fn queued(self, calls: Seq<PointCall<V, S>>) -> Self {
        RendererModel {
            bindings: self.bindings,
            batch: self.batch.queue_all(calls),
            session: self.session,
        }
    }

    /// What a draw session reads of the renderer: the handles, the number of
    /// queued points and the default point size.
    pub open spec fn draw_params(self) -> DrawParams<S> {
        DrawParams {
            bindings: self.bindings,
            point_count: self.batch.vertex_count(),
            point_size: self.batch.default_size,
        }
    }

    /// The renderer after a render pass was started, and what its caller is
    /// to do. The batch is as before.
    pub open spec fn begin_render(self, pass: usize) -> (Self, RenderStep<S>) {
        let (session, step) = DrawSession::spec_begin(pass, self.draw_params());
        (RendererModel { bindings: self.bindings, batch: self.batch, session }, step)
    }

    /// The renderer after the device has answered, and what its caller is to
    /// do. The batch is emptied when the session finishes, and only then.
    pub open spec fn advance_render(self, outcome: DeviceOutcome) -> (Self, RenderStep<S>) {
        let (session, step) = self.session.spec_advance(outcome, self.draw_params());
        let batch = if step is Finished {
            self.batch.clear()
        } else {
            self.batch
        };
        (RendererModel { bindings: self.bindings, batch, session }, step)
    }

    /// The renderer after the device has confirmed `n` commands in a row.
    pub open spec fn after_confirmations(self, n: nat) -> Self
        decreases n,
    {
        if n == 0 {
            self
        } else {
            self.after_confirmations((n - 1) as nat).advance_render(DeviceOutcome::Confirmed).0
        }
    }

    /// What the caller is to do once the device has confirmed `n` commands in
    /// a row.
    pub open spec fn step_after_confirmations(self, n: nat) -> RenderStep<S>
        recommends
            n > 0,
    {
        self.after_confirmations((n - 1) as nat).advance_render(DeviceOutcome::Confirmed).1
    }

    /// The renderer after a render pass in which the device confirmed every
    /// command.
    pub open spec fn rendered(self, pass: usize) -> Self {
        self.begin_render(pass).0.after_confirmations(session_order().len())
    }
}

/// Manages the display of short-lived points: they are queued during a
/// frame, drawn in one call and then forgotten.
pub struct PointRenderer<V, S> {
    bindings: ShaderBindings,
    batch: FrameBatch<V, S>,
    session: DrawSession,
}

impl<V, S> View for PointRenderer<V, S> {
    type V = RendererModel<V, S>;

    closed spec fn view(&self) -> RendererModel<V, S> {
        RendererModel { bindings: self.bindings, batch: self.batch@, session: self.session }
    }
}

impl<V, S: Copy> PointRenderer<V, S> {
    /// Creates a renderer from what the compiled shader program answered for
    /// its five inputs. Fails exactly when the program lacks one of them, and
    /// then names the first that it lacks. A new renderer has no point
    /// queued, gives points the size `point_size` and is at rest.
    pub fn new(lookup: HandleLookup, point_size: S) -> (created: Result<Self, ShaderError>)
        ensures
            match ShaderBindings::spec_resolve(lookup) {
                Ok(bindings) => created matches Ok(renderer) && renderer@ == (RendererModel {
                    bindings,
                    batch: BatchModel::<V, S>::empty(point_size),
                    session: DrawSession::AtRest,
                }),
                Err(error) => created matches Err(reported) && reported == error,
            },
    {
        match ShaderBindings::resolve(lookup) {
            Ok(bindings) => Ok(
                PointRenderer {
                    bindings,
                    batch: FrameBatch::new(point_size),
                    session: DrawSession::AtRest,
                },
            ),
            Err(error) => Err(error),
        }
    }

    /// Indicates whether some points have to be drawn: false exactly when no
    /// point was queued since the batch was last empty.
    pub fn needs_rendering(&self) -> (needed: bool)
        ensures
            needed == self@.needs_rendering(),
    {
        !self.batch.is_empty()
    }

    /// Sets the size of the points that are queued without a size of their
    /// own from now on. The points already queued keep theirs.
    pub fn set_point_size(&mut self, pt_size: S)
        ensures
            final(self)@ == (RendererModel {
                batch: old(self)@.batch.set_default_size(pt_size),
                ..old(self)@
            }),
    {
        self.batch.set_default_size(pt_size);
    }

    /// Queues a point of the current point size for the next draw. Points do
    /// not outlive the draw: queue them again in every frame.
    pub fn draw_point(&mut self, pt: V, color: V)
        ensures
            final(self)@ == (RendererModel {
                batch: old(self)@.batch.add_point(pt, color),
                ..old(self)@
            }),
            final(self)@.batch.positions_colors() == old(self)@.batch.positions_colors().push(
                pt,
            ).push(color),
            final(self)@.batch.sizes() == old(self)@.batch.sizes().push(
                old(self)@.batch.default_size,
            ),
    {
        self.batch.add_point(pt, color);
    }

    /// Queues a point of the given size for the next draw. The current point
    /// size stays as it is.
    pub fn draw_point_with_size(&mut self, pt: V, color: V, size: S)
        ensures
            final(self)@ == (RendererModel {
                batch: old(self)@.batch.add_point_with_size(pt, color, size),
                ..old(self)@
            }),
            final(self)@.batch.positions_colors() == old(self)@.batch.positions_colors().push(
                pt,
            ).push(color),
            final(self)@.batch.sizes() == old(self)@.batch.sizes().push(size),
    {
        self.batch.add_point_with_size(pt, color, size);
    }

    /// What a draw session reads of the renderer.
    pub fn draw_params(&self) -> (params: DrawParams<S>)
        ensures
            params == self@.draw_params(),
    {
        DrawParams {
            bindings: self.bindings,
            point_count: self.batch.point_count(),
            point_size: self.batch.default_size(),
        }
    }

    /// Starts a render pass and says what its caller is to do.
    ///
    /// With no point queued that is nothing: no command is issued and the
    /// renderer is at rest. Else the first command of the session is issued.
    /// The batch is as before. A session that was under way is dropped.
    ///
    /// Points are meant to be queued before the pass starts. One that is
    /// queued while the pass is under way joins the batch at once: the draw
    /// call counts the points that are queued when it is issued, and the end
    /// of the pass empties the batch whatever it holds.
    pub fn begin_render(&mut self, pass: usize) -> (step: RenderStep<S>)
        ensures
            (final(self)@, step) == old(self)@.begin_render(pass),
            final(self)@.batch == old(self)@.batch,
            !old(self)@.needs_rendering() ==> step is Idle && final(self)@.session
                == DrawSession::AtRest,
    {
        let params = self.draw_params();
        let (session, step) = DrawSession::begin(pass, &params);
        self.session = session;
        step
    }

    /// Takes the device's answer to the command issued last and says what
    /// the caller is to do next.
    ///
    /// When the device confirms the last command of the session, the batch is
    /// emptied and the renderer is at rest. When it reports an error, the
    /// session is given up with that error; the batch is as before. At rest,
    /// nothing happens.
    pub fn advance_render(&mut self, outcome: DeviceOutcome) -> (step: RenderStep<S>)
        ensures
            (final(self)@, step) == old(self)@.advance_render(outcome),
            step is Finished ==> final(self)@.batch == old(self)@.batch.clear(),
            !(step is Finished) ==> final(self)@.batch == old(self)@.batch,
            outcome matches DeviceOutcome::Failed(error) ==> (old(self)@.session is Awaiting
                ==> step == RenderStep::<S>::Aborted(error) && final(self)@.session
                == DrawSession::AtRest),
    {
        let params = self.draw_params();
        let (session, step) = self.session.advance(outcome, &params);
        self.session = session;
        if let RenderStep::Finished = step {
            self.batch.clear();
        }
        step
    }

    /// The state of the draw session.
    pub fn session_state(&self) -> (state: SessionState)
        ensures
            state == self@.session.spec_state(),
    {
        self.session.state()
    }

    /// The draw session.
    pub fn session(&self) -> (session: DrawSession)
        ensures
            session == self@.session,
    {
        self.session
    }

    /// The handles of the shader inputs.
    pub fn bindings(&self) -> (bindings: ShaderBindings)
        ensures
            bindings == self@.bindings,
    {
        self.bindings
    }

    /// The size given to points that are queued without one.
    pub fn point_size(&self) -> (size: S)
        ensures
            size == self@.batch.default_size,
    {
        self.batch.default_size()
    }

    /// The position/colour channel: the position of the `k`-th queued point
    /// at index `2 * k`, its colour at index `2 * k + 1`. It is staged for
    /// streaming.
    pub fn points(&self) -> (channel: &AttributeChannel<V>)
        ensures
            channel@ == self@.batch.positions_colors(),
            channel.spec_usage() == UsageHint::Streaming,
    {
        self.batch.points()
    }

    /// The size channel: the size of the `k`-th queued point at index `k`.
    /// It is staged for streaming.
    pub fn sizes(&self) -> (channel: &AttributeChannel<S>)
        ensures
            channel@ == self@.batch.sizes(),
            channel.spec_usage() == UsageHint::Streaming,
    {
        self.batch.sizes()
    }
}

/// From an empty batch on, as after construction or after a finished render
/// pass, points have to be drawn exactly when a point was requested since.
pub proof fn lemma_needs_rendering_after_requests<V, S>(
    renderer: RendererModel<V, S>,
    calls: Seq<PointCall<V, S>>,
)
    requires
        !renderer.needs_rendering(),
    ensures
        renderer.queued(calls).needs_rendering() <==> calls.len() > 0,
{
    lemma_channel_lengths(renderer.batch, calls);
}

/// A render pass over a batch that holds points issues the commands of the
/// session script, one after each confirmation and in the script's order,
/// and finishes when the last is confirmed. The batch is untouched until
/// then; after it no point is queued and the renderer is at rest.
pub proof fn lemma_confirmed_pass_runs_script<V, S>(renderer: RendererModel<V, S>, pass: usize)
    requires
        renderer.needs_rendering(),
    ensures
        ({
            let script = session_script(pass, renderer.draw_params());
            let (started, first) = renderer.begin_render(pass);
            &&& script.len() == session_order().len()
            &&& first == RenderStep::Issue(script[0])
            &&& forall|n: nat|
                0 < n < script.len() ==> #[trigger] started.step_after_confirmations(n)
                    == RenderStep::Issue(script[n as int])
            &&& forall|n: nat|
                n < script.len() ==> (#[trigger] started.after_confirmations(n)).batch
                    == renderer.batch
            &&& started.step_after_confirmations(script.len()) == RenderStep::<S>::Finished
            &&& renderer.rendered(pass) == (RendererModel {
                bindings: renderer.bindings,
                batch: renderer.batch.clear(),
                session: DrawSession::AtRest,
            })
        }),
{
    let script = session_script(pass, renderer.draw_params());
    let started = renderer.begin_render(pass).0;
    assert forall|n: nat| n < script.len() implies (#[trigger] started.after_confirmations(
        n,
    )).batch == renderer.batch by {
        lemma_confirmations_keep_pace(renderer, pass, n);
    }
    assert forall|n: nat| 0 < n < script.len() implies #[trigger] started.step_after_confirmations(
        n,
    ) == RenderStep::Issue(script[n as int]) by {
        lemma_confirmations_keep_pace(renderer, pass, (n - 1) as nat);
        lemma_confirmations_keep_pace(renderer, pass, n);
    }
    lemma_confirmations_keep_pace(renderer, pass, (script.len() - 1) as nat);
}

/// While the device confirms the commands of a render pass over a batch that
/// holds points, the session awaits the outcome of one step after the other,
/// and neither the batch nor the handles change.
proof fn lemma_confirmations_keep_pace<V, S>(renderer: RendererModel<V, S>, pass: usize, n: nat)
    requires
        renderer.needs_rendering(),
        n < session_order().len(),
    ensures
        renderer.begin_render(pass).0.after_confirmations(n) == (RendererModel {
            bindings: renderer.bindings,
            batch: renderer.batch,
            session: DrawSession::Awaiting { step: session_order()[n as int], pass },
        }),
        session_order()[n as int].index() == n,
    decreases n,
{
    if n > 0 {
        lemma_confirmations_keep_pace(renderer, pass, (n - 1) as nat);
    }
}

/// A render pass over an empty batch issues no command: the renderer is at
/// rest at once, and nothing else about it changes.
pub proof fn lemma_empty_batch_is_not_drawn<V, S>(renderer: RendererModel<V, S>, pass: usize)
    requires
        !renderer.needs_rendering(),
    ensures
        renderer.begin_render(pass) == (
            RendererModel {
                bindings: renderer.bindings,
                batch: renderer.batch,
                session: DrawSession::AtRest,
            },
            RenderStep::<S>::Idle,
        ),
        renderer.rendered(pass) == renderer.begin_render(pass).0,
{
    lemma_rest_is_stable(renderer.begin_render(pass).0, session_order().len());
}

/// At rest, confirmations change nothing: no answer is awaited.
proof fn lemma_rest_is_stable<V, S>(renderer: RendererModel<V, S>, n: nat)
    requires
        renderer.session == DrawSession::AtRest,
    ensures
        renderer.after_confirmations(n) == renderer,
    decreases n,
{
    if n > 0 {
        lemma_rest_is_stable(renderer, (n - 1) as nat);
    }
}

/// After a render pass in which the device confirmed every command, both
/// channels are empty, however many points were queued before, and the
/// renderer is at rest with the handles and the point size it had.
pub proof fn lemma_render_empties_batch<V, S>(renderer: RendererModel<V, S>, pass: usize)
    ensures
        renderer.rendered(pass) == (RendererModel {
            bindings: renderer.bindings,
            batch: renderer.batch.clear(),
            session: DrawSession::AtRest,
        }),
        renderer.rendered(pass).batch.positions_colors().len() == 0,
        renderer.rendered(pass).batch.sizes().len() == 0,
        !renderer.rendered(pass).needs_rendering(),
{
    if renderer.needs_rendering() {
        lemma_confirmed_pass_runs_script(renderer, pass);
    } else {
        lemma_empty_batch_is_not_drawn(renderer, pass);
        assert(renderer.batch.entries =~= Seq::empty());
    }
}

/// Of two render passes with no point requested between them, the second
/// issues no command and changes nothing: the batch is empty after the first
/// and after the second.
pub proof fn lemma_second_render_is_idle<V, S>(
    renderer: RendererModel<V, S>,
    first: usize,
    second: usize,
)
    ensures
        renderer.rendered(first).begin_render(second) == (
            renderer.rendered(first),
            RenderStep::<S>::Idle,
        ),
        renderer.rendered(first).rendered(second) == renderer.rendered(first),
        !renderer.rendered(first).needs_rendering(),
        !renderer.rendered(first).rendered(second).needs_rendering(),
{
    lemma_render_empties_batch(renderer, first);
    lemma_empty_batch_is_not_drawn(renderer.rendered(first), second);
}

} // verus!
