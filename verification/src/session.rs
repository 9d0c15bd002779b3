//! The draw session: the order in which one render pass talks to the device.
//!
//! A session hands out one device command at a time and waits for the
//! outcome of each before it decides on the next. The code that owns the
//! device performs the commands; nothing here touches it.

use vstd::prelude::*;
use crate::shader::AttributeHandle;
use crate::shader::ShaderBindings;
use crate::shader::UniformHandle;

verus! {

/// The error code with which the device reports that nothing went wrong.
pub const DEVICE_NO_ERROR: u32 = 0;

/// An error reported by the device, with the device's own code for it.
#[derive(Clone, Copy, Debug, PartialEq, Eq, Structural)]
pub struct DeviceError {
    pub code: u32,
}

/// How the device answered a command.
#[derive(Clone, Copy, Debug, PartialEq, Eq, Structural)]
pub enum DeviceOutcome {
    /// The command went through.
    Confirmed,
    /// The device reported an error.
    Failed(DeviceError),
}

impl DeviceOutcome {
    /// The outcome that an error code read back from the device stands for.
    pub open spec fn spec_from_error_code(code: u32) -> DeviceOutcome {
        if code == DEVICE_NO_ERROR {
            DeviceOutcome::Confirmed
        } else {
            DeviceOutcome::Failed(DeviceError { code })
        }
    }

    /// Reads the error code that the device holds after a command: no error
    /// confirms the command, any other code fails it.
    #[verifier::when_used_as_spec(spec_from_error_code)]
    pub fn from_error_code(code: u32) -> (outcome: DeviceOutcome)
        ensures
            outcome == Self::spec_from_error_code(code),
    {
        if code == DEVICE_NO_ERROR {
            DeviceOutcome::Confirmed
        } else {
            DeviceOutcome::Failed(DeviceError { code })
        }
    }
}

/// The two channels of a frame batch.
#[derive(Clone, Copy, Debug, PartialEq, Eq, Structural)]
pub enum ChannelId {
    /// The channel in which positions and colours alternate.
    PositionColor,
    /// The channel of sizes.
    Size,
}

/// One call to the device or to the camera.
#[derive(Clone, Copy, Debug, PartialEq)]
pub enum DeviceCommand<S> {
    /// Make the point shader the active program.
    UseProgram,
    /// Enable an attribute slot.
    EnableAttribute(AttributeHandle),
    /// Have the camera write the matrices of render pass `pass` into the two
    /// uniform slots.
    UploadCamera { pass: usize, proj: UniformHandle, view: UniformHandle },
    /// Bind a channel to an attribute slot. The slot reads the value at
    /// `offset` and then every `stride`-th value after it; a stride of 0
    /// means that the values are densely packed.
    BindChannel { slot: AttributeHandle, channel: ChannelId, stride: usize, offset: usize },
    /// Set the point size that the device applies to every point alike.
    SetPointSize(S),
    /// Draw `count` vertices as points, beginning at vertex `start`.
    DrawPoints { start: usize, count: usize },
    /// Disable an attribute slot.
    DisableAttribute(AttributeHandle),
}

/// The commands of one session, in the order in which they are issued.
#[derive(Clone, Copy, Debug, PartialEq, Eq, Structural)]
pub enum SessionStep {
    UseProgram,
    EnablePosition,
    EnableColor,
    EnableSize,
    UploadCamera,
    BindPosition,
    BindColor,
    BindSize,
    SetPointSize,
    DrawPoints,
    DisablePosition,
    DisableColor,
    DisableSize,
}

/// How far a render pass has come.
#[derive(Clone, Copy, Debug, PartialEq, Eq, Structural)]
pub enum SessionState {
    /// The program is not active, or it is being activated: its slots are
    /// not all enabled yet, or the camera has not uploaded its matrices.
    Idle,
    /// The program is active, its slots are enabled and the matrices are
    /// uploaded; the draw call has not been confirmed.
    Bound,
    /// The draw call is confirmed; the slots are not all disabled yet.
    Drawn,
}

/// What a session reads of the renderer that runs it.
#[derive(Clone, Copy, Debug, PartialEq)]
pub struct DrawParams<S> {
    /// The handles of the shader inputs.
    pub bindings: ShaderBindings,
    /// The number of queued points.
    pub point_count: usize,
    /// The point size that the device is to apply to every point alike.
    pub point_size: S,
}

/// What the caller of a session is to do next.
#[derive(Clone, Copy, Debug, PartialEq)]
pub enum RenderStep<S> {
    /// Nothing: no session is running.
    Idle,
    /// Perform this command and report its outcome.
    Issue(DeviceCommand<S>),
    /// Nothing more: the device confirmed the last command and the session
    /// is over.
    Finished,
    /// Nothing more: the device reported this error and the session was
    /// given up.
    Aborted(DeviceError),
}

/// A draw session: at rest, or waiting for the outcome of the command that
/// it issued last.
#[derive(Clone, Copy, Debug, PartialEq, Eq, Structural)]
pub enum DrawSession {
    /// No render pass is under way.
    AtRest,
    /// The command of `step` was issued for render pass `pass`, and its
    /// outcome is awaited. Every command before it was confirmed.
    Awaiting { step: SessionStep, pass: usize },
}

/// The steps of a session in the order in which their commands are issued.
pub open spec fn session_order() -> Seq<SessionStep> {
    seq![
        SessionStep::UseProgram,
        SessionStep::EnablePosition,
        SessionStep::EnableColor,
        SessionStep::EnableSize,
        SessionStep::UploadCamera,
        SessionStep::BindPosition,
        SessionStep::BindColor,
        SessionStep::BindSize,
        SessionStep::SetPointSize,
        SessionStep::DrawPoints,
        SessionStep::DisablePosition,
        SessionStep::DisableColor,
        SessionStep::DisableSize,
    ]
}

/// The commands of a session for render pass `pass` in the order in which
/// they are issued.
///
/// The program is activated, the three attribute slots are enabled and the
/// camera uploads its matrices. The position slot reads every second value
/// of the position/colour channel from the first on, the colour slot every
/// second value from the second on, and the size slot the densely packed
/// size channel. The device-wide point size is set, one draw call draws a
/// vertex for each queued point, and the three slots are disabled again.
pub open spec fn session_script<S>(pass: usize, params: DrawParams<S>) -> Seq<DeviceCommand<S>> {
    let bindings = params.bindings;
    seq![
        DeviceCommand::UseProgram,
        DeviceCommand::EnableAttribute(bindings.position),
        DeviceCommand::EnableAttribute(bindings.color),
        DeviceCommand::EnableAttribute(bindings.size),
        DeviceCommand::UploadCamera { pass, proj: bindings.proj, view: bindings.view },
        DeviceCommand::BindChannel {
            slot: bindings.position,
            channel: ChannelId::PositionColor,
            stride: 2,
            offset: 0,
        },
        DeviceCommand::BindChannel {
            slot: bindings.color,
            channel: ChannelId::PositionColor,
            stride: 2,
            offset: 1,
        },
        DeviceCommand::BindChannel {
            slot: bindings.size,
            channel: ChannelId::Size,
            stride: 0,
            offset: 0,
        },
        DeviceCommand::SetPointSize(params.point_size),
        DeviceCommand::DrawPoints { start: 0, count: params.point_count },
        DeviceCommand::DisableAttribute(bindings.position),
        DeviceCommand::DisableAttribute(bindings.color),
        DeviceCommand::DisableAttribute(bindings.size),
    ]
}

impl SessionStep {
    /// The position of the step in a session, counted from 0.
    pub open spec fn index(self) -> int {
        match self {
            SessionStep::UseProgram => 0,
            SessionStep::EnablePosition => 1,
            SessionStep::EnableColor => 2,
            SessionStep::EnableSize => 3,
            SessionStep::UploadCamera => 4,
            SessionStep::BindPosition => 5,
            SessionStep::BindColor => 6,
            SessionStep::BindSize => 7,
            SessionStep::SetPointSize => 8,
            SessionStep::DrawPoints => 9,
            SessionStep::DisablePosition => 10,
            SessionStep::DisableColor => 11,
            SessionStep::DisableSize => 12,
        }
    }

    /// The step that follows this one in the session order; `None` after the
    /// last.
    pub open spec fn spec_next(self) -> Option<SessionStep> {
        if self.index() + 1 < session_order().len() {
            Some(session_order()[self.index() + 1])
        } else {
            None
        }
    }

    /// The state that the session is in while the outcome of this step is
    /// awaited: idle until the camera upload is confirmed, bound until the
    /// draw call is confirmed, drawn from then on.
    pub open spec fn spec_state(self) -> SessionState {
        if self.index() <= SessionStep::UploadCamera.index() {
            SessionState::Idle
        } else if self.index() <= SessionStep::DrawPoints.index() {
            SessionState::Bound
        } else {
            SessionState::Drawn
        }
    }

    /// The command that the step issues in render pass `pass`: the entry of
    /// the session script at the step's index.
    pub open spec fn spec_command<S>(self, pass: usize, params: DrawParams<S>) -> DeviceCommand<S> {
        session_script(pass, params)[self.index()]
    }

    /// The step that follows this one in the session order; `None` after the
    /// last.
    #[verifier::when_used_as_spec(spec_next)]
    pub fn next(self) -> (next: Option<SessionStep>)
        ensures
            next == self.spec_next(),
    {
        match self {
            SessionStep::UseProgram => Some(SessionStep::EnablePosition),
            SessionStep::EnablePosition => Some(SessionStep::EnableColor),
            SessionStep::EnableColor => Some(SessionStep::EnableSize),
            SessionStep::EnableSize => Some(SessionStep::UploadCamera),
            SessionStep::UploadCamera => Some(SessionStep::BindPosition),
            SessionStep::BindPosition => Some(SessionStep::BindColor),
            SessionStep::BindColor => Some(SessionStep::BindSize),
            SessionStep::BindSize => Some(SessionStep::SetPointSize),
            SessionStep::SetPointSize => Some(SessionStep::DrawPoints),
            SessionStep::DrawPoints => Some(SessionStep::DisablePosition),
            SessionStep::DisablePosition => Some(SessionStep::DisableColor),
            SessionStep::DisableColor => Some(SessionStep::DisableSize),
            SessionStep::DisableSize => None,
        }
    }

    /// The state that the session is in while the outcome of this step is
    /// awaited.
    #[verifier::when_used_as_spec(spec_state)]
    pub fn state(self) -> (state: SessionState)
        ensures
            state == self.spec_state(),
    {
        match self {
            SessionStep::UseProgram
            | SessionStep::EnablePosition
            | SessionStep::EnableColor
            | SessionStep::EnableSize
            | SessionStep::UploadCamera => SessionState::Idle,
            SessionStep::BindPosition
            | SessionStep::BindColor
            | SessionStep::BindSize
            | SessionStep::SetPointSize
            | SessionStep::DrawPoints => SessionState::Bound,
            SessionStep::DisablePosition
            | SessionStep::DisableColor
            | SessionStep::DisableSize => SessionState::Drawn,
        }
    }

    /// The command that the step issues in render pass `pass`.
    pub fn command<S: Copy>(self, pass: usize, params: &DrawParams<S>) -> (command: DeviceCommand<S>)
        ensures
            command == self.spec_command(pass, *params),
    {
        let bindings = params.bindings;
        match self {
            SessionStep::UseProgram => DeviceCommand::UseProgram,
            SessionStep::EnablePosition => DeviceCommand::EnableAttribute(bindings.position),
            SessionStep::EnableColor => DeviceCommand::EnableAttribute(bindings.color),
            SessionStep::EnableSize => DeviceCommand::EnableAttribute(bindings.size),
            SessionStep::UploadCamera => DeviceCommand::UploadCamera {
                pass,
                proj: bindings.proj,
                view: bindings.view,
            },
            SessionStep::BindPosition => DeviceCommand::BindChannel {
                slot: bindings.position,
                channel: ChannelId::PositionColor,
                stride: 2,
                offset: 0,
            },
            SessionStep::BindColor => DeviceCommand::BindChannel {
                slot: bindings.color,
                channel: ChannelId::PositionColor,
                stride: 2,
                offset: 1,
            },
            SessionStep::BindSize => DeviceCommand::BindChannel {
                slot: bindings.size,
                channel: ChannelId::Size,
                stride: 0,
                offset: 0,
            },
            SessionStep::SetPointSize => DeviceCommand::SetPointSize(params.point_size),
            SessionStep::DrawPoints => DeviceCommand::DrawPoints {
                start: 0,
                count: params.point_count,
            },
            SessionStep::DisablePosition => DeviceCommand::DisableAttribute(bindings.position),
            SessionStep::DisableColor => DeviceCommand::DisableAttribute(bindings.color),
            SessionStep::DisableSize => DeviceCommand::DisableAttribute(bindings.size),
        }
    }
}

impl DrawSession {
    /// The state of the session.
    pub open spec fn spec_state(self) -> SessionState {
        match self {
            DrawSession::AtRest => SessionState::Idle,
            DrawSession::Awaiting { step, .. } => step.spec_state(),
        }
    }

    /// Where a render pass starts. With no point queued nothing is issued
    /// and the session stays at rest; else the first command is issued.
    pub open spec fn spec_begin<S>(pass: usize, params: DrawParams<S>) -> (
        DrawSession,
        RenderStep<S>,
    ) {
        if params.point_count == 0 {
            (DrawSession::AtRest, RenderStep::Idle)
        } else {
            (
                DrawSession::Awaiting { step: SessionStep::UseProgram, pass },
                RenderStep::Issue(SessionStep::UseProgram.spec_command(pass, params)),
            )
        }
    }

    /// Where the session goes when the device has answered.
    ///
    /// At rest no answer is awaited and nothing happens. A failure gives the
    /// session up. A confirmation issues the next command, or finishes the
    /// session when the confirmed command was the last.
    pub open spec fn spec_advance<S>(self, outcome: DeviceOutcome, params: DrawParams<S>) -> (
        DrawSession,
        RenderStep<S>,
    ) {
        match self {
            DrawSession::AtRest => (DrawSession::AtRest, RenderStep::Idle),
            DrawSession::Awaiting { step, pass } => match outcome {
                DeviceOutcome::Failed(error) => (DrawSession::AtRest, RenderStep::Aborted(error)),
                DeviceOutcome::Confirmed => match step.spec_next() {
                    Some(next) => (
                        DrawSession::Awaiting { step: next, pass },
                        RenderStep::Issue(next.spec_command(pass, params)),
                    ),
                    None => (DrawSession::AtRest, RenderStep::Finished),
                },
            },
        }
    }

    /// The state of the session.
    #[verifier::when_used_as_spec(spec_state)]
    pub fn state(self) -> (state: SessionState)
        ensures
            state == self.spec_state(),
    {
        match self {
            DrawSession::AtRest => SessionState::Idle,
            DrawSession::Awaiting { step, .. } => step.state(),
        }
    }

    /// Starts a render pass.
    pub fn begin<S: Copy>(pass: usize, params: &DrawParams<S>) -> (started: (
        DrawSession,
        RenderStep<S>,
    ))
        ensures
            started == Self::spec_begin(pass, *params),
    {
        if params.point_count == 0 {
            (DrawSession::AtRest, RenderStep::Idle)
        } else {
            let step = SessionStep::UseProgram;
            (DrawSession::Awaiting { step, pass }, RenderStep::Issue(step.command(pass, params)))
        }
    }

    /// Takes the device's answer to the command issued last and decides what
    /// comes next.
    pub fn advance<S: Copy>(self, outcome: DeviceOutcome, params: &DrawParams<S>) -> (advanced: (
        DrawSession,
        RenderStep<S>,
    ))
        ensures
            advanced == self.spec_advance(outcome, *params),
    {
        match self {
            DrawSession::AtRest => (DrawSession::AtRest, RenderStep::Idle),
            DrawSession::Awaiting { step, pass } => match outcome {
                DeviceOutcome::Failed(error) => (DrawSession::AtRest, RenderStep::Aborted(error)),
                DeviceOutcome::Confirmed => match step.next() {
                    Some(next) => (
                        DrawSession::Awaiting { step: next, pass },
                        RenderStep::Issue(next.command(pass, params)),
                    ),
                    None => (DrawSession::AtRest, RenderStep::Finished),
                },
            },
        }
    }
}

} // verus!
