use point_renderer::session::ChannelId;
use point_renderer::session::DeviceCommand;
use point_renderer::session::DeviceError;
use point_renderer::session::DeviceOutcome;
use point_renderer::session::DrawParams;
use point_renderer::session::DrawSession;
use point_renderer::session::RenderStep;
use point_renderer::session::SessionState;
use point_renderer::session::SessionStep;
use point_renderer::session::DEVICE_NO_ERROR;
use point_renderer::shader::AttributeHandle;
use point_renderer::shader::ShaderBindings;
use point_renderer::shader::UniformHandle;

fn params(point_count: usize) -> DrawParams<f32> {
    DrawParams {
        bindings: ShaderBindings {
            position: AttributeHandle(1),
            color: AttributeHandle(2),
            size: AttributeHandle(3),
            proj: UniformHandle(4),
            view: UniformHandle(5),
        },
        point_count,
        point_size: 2.0,
    }
}

const ORDER: [SessionStep; 13] = [
    SessionStep::UseProgram,
    SessionStep::EnablePosition,
    SessionStep::EnableColor,
    SessionStep::EnableSize,
    SessionStep::UploadCamera,
    SessionStep::BindPosition,
    SessionStep::BindColor,
    SessionStep::BindSize,
    SessionStep::SetPointSize,
    SessionStep::DrawPoints,
    SessionStep::DisablePosition,
    SessionStep::DisableColor,
    SessionStep::DisableSize,
];

#[test]
fn error_code_zero_confirms() {
    assert_eq!(DEVICE_NO_ERROR, 0);
    assert_eq!(DeviceOutcome::from_error_code(0), DeviceOutcome::Confirmed);
}

#[test]
fn other_error_codes_fail_with_the_code() {
    assert_eq!(
        DeviceOutcome::from_error_code(1),
        DeviceOutcome::Failed(DeviceError { code: 1 })
    );
    assert_eq!(
        DeviceOutcome::from_error_code(1281),
        DeviceOutcome::Failed(DeviceError { code: 1281 })
    );
    assert_eq!(
        DeviceOutcome::from_error_code(u32::MAX),
        DeviceOutcome::Failed(DeviceError { code: u32::MAX })
    );
}

#[test]
fn steps_follow_each_other_in_order() {
    for k in 0..12 {
        assert_eq!(ORDER[k].next(), Some(ORDER[k + 1]));
    }
    assert_eq!(SessionStep::DisableSize.next(), None);
}

#[test]
fn step_states() {
    for k in 0..5 {
        assert_eq!(ORDER[k].state(), SessionState::Idle);
    }
    for k in 5..10 {
        assert_eq!(ORDER[k].state(), SessionState::Bound);
    }
    for k in 10..13 {
        assert_eq!(ORDER[k].state(), SessionState::Drawn);
    }
}

#[test]
fn step_commands() {
    let p = params(4);
    assert_eq!(SessionStep::UseProgram.command(0, &p), DeviceCommand::UseProgram);
    assert_eq!(
        SessionStep::EnablePosition.command(0, &p),
        DeviceCommand::EnableAttribute(AttributeHandle(1))
    );
    assert_eq!(
        SessionStep::EnableColor.command(0, &p),
        DeviceCommand::EnableAttribute(AttributeHandle(2))
    );
    assert_eq!(
        SessionStep::EnableSize.command(0, &p),
        DeviceCommand::EnableAttribute(AttributeHandle(3))
    );
    assert_eq!(
        SessionStep::UploadCamera.command(9, &p),
        DeviceCommand::UploadCamera { pass: 9, proj: UniformHandle(4), view: UniformHandle(5) }
    );
    assert_eq!(
        SessionStep::BindPosition.command(0, &p),
        DeviceCommand::BindChannel {
            slot: AttributeHandle(1),
            channel: ChannelId::PositionColor,
            stride: 2,
            offset: 0
        }
    );
    assert_eq!(
        SessionStep::BindColor.command(0, &p),
        DeviceCommand::BindChannel {
            slot: AttributeHandle(2),
            channel: ChannelId::PositionColor,
            stride: 2,
            offset: 1
        }
    );
    assert_eq!(
        SessionStep::BindSize.command(0, &p),
        DeviceCommand::BindChannel {
            slot: AttributeHandle(3),
            channel: ChannelId::Size,
            stride: 0,
            offset: 0
        }
    );
    assert_eq!(SessionStep::SetPointSize.command(0, &p), DeviceCommand::SetPointSize(2.0));
    assert_eq!(
        SessionStep::DrawPoints.command(0, &p),
        DeviceCommand::DrawPoints { start: 0, count: 4 }
    );
    assert_eq!(
        SessionStep::DisablePosition.command(0, &p),
        DeviceCommand::DisableAttribute(AttributeHandle(1))
    );
    assert_eq!(
        SessionStep::DisableColor.command(0, &p),
        DeviceCommand::DisableAttribute(AttributeHandle(2))
    );
    assert_eq!(
        SessionStep::DisableSize.command(0, &p),
        DeviceCommand::DisableAttribute(AttributeHandle(3))
    );
}

#[test]
fn begin_with_no_points_stays_at_rest() {
    let (session, step) = DrawSession::begin(0, &params(0));
    assert_eq!(session, DrawSession::AtRest);
    assert_eq!(step, RenderStep::Idle);
}

#[test]
fn begin_with_points_issues_the_first_command() {
    let (session, step) = DrawSession::begin(4, &params(1));
    assert_eq!(session, DrawSession::Awaiting { step: SessionStep::UseProgram, pass: 4 });
    assert_eq!(step, RenderStep::Issue(DeviceCommand::UseProgram));
    assert_eq!(session.state(), SessionState::Idle);
}

#[test]
fn advance_walks_through_every_step() {
    let p = params(3);
    let (mut session, mut step) = DrawSession::begin(2, &p);
    for k in 0..13 {
        assert_eq!(session, DrawSession::Awaiting { step: ORDER[k], pass: 2 });
        assert_eq!(step, RenderStep::Issue(ORDER[k].command(2, &p)));
        (session, step) = session.advance(DeviceOutcome::Confirmed, &p);
    }
    assert_eq!(session, DrawSession::AtRest);
    assert_eq!(step, RenderStep::Finished);
}

#[test]
fn failure_gives_the_session_up_at_any_step() {
    let p = params(3);
    for k in 0..13 {
        let session = DrawSession::Awaiting { step: ORDER[k], pass: 0 };
        let (after, step) =
            session.advance(DeviceOutcome::Failed(DeviceError { code: 1285 }), &p);
        assert_eq!(after, DrawSession::AtRest);
        assert_eq!(step, RenderStep::Aborted(DeviceError { code: 1285 }));
    }
}

#[test]
fn advance_at_rest_stays_at_rest() {
    let p = params(3);
    let (after, step) = DrawSession::AtRest.advance(DeviceOutcome::Confirmed, &p);
    assert_eq!(after, DrawSession::AtRest);
    assert_eq!(step, RenderStep::Idle);
    let (after, step) =
        DrawSession::AtRest.advance(DeviceOutcome::Failed(DeviceError { code: 1 }), &p);
    assert_eq!(after, DrawSession::AtRest);
    assert_eq!(step, RenderStep::Idle);
    assert_eq!(DrawSession::AtRest.state(), SessionState::Idle);
}
