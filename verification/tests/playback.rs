use voice_core::playback::{DeviceAction, PlaybackCommand, PlaybackController, PlaybackState};

fn stop_release_count(acts: &[DeviceAction]) -> usize {
    acts.iter().filter(|a| matches!(a, DeviceAction::StopRelease { .. })).count()
}

#[test]
fn initial_state_is_idle() {
    let ctrl = PlaybackController::new(5);
    assert_eq!(ctrl.state(), PlaybackState::Idle);
    assert_eq!(ctrl.position(), 0);
}

#[test]
fn transition_table_over_a_command_sequence() {
    let mut ctrl = PlaybackController::new(5);
    assert!(ctrl.handle_command(PlaybackCommand::Resume).is_empty());
    assert_eq!(ctrl.state(), PlaybackState::Idle);
    ctrl.handle_command(PlaybackCommand::Play { audio: vec![1, 2] });
    assert_eq!(ctrl.state(), PlaybackState::Playing);
    ctrl.handle_command(PlaybackCommand::Pause);
    assert_eq!(ctrl.state(), PlaybackState::Paused);
    assert!(ctrl.handle_command(PlaybackCommand::Pause).is_empty());
    assert_eq!(ctrl.state(), PlaybackState::Paused);
    ctrl.handle_command(PlaybackCommand::FastForward);
    assert_eq!(ctrl.state(), PlaybackState::Paused);
    ctrl.handle_command(PlaybackCommand::Resume);
    assert_eq!(ctrl.state(), PlaybackState::Playing);
    ctrl.handle_command(PlaybackCommand::Stop);
    assert_eq!(ctrl.state(), PlaybackState::Idle);
}

#[test]
fn stop_is_idempotent_from_every_state() {
    // from Idle
    let mut ctrl = PlaybackController::new(1);
    let first = ctrl.handle_command(PlaybackCommand::Stop);
    assert_eq!(ctrl.state(), PlaybackState::Idle);
    assert!(first.is_empty());

    // from Playing
    let mut ctrl = PlaybackController::new(1);
    ctrl.handle_command(PlaybackCommand::Play { audio: vec![7] });
    let first = ctrl.handle_command(PlaybackCommand::Stop);
    assert_eq!(ctrl.state(), PlaybackState::Idle);
    assert_eq!(stop_release_count(&first), 1);
    let second = ctrl.handle_command(PlaybackCommand::Stop);
    assert_eq!(ctrl.state(), PlaybackState::Idle);
    assert!(second.is_empty());

    // from Paused
    let mut ctrl = PlaybackController::new(1);
    ctrl.handle_command(PlaybackCommand::Play { audio: vec![7] });
    ctrl.handle_command(PlaybackCommand::Pause);
    let first = ctrl.handle_command(PlaybackCommand::Stop);
    assert_eq!(ctrl.state(), PlaybackState::Idle);
    assert_eq!(stop_release_count(&first), 1);
    let second = ctrl.handle_command(PlaybackCommand::Stop);
    assert_eq!(ctrl.state(), PlaybackState::Idle);
    assert!(second.is_empty());
}

#[test]
fn pause_resume_resumes_at_frozen_offset_not_zero() {
    let mut ctrl = PlaybackController::new(40);
    ctrl.handle_command(PlaybackCommand::Play { audio: vec![1, 2, 3] });
    ctrl.handle_command(PlaybackCommand::FastForward);
    assert_eq!(ctrl.position(), 40);
    let pause_acts = ctrl.handle_command(PlaybackCommand::Pause);
    assert_eq!(pause_acts, vec![DeviceAction::PauseOutput { session: 0, position: 40 }]);
    let resume_acts = ctrl.handle_command(PlaybackCommand::Resume);
    assert_eq!(resume_acts, vec![DeviceAction::ResumeOutput { session: 0, position: 40 }]);
    assert_eq!(ctrl.state(), PlaybackState::Playing);
    assert_eq!(ctrl.position(), 40);
}

#[test]
fn play_preempts_a_live_stream() {
    let mut ctrl = PlaybackController::new(1);
    let first = ctrl.handle_command(PlaybackCommand::Play { audio: vec![1] });
    assert_eq!(first, vec![DeviceAction::Start { session: 0 }]);
    let second = ctrl.handle_command(PlaybackCommand::Play { audio: vec![2] });
    // the first stream is halted and released before the second starts
    assert_eq!(
        second,
        vec![
            DeviceAction::StopRelease { session: 0 },
            DeviceAction::Start { session: 1 },
        ]
    );
    assert_eq!(ctrl.state(), PlaybackState::Playing);
    assert_eq!(ctrl.position(), 0);
}

#[test]
fn play_preempts_a_paused_stream() {
    let mut ctrl = PlaybackController::new(1);
    ctrl.handle_command(PlaybackCommand::Play { audio: vec![1] });
    ctrl.handle_command(PlaybackCommand::Pause);
    let acts = ctrl.handle_command(PlaybackCommand::Play { audio: vec![2] });
    assert_eq!(
        acts,
        vec![
            DeviceAction::StopRelease { session: 0 },
            DeviceAction::Start { session: 1 },
        ]
    );
    assert_eq!(ctrl.state(), PlaybackState::Playing);
}

#[test]
fn scenario_play_pause_fastforward_resume_stop() {
    let mut ctrl = PlaybackController::new(5);
    let cmds = vec![
        PlaybackCommand::Play { audio: vec![10, 20, 30] },
        PlaybackCommand::Pause,
        PlaybackCommand::FastForward,
        PlaybackCommand::Resume,
        PlaybackCommand::Stop,
    ];
    let acts = ctrl.run_commands(cmds);
    assert_eq!(ctrl.state(), PlaybackState::Idle);
    assert_eq!(stop_release_count(&acts), 1);
    assert_eq!(
        acts,
        vec![
            DeviceAction::Start { session: 0 },
            DeviceAction::PauseOutput { session: 0, position: 0 },
            DeviceAction::Seek { session: 0, position: 5 },
            DeviceAction::ResumeOutput { session: 0, position: 5 },
            DeviceAction::StopRelease { session: 0 },
        ]
    );
}

#[test]
fn scenario_pause_while_idle_is_a_silent_no_op() {
    let mut ctrl = PlaybackController::new(5);
    let acts = ctrl.run_commands(vec![PlaybackCommand::Pause]);
    assert_eq!(ctrl.state(), PlaybackState::Idle);
    assert!(acts.is_empty());
}

#[test]
fn matching_completion_returns_to_idle_by_itself() {
    let mut ctrl = PlaybackController::new(1);
    ctrl.handle_command(PlaybackCommand::Play { audio: vec![1] });
    let acts = ctrl.handle_render_complete(0);
    assert_eq!(acts, vec![DeviceAction::StopRelease { session: 0 }]);
    assert_eq!(ctrl.state(), PlaybackState::Idle);
}

#[test]
fn stale_completion_is_ignored() {
    let mut ctrl = PlaybackController::new(1);
    ctrl.handle_command(PlaybackCommand::Play { audio: vec![1] });
    ctrl.handle_command(PlaybackCommand::Play { audio: vec![2] });
    // the first stream's completion arrives after it was pre-empted
    let acts = ctrl.handle_render_complete(0);
    assert!(acts.is_empty());
    assert_eq!(ctrl.state(), PlaybackState::Playing);
    // the live stream's completion still lands
    let acts = ctrl.handle_render_complete(1);
    assert_eq!(acts, vec![DeviceAction::StopRelease { session: 1 }]);
    assert_eq!(ctrl.state(), PlaybackState::Idle);
}

#[test]
fn completion_while_paused_is_ignored() {
    let mut ctrl = PlaybackController::new(1);
    ctrl.handle_command(PlaybackCommand::Play { audio: vec![1] });
    ctrl.handle_command(PlaybackCommand::Pause);
    let acts = ctrl.handle_render_complete(0);
    assert!(acts.is_empty());
    assert_eq!(ctrl.state(), PlaybackState::Paused);
}

#[test]
fn device_failure_forces_idle_like_stop() {
    let mut ctrl = PlaybackController::new(1);
    ctrl.handle_command(PlaybackCommand::Play { audio: vec![1] });
    let acts = ctrl.handle_device_failure();
    assert_eq!(acts, vec![DeviceAction::StopRelease { session: 0 }]);
    assert_eq!(ctrl.state(), PlaybackState::Idle);
    // the controller accepts the next command as usual
    let acts = ctrl.handle_command(PlaybackCommand::Play { audio: vec![2] });
    assert_eq!(acts, vec![DeviceAction::Start { session: 1 }]);
    assert_eq!(ctrl.state(), PlaybackState::Playing);
}

#[test]
fn fast_forward_saturates_instead_of_wrapping() {
    let mut ctrl = PlaybackController::new(u64::MAX);
    ctrl.handle_command(PlaybackCommand::Play { audio: vec![1] });
    ctrl.handle_command(PlaybackCommand::FastForward);
    assert_eq!(ctrl.position(), u64::MAX);
    let acts = ctrl.handle_command(PlaybackCommand::FastForward);
    assert_eq!(ctrl.position(), u64::MAX);
    assert_eq!(acts, vec![DeviceAction::Seek { session: 0, position: u64::MAX }]);
}

#[test]
fn fast_forward_while_idle_touches_nothing() {
    let mut ctrl = PlaybackController::new(5);
    let acts = ctrl.handle_command(PlaybackCommand::FastForward);
    assert!(acts.is_empty());
    assert_eq!(ctrl.state(), PlaybackState::Idle);
    assert_eq!(ctrl.position(), 0);
}
