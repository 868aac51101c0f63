use fader_test::channels::{calibration_volume, all_channels, ChannelName, FaderName, MuteState};
use fader_test::outcome::CheckOutcome;
use fader_test::plan::{
    evaluate_phase, initial_volume_commands, next_phase, phase_commands, phase_tolerance,
    run_step, start_state, test_groups, FaderCommand, Phase, RunState, TestGroup, VolumeQuad,
    SETTLE_MILLIS,
};

fn group_one() -> TestGroup {
    TestGroup {
        a: ChannelName::Mic,
        b: ChannelName::LineIn,
        c: ChannelName::Console,
        d: ChannelName::System,
    }
}

fn quad(a: u8, b: u8, c: u8, d: u8) -> VolumeQuad {
    VolumeQuad { a, b, c, d }
}

#[test]
fn calibration_table_matches_the_fixed_targets() {
    let expected: [(ChannelName, u8); 11] = [
        (ChannelName::Mic, 10),
        (ChannelName::LineIn, 30),
        (ChannelName::Console, 50),
        (ChannelName::System, 70),
        (ChannelName::Game, 90),
        (ChannelName::Chat, 110),
        (ChannelName::Sample, 130),
        (ChannelName::Music, 245),
        (ChannelName::Headphones, 170),
        (ChannelName::MicMonitor, 190),
        (ChannelName::LineOut, 210),
    ];
    for (ch, v) in expected {
        let t = calibration_volume(ch);
        assert_eq!(t, v);
        assert!(t > 0 && t < 255);
    }
}

#[test]
fn phases_run_in_the_fixed_linear_order() {
    assert_eq!(next_phase(Phase::Assignment), Some(Phase::Max));
    assert_eq!(next_phase(Phase::Max), Some(Phase::Min));
    assert_eq!(next_phase(Phase::Min), Some(Phase::Restore));
    assert_eq!(next_phase(Phase::Restore), Some(Phase::MuteOn));
    assert_eq!(next_phase(Phase::MuteOn), Some(Phase::MuteOff));
    assert_eq!(next_phase(Phase::MuteOff), None);
    assert_eq!(start_state().phase, Phase::Assignment);
}

#[test]
fn tolerances_are_five_for_targets_and_zero_elsewhere() {
    assert_eq!(phase_tolerance(Phase::Assignment), 5);
    assert_eq!(phase_tolerance(Phase::Max), 0);
    assert_eq!(phase_tolerance(Phase::Min), 0);
    assert_eq!(phase_tolerance(Phase::Restore), 5);
    assert_eq!(phase_tolerance(Phase::MuteOn), 0);
    assert_eq!(phase_tolerance(Phase::MuteOff), 0);
}

#[test]
fn assignment_phase_assigns_the_group_to_faders_a_to_d() {
    let cmds = phase_commands(Phase::Assignment, &group_one());
    assert_eq!(
        cmds,
        vec![
            FaderCommand::Assign { fader: FaderName::A, channel: ChannelName::Mic },
            FaderCommand::Assign { fader: FaderName::B, channel: ChannelName::LineIn },
            FaderCommand::Assign { fader: FaderName::C, channel: ChannelName::Console },
            FaderCommand::Assign { fader: FaderName::D, channel: ChannelName::System },
        ]
    );
}

#[test]
fn max_and_min_phases_command_the_extremes() {
    let max = phase_commands(Phase::Max, &group_one());
    let min = phase_commands(Phase::Min, &group_one());
    assert_eq!(max.len(), 4);
    assert_eq!(min.len(), 4);
    for c in max {
        assert!(matches!(c, FaderCommand::SetVolume { volume: 255, .. }));
    }
    for c in min {
        assert!(matches!(c, FaderCommand::SetVolume { volume: 0, .. }));
    }
}

#[test]
fn restore_phase_commands_the_calibration_targets() {
    let cmds = phase_commands(Phase::Restore, &group_one());
    assert_eq!(
        cmds,
        vec![
            FaderCommand::SetVolume { channel: ChannelName::Mic, volume: 10 },
            FaderCommand::SetVolume { channel: ChannelName::LineIn, volume: 30 },
            FaderCommand::SetVolume { channel: ChannelName::Console, volume: 50 },
            FaderCommand::SetVolume { channel: ChannelName::System, volume: 70 },
        ]
    );
}

#[test]
fn mute_phases_change_only_the_mute_state() {
    let on = phase_commands(Phase::MuteOn, &group_one());
    let off = phase_commands(Phase::MuteOff, &group_one());
    for c in on {
        assert!(matches!(c, FaderCommand::SetMute { state: MuteState::Muted, .. }));
    }
    for c in off {
        assert!(matches!(c, FaderCommand::SetMute { state: MuteState::Unmuted, .. }));
    }
}

#[test]
fn assignment_readback_compares_against_calibration() {
    // Mic target is 10: a read-back of 12 passes with deviation 2.
    let checks = evaluate_phase(
        Phase::Assignment,
        &group_one(),
        quad(0, 0, 0, 0),
        quad(12, 30, 54, 76),
    );
    assert_eq!(checks[0].outcome, CheckOutcome::PassWithin(2));
    assert_eq!(checks[0].expected, 10);
    assert_eq!(checks[0].measured, 12);
    assert_eq!(checks[1].outcome, CheckOutcome::PassExact);
    assert_eq!(checks[2].outcome, CheckOutcome::PassWithin(4));
    assert_eq!(checks[3].outcome, CheckOutcome::Fail);
}

#[test]
fn max_phase_twice_reads_back_identically() {
    // Both passes of the Max phase demand exactly 255 on every fader, so two
    // passing runs read back the same four values.
    let first = evaluate_phase(Phase::Max, &group_one(), quad(0, 0, 0, 0), quad(255, 255, 255, 255));
    let second =
        evaluate_phase(Phase::Max, &group_one(), quad(9, 9, 9, 9), quad(255, 255, 255, 255));
    for (a, b) in first.iter().zip(second.iter()) {
        assert_eq!(a.outcome, CheckOutcome::PassExact);
        assert_eq!(a.measured, b.measured);
        assert_eq!(a.measured, 255);
    }
    // A read-back of 250 under the Max phase fails: tolerance is zero.
    let failing =
        evaluate_phase(Phase::Max, &group_one(), quad(0, 0, 0, 0), quad(250, 255, 255, 255));
    assert_eq!(failing[0].outcome, CheckOutcome::Fail);
}

#[test]
fn mute_on_compares_against_the_restore_baseline() {
    let baseline = quad(130, 30, 50, 70);
    let still = evaluate_phase(Phase::MuteOn, &group_one(), baseline, quad(130, 30, 50, 70));
    assert!(still.iter().all(|c| c.outcome.passed()));
    assert_eq!(still[0].outcome, CheckOutcome::PassExact);
    let moved = evaluate_phase(Phase::MuteOn, &group_one(), baseline, quad(128, 30, 50, 70));
    assert_eq!(moved[0].outcome, CheckOutcome::Fail);
}

#[test]
fn run_step_captures_the_restore_readback_as_mute_baseline() {
    let g = group_one();
    let state = RunState { phase: Phase::Restore, baseline: quad(0, 0, 0, 0) };
    let (_, next) = run_step(state, &g, quad(11, 29, 50, 71));
    let next = next.expect("restore is not the last phase");
    assert_eq!(next.phase, Phase::MuteOn);
    assert_eq!(next.baseline, quad(11, 29, 50, 71));

    // Other phases leave the baseline alone.
    let (_, after_max) = run_step(
        RunState { phase: Phase::Max, baseline: quad(1, 2, 3, 4) },
        &g,
        quad(255, 255, 255, 255),
    );
    assert_eq!(after_max.unwrap().baseline, quad(1, 2, 3, 4));

    // The last phase ends the group.
    let (_, done) = run_step(
        RunState { phase: Phase::MuteOff, baseline: quad(1, 2, 3, 4) },
        &g,
        quad(1, 2, 3, 4),
    );
    assert!(done.is_none());
}

#[test]
fn three_fixed_groups_cover_all_channels() {
    let groups = test_groups();
    assert_eq!(groups.len(), 3);
    assert_eq!(groups[0], group_one());
    assert_eq!(
        groups[1],
        TestGroup {
            a: ChannelName::Game,
            b: ChannelName::Chat,
            c: ChannelName::Sample,
            d: ChannelName::Music,
        }
    );
    assert_eq!(
        groups[2],
        TestGroup {
            a: ChannelName::Headphones,
            b: ChannelName::MicMonitor,
            c: ChannelName::LineOut,
            d: ChannelName::Mic,
        }
    );
}

#[test]
fn initial_commands_put_every_channel_at_its_target() {
    let cmds = initial_volume_commands();
    let channels = all_channels();
    assert_eq!(cmds.len(), 11);
    assert_eq!(channels.len(), 11);
    for (cmd, ch) in cmds.iter().zip(channels.iter()) {
        assert_eq!(
            *cmd,
            FaderCommand::SetVolume { channel: *ch, volume: calibration_volume(*ch) }
        );
    }
}

#[test]
fn settle_wait_is_three_hundred_milliseconds() {
    assert_eq!(SETTLE_MILLIS, 300);
}

#[test]
fn assertion_lines_name_channel_expected_and_measured() {
    let checks = evaluate_phase(
        Phase::Assignment,
        &group_one(),
        quad(0, 0, 0, 0),
        quad(12, 30, 24, 76),
    );
    assert_eq!(
        checks[0].describe(),
        "Volume Matched for Mic - Expected 10, Received: 12 (Error Margin: 2)"
    );
    assert_eq!(checks[1].describe(), "Volume Matched for LineIn - Value: 30");
    assert_eq!(
        checks[2].describe(),
        "Volume Check Failed for Console - Expected 50, Received: 24"
    );
    let low = evaluate_phase(Phase::Assignment, &group_one(), quad(0, 0, 0, 0), quad(8, 30, 50, 70));
    assert_eq!(
        low[0].describe(),
        "Volume Matched for Mic - Expected 10, Received: 8 (Error Margin: -2)"
    );
}

#[test]
fn phase_banners_match_the_operator_lines() {
    assert_eq!(Phase::Assignment.banner(), "Testing Fader Assignment..");
    assert_eq!(Phase::Max.banner(), "Testing Max Volume Reach");
    assert_eq!(Phase::Min.banner(), "Testing Min Volume Reach");
    assert_eq!(Phase::Restore.banner(), "Testing Restore Volume");
    assert_eq!(
        Phase::MuteOn.banner(),
        "Testing Mute State Change (to Muted), fader should not move."
    );
    assert_eq!(
        Phase::MuteOff.banner(),
        "Testing Mute State Change (to Unmuted), fader should not move."
    );
    assert_eq!(
        group_one().describe(),
        "Testing for Channels: Mic, LineIn, Console, System"
    );
}
