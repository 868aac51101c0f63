//! The fader test plan: three fixed groups of four channels, each run
//! through a linear sequence of phases. Each phase first issues its commands
//! for all four channels, then (after the driver's settle wait) the four
//! read-back volumes are held against the phase's expected values.

use vstd::prelude::*;
use vstd::string::StringExecFns;
use crate::channels::ChannelName;
use crate::channels::FaderName;
use crate::channels::MuteState;
use crate::channels::calibration_spec;
use crate::channels::calibration_volume;
use crate::outcome::CheckOutcome;
use crate::outcome::compare_spec;
use crate::outcome::compare_volume;
use crate::version::dec_spec;
use crate::version::dec_u32;
use crate::version::signed_dec_spec;
use crate::version::signed_dec_i16;

verus! {

/// Milliseconds the driver waits after issuing a phase's commands before it
/// trusts a read-back.
pub const SETTLE_MILLIS: u64 = 300;

/// Four channels under test, assigned in order to fader slots A, B, C, D.
#[derive(Debug, Clone, Copy, PartialEq, Eq, Structural)]
pub struct TestGroup {
    pub a: ChannelName,
    pub b: ChannelName,
    pub c: ChannelName,
    pub d: ChannelName,
}

impl TestGroup {
    /// The characters of the header line naming the group's channels.
    pub open spec fn describe_spec(self) -> Seq<char> {
        "Testing for Channels: "@ + self.a.label_spec() + ", "@ + self.b.label_spec() + ", "@
            + self.c.label_spec() + ", "@ + self.d.label_spec()
    }

    /// Renders the header line naming the group's channels.
    pub fn describe(&self) -> (r: String)
        ensures
            r@ == self.describe_spec(),
    {
        let mut s = String::from_str("Testing for Channels: ");
        s.append(self.a.label());
        s.append(", ");
        s.append(self.b.label());
        s.append(", ");
        s.append(self.c.label());
        s.append(", ");
        s.append(self.d.label());
        proof {
            assert(s@ =~= self.describe_spec());
        }
        s
    }
}

/// The four volumes read back from fader slots A, B, C, D.
#[derive(Debug, Clone, Copy, PartialEq, Eq, Structural)]
pub struct VolumeQuad {
    pub a: u8,
    pub b: u8,
    pub c: u8,
    pub d: u8,
}

/// One step of the per-group test plan, in execution order.
#[derive(Debug, Clone, Copy, PartialEq, Eq, Structural)]
pub enum Phase {
    /// Assign the group's channels to the four faders; expect each fader at
    /// its channel's calibration target, tolerance 5.
    Assignment,
    /// Command every channel to 255; expect exactly 255.
    Max,
    /// Command every channel to 0; expect exactly 0.
    Min,
    /// Command every channel back to its calibration target, tolerance 5.
    Restore,
    /// Mute every channel; the faders must not move from the restore
    /// read-back, tolerance 0.
    MuteOn,
    /// Unmute every channel; the faders must still not move, tolerance 0.
    MuteOff,
}

/// One command for the driver to issue to the device.
#[derive(Debug, Clone, Copy, PartialEq, Eq, Structural)]
pub enum FaderCommand {
    Assign { fader: FaderName, channel: ChannelName },
    SetVolume { channel: ChannelName, volume: u8 },
    SetMute { channel: ChannelName, state: MuteState },
}

/// One assertion on one channel: what was expected, what was read back, and
/// how the comparison came out.
#[derive(Debug, Clone, Copy, PartialEq, Eq, Structural)]
pub struct ChannelCheck {
    pub channel: ChannelName,
    pub expected: u8,
    pub measured: u8,
    pub outcome: CheckOutcome,
}

impl Phase {
    /// The characters of the informational line announcing this phase.
    pub open spec fn banner_spec(self) -> Seq<char> {
        match self {
            Phase::Assignment => "Testing Fader Assignment.."@,
            Phase::Max => "Testing Max Volume Reach"@,
            Phase::Min => "Testing Min Volume Reach"@,
            Phase::Restore => "Testing Restore Volume"@,
            Phase::MuteOn => "Testing Mute State Change (to Muted), fader should not move."@,
            Phase::MuteOff => "Testing Mute State Change (to Unmuted), fader should not move."@,
        }
    }

    /// Informational line the driver prints when the phase starts.
    pub fn banner(&self) -> (r: &'static str)
        ensures
            r@ == self.banner_spec(),
    {
        match self {
            Phase::Assignment => "Testing Fader Assignment..",
            Phase::Max => "Testing Max Volume Reach",
            Phase::Min => "Testing Min Volume Reach",
            Phase::Restore => "Testing Restore Volume",
            Phase::MuteOn => "Testing Mute State Change (to Muted), fader should not move.",
            Phase::MuteOff => "Testing Mute State Change (to Unmuted), fader should not move.",
        }
    }
}

impl ChannelCheck {
    /// The characters of the one line this assertion emits: channel,
    /// expected value, measured value, and on a tolerated pass the signed
    /// deviation.
    pub open spec fn describe_spec(self) -> Seq<char> {
        match self.outcome {
            CheckOutcome::PassExact => "Volume Matched for "@ + self.channel.label_spec()
                + " - Value: "@ + dec_spec(self.measured as nat),
            CheckOutcome::PassWithin(d) => "Volume Matched for "@ + self.channel.label_spec()
                + " - Expected "@ + dec_spec(self.expected as nat) + ", Received: "@ + dec_spec(
                self.measured as nat,
            ) + " (Error Margin: "@ + signed_dec_spec(d as int) + ")"@,
            CheckOutcome::Fail => "Volume Check Failed for "@ + self.channel.label_spec()
                + " - Expected "@ + dec_spec(self.expected as nat) + ", Received: "@ + dec_spec(
                self.measured as nat,
            ),
        }
    }

    /// Renders the one PASS or FAIL line this assertion emits.
    pub fn describe(&self) -> (r: String)
        ensures
            r@ == self.describe_spec(),
    {
        match self.outcome {
            CheckOutcome::PassExact => {
                let mut s = String::from_str("Volume Matched for ");
                s.append(self.channel.label());
                s.append(" - Value: ");
                let m = dec_u32(self.measured as u32);
                s.append(m.as_str());
                proof {
                    assert(s@ =~= self.describe_spec());
                }
                s
            },
            CheckOutcome::PassWithin(d) => {
                let mut s = String::from_str("Volume Matched for ");
                s.append(self.channel.label());
                s.append(" - Expected ");
                let e = dec_u32(self.expected as u32);
                s.append(e.as_str());
                s.append(", Received: ");
                let m = dec_u32(self.measured as u32);
                s.append(m.as_str());
                s.append(" (Error Margin: ");
                let dv = signed_dec_i16(d);
                s.append(dv.as_str());
                s.append(")");
                proof {
                    assert(s@ =~= self.describe_spec());
                }
                s
            },
            CheckOutcome::Fail => {
                let mut s = String::from_str("Volume Check Failed for ");
                s.append(self.channel.label());
                s.append(" - Expected ");
                let e = dec_u32(self.expected as u32);
                s.append(e.as_str());
                s.append(", Received: ");
                let m = dec_u32(self.measured as u32);
                s.append(m.as_str());
                proof {
                    assert(s@ =~= self.describe_spec());
                }
                s
            },
        }
    }
}

/// The phase that follows a phase, if any: the plan is strictly linear.
pub open spec fn next_phase_spec(p: Phase) -> Option<Phase> {
    match p {
        Phase::Assignment => Some(Phase::Max),
        Phase::Max => Some(Phase::Min),
        Phase::Min => Some(Phase::Restore),
        Phase::Restore => Some(Phase::MuteOn),
        Phase::MuteOn => Some(Phase::MuteOff),
        Phase::MuteOff => None,
    }
}

/// Returns the phase that follows this one in the linear plan.
pub fn next_phase(p: Phase) -> (r: Option<Phase>)
    ensures
        r == next_phase_spec(p),
{
    match p {
        Phase::Assignment => Some(Phase::Max),
        Phase::Max => Some(Phase::Min),
        Phase::Min => Some(Phase::Restore),
        Phase::Restore => Some(Phase::MuteOn),
        Phase::MuteOn => Some(Phase::MuteOff),
        Phase::MuteOff => None,
    }
}

/// The tolerance a phase allows on the raw 8-bit scale: 5 where the fader
/// seeks a calibration target, exact everywhere else.
pub open spec fn phase_tolerance_spec(p: Phase) -> u8 {
    match p {
        Phase::Assignment => 5,
        Phase::Max => 0,
        Phase::Min => 0,
        Phase::Restore => 5,
        Phase::MuteOn => 0,
        Phase::MuteOff => 0,
    }
}

/// Returns the tolerance the phase allows.
pub fn phase_tolerance(p: Phase) -> (r: u8)
    ensures
        r == phase_tolerance_spec(p),
{
    match p {
        Phase::Assignment => 5,
        Phase::Max => 0,
        Phase::Min => 0,
        Phase::Restore => 5,
        Phase::MuteOn => 0,
        Phase::MuteOff => 0,
    }
}

/// The volume a channel is expected to read back in a phase. `baseline` is
/// the read-back captured at the end of the restore phase, which the two
/// mute phases must not disturb.
pub open spec fn expected_spec(p: Phase, channel: ChannelName, baseline: u8) -> u8 {
    match p {
        Phase::Assignment => calibration_spec(channel),
        Phase::Max => 255,
        Phase::Min => 0,
        Phase::Restore => calibration_spec(channel),
        Phase::MuteOn => baseline,
        Phase::MuteOff => baseline,
    }
}

/// Returns the volume a channel is expected to read back in a phase.
pub fn expected_volume(p: Phase, channel: ChannelName, baseline: u8) -> (r: u8)
    ensures
        r == expected_spec(p, channel, baseline),
{
    match p {
        Phase::Assignment => calibration_volume(channel),
        Phase::Max => 255,
        Phase::Min => 0,
        Phase::Restore => calibration_volume(channel),
        Phase::MuteOn => baseline,
        Phase::MuteOff => baseline,
    }
}

/// The commands a phase issues for a group, in issue order.
pub open spec fn phase_commands_spec(p: Phase, g: TestGroup) -> Seq<FaderCommand> {
    match p {
        Phase::Assignment => seq![
            FaderCommand::Assign { fader: FaderName::A, channel: g.a },
            FaderCommand::Assign { fader: FaderName::B, channel: g.b },
            FaderCommand::Assign { fader: FaderName::C, channel: g.c },
            FaderCommand::Assign { fader: FaderName::D, channel: g.d },
        ],
        Phase::Max => seq![
            FaderCommand::SetVolume { channel: g.a, volume: 255 },
            FaderCommand::SetVolume { channel: g.b, volume: 255 },
            FaderCommand::SetVolume { channel: g.c, volume: 255 },
            FaderCommand::SetVolume { channel: g.d, volume: 255 },
        ],
        Phase::Min => seq![
            FaderCommand::SetVolume { channel: g.a, volume: 0 },
            FaderCommand::SetVolume { channel: g.b, volume: 0 },
            FaderCommand::SetVolume { channel: g.c, volume: 0 },
            FaderCommand::SetVolume { channel: g.d, volume: 0 },
        ],
        Phase::Restore => seq![
            FaderCommand::SetVolume { channel: g.a, volume: calibration_spec(g.a) },
            FaderCommand::SetVolume { channel: g.b, volume: calibration_spec(g.b) },
            FaderCommand::SetVolume { channel: g.c, volume: calibration_spec(g.c) },
            FaderCommand::SetVolume { channel: g.d, volume: calibration_spec(g.d) },
        ],
        Phase::MuteOn => seq![
            FaderCommand::SetMute { channel: g.a, state: MuteState::Muted },
            FaderCommand::SetMute { channel: g.b, state: MuteState::Muted },
            FaderCommand::SetMute { channel: g.c, state: MuteState::Muted },
            FaderCommand::SetMute { channel: g.d, state: MuteState::Muted },
        ],
        Phase::MuteOff => seq![
            FaderCommand::SetMute { channel: g.a, state: MuteState::Unmuted },
            FaderCommand::SetMute { channel: g.b, state: MuteState::Unmuted },
            FaderCommand::SetMute { channel: g.c, state: MuteState::Unmuted },
            FaderCommand::SetMute { channel: g.d, state: MuteState::Unmuted },
        ],
    }
}

/// Returns the commands a phase issues for a group, for all four channels,
/// in issue order.
pub fn phase_commands(p: Phase, g: &TestGroup) -> (r: Vec<FaderCommand>)
    ensures
        r@ == phase_commands_spec(p, *g),
{
    let mut r: Vec<FaderCommand> = Vec::new();
    match p {
        Phase::Assignment => {
            r.push(FaderCommand::Assign { fader: FaderName::A, channel: g.a });
            r.push(FaderCommand::Assign { fader: FaderName::B, channel: g.b });
            r.push(FaderCommand::Assign { fader: FaderName::C, channel: g.c });
            r.push(FaderCommand::Assign { fader: FaderName::D, channel: g.d });
        },
        Phase::Max => {
            r.push(FaderCommand::SetVolume { channel: g.a, volume: 255 });
            r.push(FaderCommand::SetVolume { channel: g.b, volume: 255 });
            r.push(FaderCommand::SetVolume { channel: g.c, volume: 255 });
            r.push(FaderCommand::SetVolume { channel: g.d, volume: 255 });
        },
        Phase::Min => {
            r.push(FaderCommand::SetVolume { channel: g.a, volume: 0 });
            r.push(FaderCommand::SetVolume { channel: g.b, volume: 0 });
            r.push(FaderCommand::SetVolume { channel: g.c, volume: 0 });
            r.push(FaderCommand::SetVolume { channel: g.d, volume: 0 });
        },
        Phase::Restore => {
            r.push(FaderCommand::SetVolume { channel: g.a, volume: calibration_volume(g.a) });
            r.push(FaderCommand::SetVolume { channel: g.b, volume: calibration_volume(g.b) });
            r.push(FaderCommand::SetVolume { channel: g.c, volume: calibration_volume(g.c) });
            r.push(FaderCommand::SetVolume { channel: g.d, volume: calibration_volume(g.d) });
        },
        Phase::MuteOn => {
            r.push(FaderCommand::SetMute { channel: g.a, state: MuteState::Muted });
            r.push(FaderCommand::SetMute { channel: g.b, state: MuteState::Muted });
            r.push(FaderCommand::SetMute { channel: g.c, state: MuteState::Muted });
            r.push(FaderCommand::SetMute { channel: g.d, state: MuteState::Muted });
        },
        Phase::MuteOff => {
            r.push(FaderCommand::SetMute { channel: g.a, state: MuteState::Unmuted });
            r.push(FaderCommand::SetMute { channel: g.b, state: MuteState::Unmuted });
            r.push(FaderCommand::SetMute { channel: g.c, state: MuteState::Unmuted });
            r.push(FaderCommand::SetMute { channel: g.d, state: MuteState::Unmuted });
        },
    }
    proof {
        assert(r@ =~= phase_commands_spec(p, *g));
    }
    r
}

/// The assertion one channel's read-back yields in a phase.
pub open spec fn check_spec(p: Phase, channel: ChannelName, baseline: u8, measured: u8)
    -> ChannelCheck {
    ChannelCheck {
        channel,
        expected: expected_spec(p, channel, baseline),
        measured,
        outcome: compare_spec(measured, expected_spec(p, channel, baseline), phase_tolerance_spec(p)),
    }
}

/// The four assertions a phase's read-back yields, fader order A to D.
pub open spec fn evaluate_spec(p: Phase, g: TestGroup, baseline: VolumeQuad, measured: VolumeQuad)
    -> Seq<ChannelCheck> {
    seq![
        check_spec(p, g.a, baseline.a, measured.a),
        check_spec(p, g.b, baseline.b, measured.b),
        check_spec(p, g.c, baseline.c, measured.c),
        check_spec(p, g.d, baseline.d, measured.d),
    ]
}

/// Holds a phase's four read-back volumes against the phase's expected
/// values, one assertion per channel in fader order.
pub fn evaluate_phase(p: Phase, g: &TestGroup, baseline: VolumeQuad, measured: VolumeQuad) -> (r:
    Vec<ChannelCheck>)
    ensures
        r@ == evaluate_spec(p, *g, baseline, measured),
{
    let mut r: Vec<ChannelCheck> = Vec::new();
    let ea = expected_volume(p, g.a, baseline.a);
    let eb = expected_volume(p, g.b, baseline.b);
    let ec = expected_volume(p, g.c, baseline.c);
    let ed = expected_volume(p, g.d, baseline.d);
    let tol = phase_tolerance(p);
    r.push(
        ChannelCheck {
            channel: g.a,
            expected: ea,
            measured: measured.a,
            outcome: compare_volume(measured.a, ea, tol),
        },
    );
    r.push(
        ChannelCheck {
            channel: g.b,
            expected: eb,
            measured: measured.b,
            outcome: compare_volume(measured.b, eb, tol),
        },
    );
    r.push(
        ChannelCheck {
            channel: g.c,
            expected: ec,
            measured: measured.c,
            outcome: compare_volume(measured.c, ec, tol),
        },
    );
    r.push(
        ChannelCheck {
            channel: g.d,
            expected: ed,
            measured: measured.d,
            outcome: compare_volume(measured.d, ed, tol),
        },
    );
    proof {
        assert(r@ =~= evaluate_spec(p, *g, baseline, measured));
    }
    r
}

/// Where one group's run stands: the phase about to be evaluated, and the
/// baseline the mute phases compare against.
#[derive(Debug, Clone, Copy, PartialEq, Eq, Structural)]
pub struct RunState {
    pub phase: Phase,
    pub baseline: VolumeQuad,
}

/// The state after a phase's read-back was evaluated: the next phase of the
/// linear plan, with the restore read-back captured as the mute baseline.
pub open spec fn advance_spec(state: RunState, measured: VolumeQuad) -> Option<RunState> {
    match next_phase_spec(state.phase) {
        Some(p) => Some(
            RunState {
                phase: p,
                baseline: if state.phase == Phase::Restore {
                    measured
                } else {
                    state.baseline
                },
            },
        ),
        None => None,
    }
}

/// The state a group's run starts in.
pub fn start_state() -> (r: RunState)
    ensures
        r.phase == Phase::Assignment,
        r.baseline == (VolumeQuad { a: 0, b: 0, c: 0, d: 0 }),
{
    RunState { phase: Phase::Assignment, baseline: VolumeQuad { a: 0, b: 0, c: 0, d: 0 } }
}

/// One step of the per-group driver loop: evaluates the read-back of the
/// current phase and says where the run goes next. The driver issues
/// `phase_commands` for the current phase, waits the settle time, reads the
/// volumes back, and hands them here.
pub fn run_step(state: RunState, g: &TestGroup, measured: VolumeQuad) -> (r: (
    Vec<ChannelCheck>,
    Option<RunState>,
))
    ensures
        r.0@ == evaluate_spec(state.phase, *g, state.baseline, measured),
        r.1 == advance_spec(state, measured),
{
    let checks = evaluate_phase(state.phase, g, state.baseline, measured);
    let next = match next_phase(state.phase) {
        Some(p) => {
            let baseline = if matches!(state.phase, Phase::Restore) {
                measured
            } else {
                state.baseline
            };
            Some(RunState { phase: p, baseline })
        },
        None => None,
    };
    (checks, next)
}

/// The three fixed groups of the test plan, in run order.
pub open spec fn test_groups_spec() -> Seq<TestGroup> {
    seq![
        TestGroup {
            a: ChannelName::Mic,
            b: ChannelName::LineIn,
            c: ChannelName::Console,
            d: ChannelName::System,
        },
        TestGroup {
            a: ChannelName::Game,
            b: ChannelName::Chat,
            c: ChannelName::Sample,
            d: ChannelName::Music,
        },
        TestGroup {
            a: ChannelName::Headphones,
            b: ChannelName::MicMonitor,
            c: ChannelName::LineOut,
            d: ChannelName::Mic,
        },
    ]
}

/// Returns the three fixed groups of the test plan, in run order.
pub fn test_groups() -> (r: Vec<TestGroup>)
    ensures
        r@ == test_groups_spec(),
{
    let mut r: Vec<TestGroup> = Vec::new();
    r.push(
        TestGroup {
            a: ChannelName::Mic,
            b: ChannelName::LineIn,
            c: ChannelName::Console,
            d: ChannelName::System,
        },
    );
    r.push(
        TestGroup {
            a: ChannelName::Game,
            b: ChannelName::Chat,
            c: ChannelName::Sample,
            d: ChannelName::Music,
        },
    );
    r.push(
        TestGroup {
            a: ChannelName::Headphones,
            b: ChannelName::MicMonitor,
            c: ChannelName::LineOut,
            d: ChannelName::Mic,
        },
    );
    proof {
        assert(r@ =~= test_groups_spec());
    }
    r
}

/// The volume commands that put every channel at its calibration target,
/// issued once before any group runs.
pub open spec fn initial_commands_spec() -> Seq<FaderCommand> {
    crate::channels::all_channels_spec().map(
        |i: int, ch: ChannelName|
            FaderCommand::SetVolume { channel: ch, volume: calibration_spec(ch) },
    )
}

/// Returns the commands that apply the calibration volume to every channel.
pub fn initial_volume_commands() -> (r: Vec<FaderCommand>)
    ensures
        r@ == initial_commands_spec(),
{
    let channels = crate::channels::all_channels();
    let mut r: Vec<FaderCommand> = Vec::new();
    let mut i: usize = 0;
    while i < channels.len()
        invariant
            0 <= i <= channels@.len(),
            channels@ == crate::channels::all_channels_spec(),
            r@ == initial_commands_spec().take(i as int),
        decreases channels@.len() - i,
    {
        let ch = channels[i];
        r.push(FaderCommand::SetVolume { channel: ch, volume: calibration_volume(ch) });
        proof {
            assert(r@ =~= initial_commands_spec().take(i as int + 1));
        }
        i = i + 1;
    }
    proof {
        assert(r@ =~= initial_commands_spec());
    }
    r
}

/// Two passing runs of the Max phase read back identically: its tolerance is
/// zero and its target full scale, so every passing read-back is exactly 255
/// on all four faders, whatever baselines the runs carried.
pub proof fn lemma_max_phase_idempotent(
    g: TestGroup,
    b1: VolumeQuad,
    b2: VolumeQuad,
    m1: VolumeQuad,
    m2: VolumeQuad,
)
    requires
        forall|i: int|
            0 <= i < 4 ==> (#[trigger] evaluate_spec(Phase::Max, g, b1, m1)[i]).outcome.is_pass(),
        forall|i: int|
            0 <= i < 4 ==> (#[trigger] evaluate_spec(Phase::Max, g, b2, m2)[i]).outcome.is_pass(),
    ensures
        m1 == (VolumeQuad { a: 255, b: 255, c: 255, d: 255 }),
        m1 == m2,
{
    assert(evaluate_spec(Phase::Max, g, b1, m1)[0].outcome.is_pass());
    assert(evaluate_spec(Phase::Max, g, b1, m1)[1].outcome.is_pass());
    assert(evaluate_spec(Phase::Max, g, b1, m1)[2].outcome.is_pass());
    assert(evaluate_spec(Phase::Max, g, b1, m1)[3].outcome.is_pass());
    assert(evaluate_spec(Phase::Max, g, b2, m2)[0].outcome.is_pass());
    assert(evaluate_spec(Phase::Max, g, b2, m2)[1].outcome.is_pass());
    assert(evaluate_spec(Phase::Max, g, b2, m2)[2].outcome.is_pass());
    assert(evaluate_spec(Phase::Max, g, b2, m2)[3].outcome.is_pass());
}

/// A passing mute-phase check pins the fader: with tolerance zero, the
/// read-back after a mute-state change equals the baseline captured at the
/// end of the restore phase exactly.
pub proof fn lemma_mute_phase_fader_still(
    p: Phase,
    g: TestGroup,
    baseline: VolumeQuad,
    measured: VolumeQuad,
)
    requires
        p == Phase::MuteOn || p == Phase::MuteOff,
        forall|i: int|
            0 <= i < 4 ==> (#[trigger] evaluate_spec(p, g, baseline, measured)[i]).outcome.is_pass(),
    ensures
        measured == baseline,
{
    assert(evaluate_spec(p, g, baseline, measured)[0].outcome.is_pass());
    assert(evaluate_spec(p, g, baseline, measured)[1].outcome.is_pass());
    assert(evaluate_spec(p, g, baseline, measured)[2].outcome.is_pass());
    assert(evaluate_spec(p, g, baseline, measured)[3].outcome.is_pass());
}

} // verus!
