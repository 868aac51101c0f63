//! Logical audio channels, fader slots, and the fixed calibration table of
//! target volumes.

use vstd::prelude::*;

verus! {

/// A logical audio source or sink that can be assigned to a fader and
/// independently muted.
#[derive(Debug, Clone, Copy, PartialEq, Eq, Structural)]
pub enum ChannelName {
    Mic,
    LineIn,
    Console,
    System,
    Game,
    Chat,
    Sample,
    Music,
    Headphones,
    MicMonitor,
    LineOut,
}

/// One of the four physical fader slots of a full-size device.
#[derive(Debug, Clone, Copy, PartialEq, Eq, Structural)]
pub enum FaderName {
    A,
    B,
    C,
    D,
}

/// Mute state of a channel as the transport understands it.
#[derive(Debug, Clone, Copy, PartialEq, Eq, Structural)]
pub enum MuteState {
    Muted,
    Unmuted,
}

/// The calibration target volume for each channel. The extreme values 0 and
/// 255 are deliberately absent so the explicit top and bottom tests stay
/// distinguishable from steady-state targets.
pub open spec fn calibration_spec(channel: ChannelName) -> u8 {
    match channel {
        ChannelName::Mic => 10,
        ChannelName::LineIn => 30,
        ChannelName::Console => 50,
        ChannelName::System => 70,
        ChannelName::Game => 90,
        ChannelName::Chat => 110,
        ChannelName::Sample => 130,
        ChannelName::Music => 245,
        ChannelName::Headphones => 170,
        ChannelName::MicMonitor => 190,
        ChannelName::LineOut => 210,
    }
}

/// Returns the calibration target volume for a channel; never one of the
/// extremes 0 or 255.
pub fn calibration_volume(channel: ChannelName) -> (v: u8)
    ensures
        v == calibration_spec(channel),
        0 < v < 255,
{
    match channel {
        ChannelName::Mic => 10,
        ChannelName::LineIn => 30,
        ChannelName::Console => 50,
        ChannelName::System => 70,
        ChannelName::Game => 90,
        ChannelName::Chat => 110,
        ChannelName::Sample => 130,
        ChannelName::Music => 245,
        ChannelName::Headphones => 170,
        ChannelName::MicMonitor => 190,
        ChannelName::LineOut => 210,
    }
}

/// Every channel, in the fixed order used when the initial calibration
/// volumes are applied.
pub open spec fn all_channels_spec() -> Seq<ChannelName> {
    seq![
        ChannelName::Mic,
        ChannelName::LineIn,
        ChannelName::Console,
        ChannelName::System,
        ChannelName::Game,
        ChannelName::Chat,
        ChannelName::Sample,
        ChannelName::Music,
        ChannelName::Headphones,
        ChannelName::MicMonitor,
        ChannelName::LineOut,
    ]
}

/// Returns every channel once, in the fixed calibration order.
pub fn all_channels() -> (r: Vec<ChannelName>)
    ensures
        r@ == all_channels_spec(),
{
    let mut r: Vec<ChannelName> = Vec::new();
    r.push(ChannelName::Mic);
    r.push(ChannelName::LineIn);
    r.push(ChannelName::Console);
    r.push(ChannelName::System);
    r.push(ChannelName::Game);
    r.push(ChannelName::Chat);
    r.push(ChannelName::Sample);
    r.push(ChannelName::Music);
    r.push(ChannelName::Headphones);
    r.push(ChannelName::MicMonitor);
    r.push(ChannelName::LineOut);
    proof {
        assert(r@ =~= all_channels_spec());
    }
    r
}

impl ChannelName {
    /// Short display name of the channel for operator-facing lines.
    pub fn label(self) -> (r: &'static str)
        ensures
            r@ == self.label_spec(),
    {
        match self {
            ChannelName::Mic => "Mic",
            ChannelName::LineIn => "LineIn",
            ChannelName::Console => "Console",
            ChannelName::System => "System",
            ChannelName::Game => "Game",
            ChannelName::Chat => "Chat",
            ChannelName::Sample => "Sample",
            ChannelName::Music => "Music",
            ChannelName::Headphones => "Headphones",
            ChannelName::MicMonitor => "MicMonitor",
            ChannelName::LineOut => "LineOut",
        }
    }

    /// The characters of the channel's display name.
    pub open spec fn label_spec(self) -> Seq<char> {
        match self {
            ChannelName::Mic => "Mic"@,
            ChannelName::LineIn => "LineIn"@,
            ChannelName::Console => "Console"@,
            ChannelName::System => "System"@,
            ChannelName::Game => "Game"@,
            ChannelName::Chat => "Chat"@,
            ChannelName::Sample => "Sample"@,
            ChannelName::Music => "Music"@,
            ChannelName::Headphones => "Headphones"@,
            ChannelName::MicMonitor => "MicMonitor"@,
            ChannelName::LineOut => "LineOut"@,
        }
    }
}

/// Maps the driver's mute flag to the channel state the transport expects.
pub fn mute_state_of(mute: bool) -> (r: MuteState)
    ensures
        r == (if mute {
            MuteState::Muted
        } else {
            MuteState::Unmuted
        }),
{
    if mute {
        MuteState::Muted
    } else {
        MuteState::Unmuted
    }
}

} // verus!
