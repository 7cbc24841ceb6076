//! Power and play states of processing instances, as reported and as wanted.
use vstd::prelude::*;

use crate::FloatBits;

verus! {

/// Sample rate of a playback.
#[derive(Clone, Copy, Debug, PartialEq, Eq, Structural)]
pub enum SampleRate {
    SR192,
    SR96,
    SR88_2,
    SR48,
    SR44_1,
}

/// Bit depth of a playback.
#[derive(Clone, Copy, Debug, PartialEq, Eq, Structural)]
pub enum PlayBitDepth {
    PD24,
    PD16,
}

/// Samples per second.
impl From<SampleRate> for usize {
    fn from(rate: SampleRate) -> (r: usize) {
        match rate {
            SampleRate::SR192 => 192_000,
            SampleRate::SR96 => 96_000,
            SampleRate::SR88_2 => 88_200,
            SampleRate::SR48 => 48_000,
            SampleRate::SR44_1 => 44_100,
        }
    }
}

impl vstd::std_specs::convert::FromSpecImpl<SampleRate> for usize {
    open spec fn obeys_from_spec() -> bool {
        true
    }

    open spec fn from_spec(rate: SampleRate) -> usize {
        match rate {
            SampleRate::SR192 => 192_000,
            SampleRate::SR96 => 96_000,
            SampleRate::SR88_2 => 88_200,
            SampleRate::SR48 => 48_000,
            SampleRate::SR44_1 => 44_100,
        }
    }
}

/// Bits per sample.
impl From<PlayBitDepth> for usize {
    fn from(depth: PlayBitDepth) -> (r: usize) {
        match depth {
            PlayBitDepth::PD24 => 24,
            PlayBitDepth::PD16 => 16,
        }
    }
}

impl vstd::std_specs::convert::FromSpecImpl<PlayBitDepth> for usize {
    open spec fn obeys_from_spec() -> bool {
        true
    }

    open spec fn from_spec(depth: PlayBitDepth) -> usize {
        match depth {
            PlayBitDepth::PD24 => 24,
            PlayBitDepth::PD16 => 16,
        }
    }
}

/// Identifier of a playback session.
#[derive(Clone, Copy, Debug, PartialEq, Eq, Hash, Structural)]
pub struct PlayId(pub u64);

/// Identifier of a render job.
#[derive(Clone, Copy, Debug, PartialEq, Eq, Hash, Structural)]
pub struct RenderId(pub u64);

#[derive(Clone, Copy, Debug, PartialEq, Eq, Structural)]
pub enum InstancePlayState {
    PreparingToPlay { play_id: PlayId },
    Playing { play_id: PlayId },
    PreparingToRender { length: FloatBits, render_id: RenderId },
    Rendering { length: FloatBits, render_id: RenderId },
    Rewinding { to: FloatBits },
    Stopping,
    Stopped,
}

#[derive(Clone, Copy, Debug, PartialEq, Eq, Structural)]
pub enum DesiredInstancePlayState {
    Playing { play_id: PlayId },
    Rendering { length: FloatBits, render_id: RenderId },
    Stopped,
}

impl InstancePlayState {
    /// Whether the instance is where `required` wants it: playing the same
    /// session, rendering the same job, or stopped.
    pub fn satisfies(&self, required: &DesiredInstancePlayState) -> (r: bool)
        ensures
            r == match (*self, *required) {
                (
                    InstancePlayState::Playing { play_id },
                    DesiredInstancePlayState::Playing { play_id: wanted },
                ) => play_id == wanted,
                (
                    InstancePlayState::Rendering { render_id, .. },
                    DesiredInstancePlayState::Rendering { render_id: wanted, .. },
                ) => render_id == wanted,
                (InstancePlayState::Stopped, DesiredInstancePlayState::Stopped) => true,
                _ => false,
            },
    {
        match (self, required) {
            (
                InstancePlayState::Playing { play_id },
                DesiredInstancePlayState::Playing { play_id: desired_play_id },
            ) => play_id.0 == desired_play_id.0,
            (
                InstancePlayState::Rendering { render_id, .. },
                DesiredInstancePlayState::Rendering { render_id: desired_render_id, .. },
            ) => render_id.0 == desired_render_id.0,
            (InstancePlayState::Stopped, DesiredInstancePlayState::Stopped) => true,
            _ => false,
        }
    }
}

#[derive(Clone, Copy, Debug, PartialEq, Eq, Structural)]
pub enum InstancePowerState {
    PoweringUp,
    ShuttingDown,
    PoweredUp,
    ShutDown,
}

#[derive(Clone, Copy, Debug, PartialEq, Eq, Structural)]
pub enum DesiredInstancePowerState {
    PoweredUp,
    ShutDown,
}

impl InstancePowerState {
    /// The settled state that a power flag reports.
    pub fn from_bool(power: bool) -> (r: Self)
        ensures
            r == if power {
                InstancePowerState::PoweredUp
            } else {
                InstancePowerState::ShutDown
            },
    {
        match power {
            true => InstancePowerState::PoweredUp,
            false => InstancePowerState::ShutDown,
        }
    }

    /// Whether the instance has settled in the wanted state; one still
    /// powering up or shutting down satisfies neither.
    pub fn satisfies(self, desired: DesiredInstancePowerState) -> (r: bool)
        ensures
            r == ((self == InstancePowerState::PoweredUp && desired
                == DesiredInstancePowerState::PoweredUp) || (self == InstancePowerState::ShutDown
                && desired == DesiredInstancePowerState::ShutDown)),
    {
        match (self, desired) {
            (InstancePowerState::PoweredUp, DesiredInstancePowerState::PoweredUp) => true,
            (InstancePowerState::ShutDown, DesiredInstancePowerState::ShutDown) => true,
            _ => false,
        }
    }
}

impl DesiredInstancePowerState {
    /// The power flag that asks for this state.
    pub fn to_bool(self) -> (r: bool)
        ensures
            r == (self == DesiredInstancePowerState::PoweredUp),
    {
        match self {
            DesiredInstancePowerState::PoweredUp => true,
            DesiredInstancePowerState::ShutDown => false,
        }
    }
}

} // verus!
