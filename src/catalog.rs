//! Building blocks of the model catalog: manufacturers, and the standard
//! input and output layouts of a unit.
use vstd::prelude::*;

use crate::model::{
    audio_input_count, audio_output_count, ControlChannels, ModelInput, ModelInputs, ModelOutput,
    ModelOutputs,
};

verus! {

pub enum Manufacturers {
    AudioCloud,
    Distopik,
    Elysia,
    Bettermaker,
    Cockos,
    Tierra,
    Gyraf,
    Netio,
}

/// The name under which a manufacturer appears in model identifiers.
pub open spec fn manufacturer_name(m: Manufacturers) -> Seq<char> {
    match m {
        Manufacturers::Distopik => "distopik"@,
        Manufacturers::Elysia => "elysia"@,
        Manufacturers::Bettermaker => "bettermaker"@,
        Manufacturers::Cockos => "cockos"@,
        Manufacturers::Tierra => "tierra"@,
        Manufacturers::Gyraf => "gyraf"@,
        Manufacturers::AudioCloud => "audio_cloud"@,
        Manufacturers::Netio => "netio"@,
    }
}

impl Manufacturers {
    pub fn to_string(&self) -> (r: String)
        ensures
            r@ == manufacturer_name(*self),
    {
        let name: &str = match self {
            Manufacturers::Distopik => "distopik",
            Manufacturers::Elysia => "elysia",
            Manufacturers::Bettermaker => "bettermaker",
            Manufacturers::Cockos => "cockos",
            Manufacturers::Tierra => "tierra",
            Manufacturers::Gyraf => "gyraf",
            Manufacturers::AudioCloud => "audio_cloud",
            Manufacturers::Netio => "netio",
        };
        name.to_owned()
    }
}

proof fn lemma_all_audio_inputs(s: Seq<ModelInput>)
    requires
        forall|i: int| 0 <= i < s.len() ==> #[trigger] s[i] is Audio,
    ensures
        audio_input_count(s) == s.len(),
    decreases s.len(),
{
    if s.len() > 0 {
        lemma_all_audio_inputs(s.drop_last());
    }
}

proof fn lemma_all_audio_outputs(s: Seq<ModelOutput>)
    requires
        forall|i: int| 0 <= i < s.len() ==> #[trigger] s[i] is Audio,
    ensures
        audio_output_count(s) == s.len(),
    decreases s.len(),
{
    if s.len() > 0 {
        lemma_all_audio_outputs(s.drop_last());
    }
}

pub fn mono_input() -> (r: ModelInputs)
    ensures
        r@ == seq![ModelInput::Audio(ControlChannels::Global)],
{
    vec![ModelInput::Audio(ControlChannels::Global)]
}

pub fn mono_output() -> (r: ModelOutputs)
    ensures
        r@ == seq![ModelOutput::Audio(ControlChannels::Global)],
{
    vec![ModelOutput::Audio(ControlChannels::Global)]
}

pub fn left_and_right_inputs() -> (r: ModelInputs)
    ensures
        r@ == seq![ModelInput::Audio(ControlChannels::Left), ModelInput::Audio(ControlChannels::Right)],
{
    vec![ModelInput::Audio(ControlChannels::Left), ModelInput::Audio(ControlChannels::Right)]
}

pub fn left_and_right_outputs() -> (r: ModelOutputs)
    ensures
        r@ == seq![ModelOutput::Audio(ControlChannels::Left), ModelOutput::Audio(ControlChannels::Right)],
{
    vec![ModelOutput::Audio(ControlChannels::Left), ModelOutput::Audio(ControlChannels::Right)]
}

/// `count` copies of `role`.
pub fn repeat_channels<R: Copy>(count: usize, role: R) -> (r: Vec<R>)
    ensures
        r@ == Seq::new(count as nat, |i: int| role),
{
    let mut r: Vec<R> = Vec::new();
    while r.len() < count
        invariant
            r@.len() <= count,
            r@ == Seq::new(r@.len(), |i: int| role),
        decreases count - r@.len(),
    {
        r.push(role);
        assert(r@ =~= Seq::new(r@.len(), |i: int| role));
    }
    r
}

/// The usual inputs of a unit with `count` audio channels: one global
/// channel, a left and right pair, or `count` generic channels.
pub fn standard_inputs(count: usize) -> (r: ModelInputs)
    ensures
        r@ == if count == 1 {
            seq![ModelInput::Audio(ControlChannels::Global)]
        } else if count == 2 {
            seq![ModelInput::Audio(ControlChannels::Left), ModelInput::Audio(ControlChannels::Right)]
        } else {
            Seq::new(count as nat, |i: int| ModelInput::Audio(ControlChannels::Generic))
        },
        audio_input_count(r@) == count,
{
    let r = match count {
        1 => mono_input(),
        2 => left_and_right_inputs(),
        n => repeat_channels(n, ModelInput::Audio(ControlChannels::Generic)),
    };
    proof {
        lemma_all_audio_inputs(r@);
    }
    r
}

/// The usual outputs of a unit with `count` audio channels.
pub fn standard_outputs(count: usize) -> (r: ModelOutputs)
    ensures
        r@ == if count == 1 {
            seq![ModelOutput::Audio(ControlChannels::Global)]
        } else if count == 2 {
            seq![ModelOutput::Audio(ControlChannels::Left), ModelOutput::Audio(ControlChannels::Right)]
        } else {
            Seq::new(count as nat, |i: int| ModelOutput::Audio(ControlChannels::Generic))
        },
        audio_output_count(r@) == count,
{
    let r = match count {
        1 => mono_output(),
        2 => left_and_right_outputs(),
        n => repeat_channels(n, ModelOutput::Audio(ControlChannels::Generic)),
    };
    proof {
        lemma_all_audio_outputs(r@);
    }
    r
}

} // verus!
