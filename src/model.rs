//! Processing models: the catalog entries that describe a kind of processor,
//! among them the audio inputs and outputs that fix its channel counts.
use vstd::prelude::*;

use crate::id_map::IdMap;
use crate::ids::{ParameterId, ReportId};
use crate::FloatBits;

verus! {

#[derive(Clone, Copy, Debug, PartialEq, Eq, Structural)]
pub enum ModelValueUnit {
    Unitless,
    Percent,
    Decibels,
    Hertz,
    Octaves,
    Toggle,
    Amperes,
    WattHours,
}

impl Default for ModelValueUnit {
    fn default() -> (r: Self)
        ensures
            r == ModelValueUnit::Unitless,
    {
        ModelValueUnit::Unitless
    }
}

/// A single parameter or report value.
#[derive(Debug, PartialEq)]
pub enum ModelValue {
    String(String),
    Number(FloatBits),
    Bool(bool),
}

impl Clone for ModelValue {
    fn clone(&self) -> (r: Self)
        ensures
            r == *self,
    {
        match self {
            ModelValue::String(s) => ModelValue::String(s.clone()),
            ModelValue::Number(n) => ModelValue::Number(*n),
            ModelValue::Bool(b) => ModelValue::Bool(*b),
        }
    }
}

/// The values a parameter or report may take: one value, or a range.
#[derive(Debug, PartialEq)]
pub enum ModelValueOption {
    Single(ModelValue),
    Range(ModelValue, ModelValue),
}

#[derive(Clone, Copy, Debug, PartialEq, Eq, Hash, Structural)]
pub enum SimpleModelValueType {
    String,
    Number { integer: bool, signed: bool },
    Bool,
}

/// Failure to combine two value types.
#[derive(Clone, Copy, Debug, PartialEq, Eq, Structural)]
pub enum ModelValueError {
    /// Only numeric types may be widened.
    NotNumeric,
}

impl SimpleModelValueType {
    /// The narrowest numeric type that holds the values of both: signed if
    /// either is, integer only if both are.
    pub fn try_widen(self, other: SimpleModelValueType) -> (r: Result<
        SimpleModelValueType,
        ModelValueError,
    >)
        ensures
            match (self, other) {
                (
                    SimpleModelValueType::Number { integer: i1, signed: s1 },
                    SimpleModelValueType::Number { integer: i2, signed: s2 },
                ) => r == Ok::<SimpleModelValueType, ModelValueError>(
                    SimpleModelValueType::Number { integer: i1 && i2, signed: s1 || s2 },
                ),
                _ => r == Err::<SimpleModelValueType, ModelValueError>(ModelValueError::NotNumeric),
            },
    {
        match (self, other) {
            (
                SimpleModelValueType::Number { signed: s1, integer: i1 },
                SimpleModelValueType::Number { signed: s2, integer: i2 },
            ) => Ok(SimpleModelValueType::Number { signed: s1 || s2, integer: i1 && i2 }),
            _ => Err(ModelValueError::NotNumeric),
        }
    }
}

#[derive(Clone, Copy, Debug, PartialEq, Eq, Structural)]
pub enum ModelValueType {
    Single(SimpleModelValueType),
    Either(SimpleModelValueType, SimpleModelValueType),
    Any,
}

/// Which channel of a unit an input, output or control belongs to.
#[derive(Clone, Copy, Debug, PartialEq, Eq, Hash, Structural)]
pub enum ControlChannels {
    Global,
    Left,
    Right,
    Generic,
}

#[derive(Clone, Copy, Debug, PartialEq, Eq, Structural)]
pub enum ModelInput {
    Audio(ControlChannels),
    Sidechain,
    Midi,
}

#[derive(Clone, Copy, Debug, PartialEq, Eq, Structural)]
pub enum ModelOutput {
    Audio(ControlChannels),
    Midi,
}

pub type ModelInputs = Vec<ModelInput>;

pub type ModelOutputs = Vec<ModelOutput>;

/// Values per channel; a channel without a value holds `None`.
pub type MultiChannelValue = Vec<Option<ModelValue>>;

#[derive(Clone, Copy, Debug, PartialEq, Eq, Hash, Structural)]
pub enum ModelCapability {
    PowerDistributor,
    AudioRouter,
    AudioMixer,
    DigitalInputOutput,
}

#[derive(Clone, Copy, Debug, PartialEq, Eq, Hash, Structural)]
pub enum ResourceId {
    Memory,
    CPU,
    GPU,
    AntelopeDSP,
    UniversalAudioDSP,
}

#[derive(Clone, Copy, Debug, PartialEq, Eq, Structural)]
pub enum FilterId {
    HighPass,
    Low,
    LowMid,
    Mid,
    HighMid,
    High,
    LowPass,
    BandPass,
    Dynamics,
    DeEsser,
}

#[derive(Clone, Copy, Debug, PartialEq, Eq, Structural)]
pub enum AmplifierId {
    Input,
    Output,
    Global,
    InsertInput,
    InsertOutput,
}

#[derive(Clone, Copy, Debug, PartialEq, Eq, Structural)]
pub enum DynamicsId {
    Total,
    Compressor,
    Gate,
    Limiter,
    DeEsser,
}

#[derive(Clone, Copy, Debug, PartialEq, Eq, Structural)]
pub enum ChannelParameterRole {
    Pan,
}

#[derive(Clone, Copy, Debug, PartialEq, Eq, Structural)]
pub enum GlobalParameterRole {
    Enable,
    Bypass,
}

#[derive(Clone, Copy, Debug, PartialEq, Eq, Structural)]
pub enum AmplifierParameterRole {
    Enable,
    Gain,
    Distortion,
    SlewRate,
}

#[derive(Clone, Copy, Debug, PartialEq, Eq, Structural)]
pub enum DynamicsParameterRole {
    Ratio,
    Threshold,
    Ceiling,
    Attack,
    Release,
    AutoRelease,
    AutoAttack,
    AutoRatio,
    Knee,
    DetectorInput,
    DetectorMaterial,
    DetectorFilter,
    MidEmphasis,
}

#[derive(Clone, Copy, Debug, PartialEq, Eq, Structural)]
pub enum FilterParameterRole {
    Gain,
    GainDirection,
    Frequency,
    Bandwidth,
    Type,
}

#[derive(Clone, Copy, Debug, PartialEq, Eq, Structural)]
pub enum ModelParameterRole {
    NoRole,
    Power,
    Global(GlobalParameterRole),
    Channel(ChannelParameterRole),
    Amplifier(AmplifierId, AmplifierParameterRole),
    Dynamics(DynamicsId, DynamicsParameterRole),
    Filter(FilterId, FilterParameterRole),
}

#[derive(Clone, Copy, Debug, PartialEq, Eq, Structural)]
pub enum PowerReportRole {
    Powered,
    Current,
    PowerFactor,
    TotalEnergy,
}

#[derive(Clone, Copy, Debug, PartialEq, Eq, Structural)]
pub enum AmplifierReportRole {
    PeakVolume,
    RmsVolume,
    LufsVolumeMomentary,
    LufsVolumeShortTerm,
    LufsVolumeIntegrated,
}

#[derive(Clone, Copy, Debug, PartialEq, Eq, Structural)]
pub enum DynamicsReportRole {
    GainReduction,
    GainReductionLimitHit,
}

#[derive(Clone, Copy, Debug, PartialEq, Eq, Structural)]
pub enum ModelReportRole {
    NoRole,
    Power(PowerReportRole),
    Amplifier(AmplifierId, AmplifierReportRole),
    Dynamics(DynamicsId, DynamicsReportRole),
}

/// How many channels a parameter or report covers.
#[derive(Clone, Copy, Debug, PartialEq, Eq, Structural)]
pub enum ModelElementScope {
    Global,
    AllInputs,
    AllOutputs,
    Count(usize),
}

/// Either an on/off toggle or a value.
#[derive(Clone, Copy, Debug, PartialEq)]
pub enum ToggleOr<T> {
    Toggle(bool),
    Value(T),
}

/// A left and a right value.
#[derive(Clone, Copy, Debug, PartialEq)]
pub struct Stereo<T> {
    pub left: T,
    pub right: T,
}

#[derive(Debug, PartialEq)]
pub struct ModelParameter {
    pub scope: ModelElementScope,
    pub unit: ModelValueUnit,
    pub role: ModelParameterRole,
    pub values: Vec<ModelValueOption>,
}

#[derive(Debug, PartialEq)]
pub struct ModelReport {
    pub scope: ModelElementScope,
    pub unit: ModelValueUnit,
    pub role: ModelReportRole,
    pub values: Vec<ModelValueOption>,
    pub public: bool,
    pub volatile: bool,
}

/// A model describes the inputs, outputs, parameters and reports of a kind of
/// processor.
pub struct Model {
    /// Amount of each resource that one instance needs, one entry per resource.
    pub resources: Vec<(ResourceId, FloatBits)>,
    pub inputs: ModelInputs,
    pub outputs: ModelOutputs,
    pub parameters: IdMap<ParameterId, ModelParameter>,
    pub reports: IdMap<ReportId, ModelReport>,
    pub media: bool,
    pub capabilities: Vec<ModelCapability>,
}

/// Number of audio inputs in `inputs`.
pub open spec fn audio_input_count(inputs: Seq<ModelInput>) -> nat
    decreases inputs.len(),
{
    if inputs.len() == 0 {
        0
    } else {
        audio_input_count(inputs.drop_last()) + if inputs.last() is Audio {
            1nat
        } else {
            0nat
        }
    }
}

/// Number of audio outputs in `outputs`.
pub open spec fn audio_output_count(outputs: Seq<ModelOutput>) -> nat
    decreases outputs.len(),
{
    if outputs.len() == 0 {
        0
    } else {
        audio_output_count(outputs.drop_last()) + if outputs.last() is Audio {
            1nat
        } else {
            0nat
        }
    }
}

proof fn lemma_audio_input_count_bound(inputs: Seq<ModelInput>)
    ensures
        audio_input_count(inputs) <= inputs.len(),
    decreases inputs.len(),
{
    if inputs.len() > 0 {
        lemma_audio_input_count_bound(inputs.drop_last());
    }
}

proof fn lemma_audio_output_count_bound(outputs: Seq<ModelOutput>)
    ensures
        audio_output_count(outputs) <= outputs.len(),
    decreases outputs.len(),
{
    if outputs.len() > 0 {
        lemma_audio_output_count_bound(outputs.drop_last());
    }
}

impl Model {
    /// Number of audio input channels: the audio entries among the inputs.
    pub fn get_audio_input_channel_count(&self) -> (r: usize)
        ensures
            r == audio_input_count(self.inputs@),
    {
        let mut count: usize = 0;
        let mut i: usize = 0;
        while i < self.inputs.len()
            invariant
                i <= self.inputs@.len(),
                count == audio_input_count(self.inputs@.subrange(0, i as int)),
            decreases self.inputs@.len() - i,
        {
            proof {
                assert(self.inputs@.subrange(0, i + 1).drop_last() =~= self.inputs@.subrange(
                    0,
                    i as int,
                ));
                lemma_audio_input_count_bound(self.inputs@.subrange(0, i as int));
            }
            if let ModelInput::Audio(_) = self.inputs[i] {
                count = count + 1;
            }
            i = i + 1;
        }
        assert(self.inputs@.subrange(0, i as int) =~= self.inputs@);
        count
    }

    /// Number of audio output channels: the audio entries among the outputs.
    pub fn get_audio_output_channel_count(&self) -> (r: usize)
        ensures
            r == audio_output_count(self.outputs@),
    {
        let mut count: usize = 0;
        let mut i: usize = 0;
        while i < self.outputs.len()
            invariant
                i <= self.outputs@.len(),
                count == audio_output_count(self.outputs@.subrange(0, i as int)),
            decreases self.outputs@.len() - i,
        {
            proof {
                assert(self.outputs@.subrange(0, i + 1).drop_last() =~= self.outputs@.subrange(
                    0,
                    i as int,
                ));
                lemma_audio_output_count_bound(self.outputs@.subrange(0, i as int));
            }
            if let ModelOutput::Audio(_) = self.outputs[i] {
                count = count + 1;
            }
            i = i + 1;
        }
        assert(self.outputs@.subrange(0, i as int) =~= self.outputs@);
        count
    }
}

impl Default for Model {
    fn default() -> (r: Self)
        ensures
            r.resources@.len() == 0,
            r.inputs@.len() == 0,
            r.outputs@.len() == 0,
            r.parameters@ == Map::<Seq<char>, ModelParameter>::empty(),
            r.reports@ == Map::<Seq<char>, ModelReport>::empty(),
            !r.media,
            r.capabilities@.len() == 0,
    {
        Model {
            resources: Vec::new(),
            inputs: Vec::new(),
            outputs: Vec::new(),
            parameters: IdMap::new(),
            reports: IdMap::new(),
            media: false,
            capabilities: Vec::new(),
        }
    }
}

impl ModelElementScope {
    /// Number of channels the scope covers on `model`.
    pub fn len(self, model: &Model) -> (r: usize)
        ensures
            r == match self {
                ModelElementScope::Global => 1,
                ModelElementScope::AllInputs => model.inputs@.len(),
                ModelElementScope::AllOutputs => model.outputs@.len(),
                ModelElementScope::Count(n) => n as nat,
            },
    {
        match self {
            ModelElementScope::Global => 1,
            ModelElementScope::AllInputs => model.inputs.len(),
            ModelElementScope::AllOutputs => model.outputs.len(),
            ModelElementScope::Count(num) => num,
        }
    }
}

/// A value on the 1-based channel `channel` only.
pub fn single(channel: usize, value: ModelValue) -> (r: MultiChannelValue)
    requires
        channel >= 1,
    ensures
        r@.len() == channel,
        r@[channel - 1] == Some(value),
        forall|i: int| 0 <= i < channel - 1 ==> r@[i] is None,
{
    let mut r: MultiChannelValue = Vec::new();
    while r.len() < channel - 1
        invariant
            r@.len() <= channel - 1,
            forall|i: int| 0 <= i < r@.len() ==> r@[i] is None,
        decreases channel - 1 - r@.len(),
    {
        r.push(None);
    }
    r.push(Some(value));
    r
}

/// `other` laid over `first`: each channel takes the value of `other` where it
/// has one and keeps that of `first` elsewhere; channels past the end of
/// `first` come from `other`.
pub fn join(first: MultiChannelValue, other: MultiChannelValue) -> (r: MultiChannelValue)
    ensures
        r@.len() == if first@.len() >= other@.len() {
            first@.len()
        } else {
            other@.len()
        },
        forall|i: int|
            0 <= i < r@.len() ==> #[trigger] r@[i] == if i < other@.len() && (i >= first@.len()
                || other@[i] is Some) {
                other@[i]
            } else {
                first@[i]
            },
{
    let mut first = first;
    let ghost first0 = first@;
    let mut index: usize = 0;
    while index < other.len()
        invariant
            index <= other@.len(),
            first@.len() == if first0.len() >= index {
                first0.len()
            } else {
                index as nat
            },
            forall|i: int|
                0 <= i < first@.len() ==> #[trigger] first@[i] == if i < index && (i >= first0.len()
                    || other@[i] is Some) {
                    other@[i]
                } else {
                    first0[i]
                },
        decreases other@.len() - index,
    {
        let value = match &other[index] {
            Some(v) => Some(v.clone()),
            None => None,
        };
        if index >= first.len() {
            first.push(value);
        } else if value.is_some() {
            first.set(index, value);
        }
        index = index + 1;
    }
    first
}

} // verus!
