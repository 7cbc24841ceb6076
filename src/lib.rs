//! The task specification graph of an audio-processing job: nodes (tracks,
//! mixers, fixed and dynamic instances) joined by connections between their
//! pads, the operations that edit it, and its structural validation against a
//! catalog of processing models.
use vstd::prelude::*;

pub mod catalog;
pub mod change;
pub mod id_map;
pub mod id_text;
pub mod ids;
pub mod instance;
pub mod model;
pub mod pad_text;
pub mod task;
pub mod tasks;

pub use catalog::{
    left_and_right_inputs, left_and_right_outputs, mono_input, mono_output, repeat_channels,
    standard_inputs, standard_outputs, Manufacturers,
};
pub use change::{ModifyTaskError, ModifyTaskSpec};
pub use id_map::{IdKey, IdMap, ValueFilter};
pub use ids::{
    DomainId, DynamicInstanceNodeId, FixedInstanceId, FixedInstanceNodeId, MediaObjectId, MixerNodeId, ModelId,
    NodeConnectionId, ParameterId, ReportId, SecureKey, TrackMediaId, TrackNodeId,
};
pub use instance::{
    DesiredInstancePlayState, DesiredInstancePowerState, InstancePlayState, InstancePowerState,
    PlayBitDepth, PlayId, RenderId, SampleRate,
};
pub use model::{
    AmplifierId, AmplifierParameterRole, AmplifierReportRole, ChannelParameterRole, ControlChannels,
    DynamicsId, DynamicsParameterRole, DynamicsReportRole, FilterId, FilterParameterRole,
    GlobalParameterRole, Model, ModelCapability, ModelElementScope, ModelInput, ModelInputs, ModelOutput,
    ModelOutputs, ModelParameter, ModelParameterRole, ModelReport, ModelReportRole, ModelValue,
    ModelValueError, ModelValueOption, ModelValueType, ModelValueUnit, MultiChannelValue,
    PowerReportRole, ResourceId, SimpleModelValueType, Stereo, ToggleOr,
};
pub use id_text::IdTextError;
pub use pad_text::PadIdError;
pub use task::{
    ChannelMask, CloudError, ConnectionValues, DestinationPadId, DynamicInstanceNode, FixedInstanceNode,
    InstanceParameters, MediaChannels, MixerChannels, MixerNode, NodeConnection, NodeKind, NodePadId,
    PadKind, SourcePadId, TaskNodeId, TaskPermissions, TaskSpec, TimeSegment, TrackMedia,
    TrackMediaFormat, TrackNode, UpdateTaskTrackMedia,
};
pub use tasks::{hashmap_changes, CreateTask, HashMapChanges, ModifyTask, Task, TimeRange};

verus! {

/// An `f64` carried by its IEEE-754 bit pattern (`f64::to_bits`).
///
/// The graph model stores and replaces such values but never computes with
/// them, so holding the bits keeps every value exactly as it was given.
#[derive(Clone, Copy, Debug, PartialEq, Eq, Structural)]
pub struct FloatBits(pub u64);

} // verus!
