//! The task specification: nodes of four kinds, the pads through which they
//! are connected, the connections, and the structural validation of the whole.
use vstd::prelude::*;

use crate::id_map::{IdKey, IdMap, ValueFilter};
use crate::ids::{
    DynamicInstanceNodeId, FixedInstanceId, FixedInstanceNodeId, MediaObjectId, MixerNodeId, ModelId,
    NodeConnectionId, ParameterId, TrackMediaId, TrackNodeId,
};
use crate::model::{audio_input_count, audio_output_count, Model, MultiChannelValue};
use crate::FloatBits;

verus! {

/// The four kinds of node.
#[derive(Clone, Copy, Debug, PartialEq, Eq, Structural)]
pub enum NodeKind {
    Track,
    Mixer,
    FixedInstance,
    DynamicInstance,
}

/// The seven kinds of pad: an input or an output face of a node kind.
/// Tracks have an output only.
#[derive(Clone, Copy, Debug, PartialEq, Eq, Structural)]
pub enum PadKind {
    MixerInput,
    MixerOutput,
    FixedInstanceInput,
    FixedInstanceOutput,
    DynamicInstanceInput,
    DynamicInstanceOutput,
    TrackOutput,
}

impl PadKind {
    /// Output faces: the pads a connection may start from.
    pub open spec fn spec_is_output(self) -> bool {
        match self {
            PadKind::MixerOutput | PadKind::FixedInstanceOutput | PadKind::DynamicInstanceOutput
            | PadKind::TrackOutput => true,
            _ => false,
        }
    }

    /// Input faces: the pads a connection may end at.
    pub open spec fn spec_is_input(self) -> bool {
        match self {
            PadKind::MixerInput | PadKind::FixedInstanceInput | PadKind::DynamicInstanceInput => true,
            _ => false,
        }
    }

    /// The kind of node the pad belongs to.
    pub open spec fn node_kind(self) -> NodeKind {
        match self {
            PadKind::MixerInput | PadKind::MixerOutput => NodeKind::Mixer,
            PadKind::FixedInstanceInput | PadKind::FixedInstanceOutput => NodeKind::FixedInstance,
            PadKind::DynamicInstanceInput | PadKind::DynamicInstanceOutput => NodeKind::DynamicInstance,
            PadKind::TrackOutput => NodeKind::Track,
        }
    }
}

/// Every pad is an input or an output, and never both.
pub proof fn lemma_pad_direction_partition(kind: PadKind)
    ensures
        kind.spec_is_output() != kind.spec_is_input(),
{
}

/// A node of a task, named by its kind and identifier.
#[derive(Debug, PartialEq)]
pub enum TaskNodeId {
    Mixer(MixerNodeId),
    FixedInstance(FixedInstanceNodeId),
    DynamicInstance(DynamicInstanceNodeId),
    Track(TrackNodeId),
}

impl View for TaskNodeId {
    type V = (NodeKind, Seq<char>);

    open spec fn view(&self) -> (NodeKind, Seq<char>) {
        match self {
            TaskNodeId::Mixer(id) => (NodeKind::Mixer, id@),
            TaskNodeId::FixedInstance(id) => (NodeKind::FixedInstance, id@),
            TaskNodeId::DynamicInstance(id) => (NodeKind::DynamicInstance, id@),
            TaskNodeId::Track(id) => (NodeKind::Track, id@),
        }
    }
}

/// A pad of a node: the face of the node that a connection is attached to.
#[derive(Debug, Eq, Hash)]
pub enum NodePadId {
    MixerInput(MixerNodeId),
    MixerOutput(MixerNodeId),
    FixedInstanceInput(FixedInstanceNodeId),
    FixedInstanceOutput(FixedInstanceNodeId),
    DynamicInstanceInput(DynamicInstanceNodeId),
    DynamicInstanceOutput(DynamicInstanceNodeId),
    TrackOutput(TrackNodeId),
}

impl View for NodePadId {
    type V = (PadKind, Seq<char>);

    open spec fn view(&self) -> (PadKind, Seq<char>) {
        match self {
            NodePadId::MixerInput(id) => (PadKind::MixerInput, id@),
            NodePadId::MixerOutput(id) => (PadKind::MixerOutput, id@),
            NodePadId::FixedInstanceInput(id) => (PadKind::FixedInstanceInput, id@),
            NodePadId::FixedInstanceOutput(id) => (PadKind::FixedInstanceOutput, id@),
            NodePadId::DynamicInstanceInput(id) => (PadKind::DynamicInstanceInput, id@),
            NodePadId::DynamicInstanceOutput(id) => (PadKind::DynamicInstanceOutput, id@),
            NodePadId::TrackOutput(id) => (PadKind::TrackOutput, id@),
        }
    }
}

impl Clone for NodePadId {
    fn clone(&self) -> (r: Self)
        ensures
            r == *self,
    {
        match self {
            NodePadId::MixerInput(id) => NodePadId::MixerInput(id.clone()),
            NodePadId::MixerOutput(id) => NodePadId::MixerOutput(id.clone()),
            NodePadId::FixedInstanceInput(id) => NodePadId::FixedInstanceInput(id.clone()),
            NodePadId::FixedInstanceOutput(id) => NodePadId::FixedInstanceOutput(id.clone()),
            NodePadId::DynamicInstanceInput(id) => NodePadId::DynamicInstanceInput(id.clone()),
            NodePadId::DynamicInstanceOutput(id) => NodePadId::DynamicInstanceOutput(id.clone()),
            NodePadId::TrackOutput(id) => NodePadId::TrackOutput(id.clone()),
        }
    }
}

impl PartialEq for NodePadId {
    fn eq(&self, other: &Self) -> (r: bool) {
        match (self, other) {
            (NodePadId::MixerInput(a), NodePadId::MixerInput(b)) => a.same_id(b),
            (NodePadId::MixerOutput(a), NodePadId::MixerOutput(b)) => a.same_id(b),
            (NodePadId::FixedInstanceInput(a), NodePadId::FixedInstanceInput(b)) => a.same_id(b),
            (NodePadId::FixedInstanceOutput(a), NodePadId::FixedInstanceOutput(b)) => a.same_id(b),
            (NodePadId::DynamicInstanceInput(a), NodePadId::DynamicInstanceInput(b)) => a.same_id(b),
            (NodePadId::DynamicInstanceOutput(a), NodePadId::DynamicInstanceOutput(b)) => a.same_id(
                b,
            ),
            (NodePadId::TrackOutput(a), NodePadId::TrackOutput(b)) => a.same_id(b),
            _ => false,
        }
    }
}

impl vstd::std_specs::cmp::PartialEqSpecImpl for NodePadId {
    open spec fn obeys_eq_spec() -> bool {
        true
    }

    open spec fn eq_spec(&self, other: &Self) -> bool {
        self@ == other@
    }
}

impl NodePadId {
    pub fn kind(&self) -> (r: PadKind)
        ensures
            r == self@.0,
    {
        match self {
            NodePadId::MixerInput(_) => PadKind::MixerInput,
            NodePadId::MixerOutput(_) => PadKind::MixerOutput,
            NodePadId::FixedInstanceInput(_) => PadKind::FixedInstanceInput,
            NodePadId::FixedInstanceOutput(_) => PadKind::FixedInstanceOutput,
            NodePadId::DynamicInstanceInput(_) => PadKind::DynamicInstanceInput,
            NodePadId::DynamicInstanceOutput(_) => PadKind::DynamicInstanceOutput,
            NodePadId::TrackOutput(_) => PadKind::TrackOutput,
        }
    }

    pub fn is_input(&self) -> (r: bool)
        ensures
            r == self@.0.spec_is_input(),
    {
        match self {
            NodePadId::MixerInput(_) | NodePadId::FixedInstanceInput(_)
            | NodePadId::DynamicInstanceInput(_) => true,
            _ => false,
        }
    }

    pub fn is_output(&self) -> (r: bool)
        ensures
            r == self@.0.spec_is_output(),
    {
        match self {
            NodePadId::MixerOutput(_) | NodePadId::FixedInstanceOutput(_)
            | NodePadId::DynamicInstanceOutput(_) | NodePadId::TrackOutput(_) => true,
            _ => false,
        }
    }

    /// The pad as a source pad, if it is an output.
    pub open spec fn spec_to_source(self) -> Option<SourcePadId> {
        match self {
            NodePadId::MixerOutput(id) => Some(SourcePadId::MixerOutput(id)),
            NodePadId::FixedInstanceOutput(id) => Some(SourcePadId::FixedInstanceOutput(id)),
            NodePadId::DynamicInstanceOutput(id) => Some(SourcePadId::DynamicInstanceOutput(id)),
            NodePadId::TrackOutput(id) => Some(SourcePadId::TrackOutput(id)),
            _ => None,
        }
    }

    /// The pad as a destination pad, if it is an input.
    pub open spec fn spec_to_destination(self) -> Option<DestinationPadId> {
        match self {
            NodePadId::MixerInput(id) => Some(DestinationPadId::MixerInput(id)),
            NodePadId::FixedInstanceInput(id) => Some(DestinationPadId::FixedInstanceInput(id)),
            NodePadId::DynamicInstanceInput(id) => Some(DestinationPadId::DynamicInstanceInput(id)),
            _ => None,
        }
    }

    pub fn to_source_pad(&self) -> (r: Option<SourcePadId>)
        ensures
            r == self.spec_to_source(),
            r is Some <==> self@.0.spec_is_output(),
    {
        match self {
            NodePadId::MixerOutput(id) => Some(SourcePadId::MixerOutput(id.clone())),
            NodePadId::FixedInstanceOutput(id) => Some(SourcePadId::FixedInstanceOutput(id.clone())),
            NodePadId::DynamicInstanceOutput(id) => Some(
                SourcePadId::DynamicInstanceOutput(id.clone()),
            ),
            NodePadId::TrackOutput(id) => Some(SourcePadId::TrackOutput(id.clone())),
            _ => None,
        }
    }

    pub fn to_destination_pad(&self) -> (r: Option<DestinationPadId>)
        ensures
            r == self.spec_to_destination(),
            r is Some <==> self@.0.spec_is_input(),
    {
        match self {
            NodePadId::MixerInput(id) => Some(DestinationPadId::MixerInput(id.clone())),
            NodePadId::FixedInstanceInput(id) => Some(DestinationPadId::FixedInstanceInput(id.clone())),
            NodePadId::DynamicInstanceInput(id) => Some(
                DestinationPadId::DynamicInstanceInput(id.clone()),
            ),
            _ => None,
        }
    }
}

/// A pad that can send audio: the output of a node.
#[derive(Debug, PartialEq)]
pub enum SourcePadId {
    MixerOutput(MixerNodeId),
    FixedInstanceOutput(FixedInstanceNodeId),
    DynamicInstanceOutput(DynamicInstanceNodeId),
    TrackOutput(TrackNodeId),
}

impl View for SourcePadId {
    type V = (PadKind, Seq<char>);

    open spec fn view(&self) -> (PadKind, Seq<char>) {
        match self {
            SourcePadId::MixerOutput(id) => (PadKind::MixerOutput, id@),
            SourcePadId::FixedInstanceOutput(id) => (PadKind::FixedInstanceOutput, id@),
            SourcePadId::DynamicInstanceOutput(id) => (PadKind::DynamicInstanceOutput, id@),
            SourcePadId::TrackOutput(id) => (PadKind::TrackOutput, id@),
        }
    }
}

impl SourcePadId {
    /// Whether the pad belongs to the node `node_id`.
    pub fn references(&self, node_id: &TaskNodeId) -> (r: bool)
        ensures
            r == (self@.0.node_kind() == node_id@.0 && self@.1 == node_id@.1),
    {
        match (self, node_id) {
            (SourcePadId::TrackOutput(track_id), TaskNodeId::Track(ref_track_id)) => track_id.same_id(
                ref_track_id,
            ),
            (
                SourcePadId::DynamicInstanceOutput(instance_id),
                TaskNodeId::DynamicInstance(ref_instance_id),
            ) => instance_id.same_id(ref_instance_id),
            (
                SourcePadId::FixedInstanceOutput(instance_id),
                TaskNodeId::FixedInstance(ref_instance_id),
            ) => instance_id.same_id(ref_instance_id),
            (SourcePadId::MixerOutput(mixer_id), TaskNodeId::Mixer(ref_mixer_id)) => mixer_id.same_id(
                ref_mixer_id,
            ),
            _ => false,
        }
    }
}

/// A pad that can receive audio: the input of a node.
#[derive(Debug, PartialEq)]
pub enum DestinationPadId {
    MixerInput(MixerNodeId),
    FixedInstanceInput(FixedInstanceNodeId),
    DynamicInstanceInput(DynamicInstanceNodeId),
}

impl View for DestinationPadId {
    type V = (PadKind, Seq<char>);

    open spec fn view(&self) -> (PadKind, Seq<char>) {
        match self {
            DestinationPadId::MixerInput(id) => (PadKind::MixerInput, id@),
            DestinationPadId::FixedInstanceInput(id) => (PadKind::FixedInstanceInput, id@),
            DestinationPadId::DynamicInstanceInput(id) => (PadKind::DynamicInstanceInput, id@),
        }
    }
}

impl DestinationPadId {
    /// Whether the pad belongs to the node `node_id`.
    pub fn references(&self, node_id: &TaskNodeId) -> (r: bool)
        ensures
            r == (self@.0.node_kind() == node_id@.0 && self@.1 == node_id@.1),
    {
        match (self, node_id) {
            (DestinationPadId::MixerInput(mixer_id), TaskNodeId::Mixer(ref_mixer_id)) => mixer_id.same_id(
                ref_mixer_id,
            ),
            (
                DestinationPadId::FixedInstanceInput(fixed_id),
                TaskNodeId::FixedInstance(ref_fixed_id),
            ) => fixed_id.same_id(ref_fixed_id),
            (
                DestinationPadId::DynamicInstanceInput(dynamic_id),
                TaskNodeId::DynamicInstance(ref_dynamic_id),
            ) => dynamic_id.same_id(ref_dynamic_id),
            _ => false,
        }
    }
}

/// The channels of a pad that a connection uses: one channel, or two
/// neighbouring channels, from a 0-based index.
#[derive(Clone, Copy, Debug, PartialEq, Eq, Structural)]
pub enum ChannelMask {
    Mono(usize),
    Stereo(usize),
}

/// Whether `mask` lies within channels `0..channels`: for a stereo mask both
/// of its channels.
pub open spec fn mask_fits(mask: ChannelMask, channels: nat) -> bool {
    match mask {
        ChannelMask::Mono(i) => i < channels,
        ChannelMask::Stereo(i) => i + 1 < channels,
    }
}

/// In a specification that passes validation, each connection runs from an
/// output to an input of existing nodes, and its masks name only channels
/// that exist there: a stereo mask at `i` needs `i` and `i + 1` below the
/// channel count, a mono mask at `i` needs `i` below it.
pub proof fn lemma_validated_masks_in_range(
    spec: TaskSpec,
    models: Map<(Seq<char>, Seq<char>), Model>,
    k: Seq<char>,
)
    requires
        spec.is_valid(models),
        spec.connections@.contains_key(k),
    ensures
        spec.connections@[k].from@.0.spec_is_output(),
        spec.connections@[k].to@.0.spec_is_input(),
        spec.source_channel_count(spec.connections@[k].from, models) matches Some(n) && match spec.connections@[k].from_channels {
            ChannelMask::Mono(i) => i < n,
            ChannelMask::Stereo(i) => i < n && i + 1 < n,
        },
        spec.destination_channel_count(spec.connections@[k].to, models) matches Some(n) && match spec.connections@[k].to_channels {
            ChannelMask::Mono(i) => i < n,
            ChannelMask::Stereo(i) => i < n && i + 1 < n,
        },
{
    let c = spec.connections@[k];
    assert(spec.connection_fault(c, models) is None);
}

impl ChannelMask {
    /// The number of channels and the first index.
    pub fn to_count_and_index(self) -> (r: (usize, usize))
        ensures
            r == match self {
                ChannelMask::Mono(ch) => (1usize, ch),
                ChannelMask::Stereo(ch) => (2usize, ch),
            },
    {
        match self {
            ChannelMask::Mono(ch) => (1, ch),
            ChannelMask::Stereo(ch) => (2, ch),
        }
    }

    /// Whether every channel of the mask lies in `range`.
    pub fn is_subset_of(self, range: std::ops::Range<usize>) -> (r: bool)
        ensures
            r == match self {
                ChannelMask::Mono(ch) => range.start <= ch < range.end,
                ChannelMask::Stereo(ch) => range.start <= ch && ch + 1 < range.end,
            },
    {
        match self {
            ChannelMask::Mono(ch) => range.start <= ch && ch < range.end,
            ChannelMask::Stereo(ch) => range.start <= ch && ch < range.end && range.end - ch > 1,
        }
    }
}

/// Channels of a mixer that a connection uses.
#[derive(Clone, Copy, Debug, PartialEq, Eq, Structural)]
pub enum MixerChannels {
    Mono(usize),
    Stereo(usize),
}

impl MixerChannels {
    /// The number of channels and the first index.
    pub fn to_count_and_index(self) -> (r: (usize, usize))
        ensures
            r == match self {
                MixerChannels::Mono(ch) => (1usize, ch),
                MixerChannels::Stereo(ch) => (2usize, ch),
            },
    {
        match self {
            MixerChannels::Mono(ch) => (1, ch),
            MixerChannels::Stereo(ch) => (2, ch),
        }
    }

    /// Whether every channel lies in `range`.
    pub fn is_subset_of(self, range: std::ops::Range<usize>) -> (r: bool)
        ensures
            r == match self {
                MixerChannels::Mono(ch) => range.start <= ch < range.end,
                MixerChannels::Stereo(ch) => range.start <= ch && ch + 1 < range.end,
            },
    {
        match self {
            MixerChannels::Mono(ch) => range.start <= ch && ch < range.end,
            MixerChannels::Stereo(ch) => range.start <= ch && ch < range.end && range.end - ch > 1,
        }
    }
}

/// Channel count of a track and of its media items.
#[derive(Clone, Copy, Debug, PartialEq, Eq, Structural)]
pub enum MediaChannels {
    Mono,
    Stereo,
}

impl MediaChannels {
    pub open spec fn spec_num_channels(self) -> nat {
        match self {
            MediaChannels::Mono => 1,
            MediaChannels::Stereo => 2,
        }
    }

    pub fn num_channels(&self) -> (r: usize)
        ensures
            r == self.spec_num_channels(),
    {
        match self {
            MediaChannels::Mono => 1,
            MediaChannels::Stereo => 2,
        }
    }
}

/// Why a specification, or one of its connections, is not acceptable.
#[derive(Debug, PartialEq)]
pub enum CloudError {
    /// The specification declares no node at all.
    NoNodesDeclared,
    /// A connection fails at one of its pads.
    ConnectionError { connection_id: NodeConnectionId, pad: NodePadId, error: Box<CloudError> },
    /// The pad a connection starts from is not an output.
    NotASourcePad,
    /// The pad a connection ends at is not an input.
    NotADestinationPad,
    MixerNodeNotFound { mixer_node_id: MixerNodeId },
    FixedInstanceNodeNotFound { fixed_node_id: FixedInstanceNodeId },
    DynamicInstanceNodeNotFound { dynamic_node_id: DynamicInstanceNodeId },
    TrackNodeNotFound { track_node_id: TrackNodeId },
    ModelNotFound { model_id: ModelId },
    /// The mask names channels outside `0..channels`.
    ChannelMaskIncompatible { mask: ChannelMask, channels: usize },
}

/// The error a mask check yields against `channels` channels, if any.
pub open spec fn mask_fault(mask: ChannelMask, channels: nat) -> Option<CloudError> {
    if mask_fits(mask, channels) {
        None
    } else {
        Some(CloudError::ChannelMaskIncompatible { mask, channels: channels as usize })
    }
}

/// A check's result: success when there is no fault.
pub open spec fn fault_result(fault: Option<CloudError>) -> Result<(), CloudError> {
    match fault {
        Some(e) => Err(e),
        None => Ok(()),
    }
}

fn check_mask(mask: ChannelMask, channels: usize) -> (r: Result<(), CloudError>)
    ensures
        r == fault_result(mask_fault(mask, channels as nat)),
{
    if mask.is_subset_of(0..channels) {
        Ok(())
    } else {
        Err(CloudError::ChannelMaskIncompatible { mask, channels })
    }
}

/// Mixer node: its numbers of input and output channels.
#[derive(Clone, Copy, Debug, PartialEq, Eq, Structural)]
pub struct MixerNode {
    pub input_channels: usize,
    pub output_channels: usize,
}

impl MixerNode {
    /// Checks a mask on the mixer's output.
    pub fn validate_source_channels(&self, mask: ChannelMask) -> (r: Result<(), CloudError>)
        ensures
            r == fault_result(mask_fault(mask, self.output_channels as nat)),
    {
        check_mask(mask, self.output_channels)
    }

    /// Checks a mask on the mixer's input.
    pub fn validate_destination_channels(&self, mask: ChannelMask) -> (r: Result<(), CloudError>)
        ensures
            r == fault_result(mask_fault(mask, self.input_channels as nat)),
    {
        check_mask(mask, self.input_channels)
    }
}

/// Parameter values of an instance node, by parameter.
pub type InstanceParameters = IdMap<ParameterId, MultiChannelValue>;

/// Dynamic (software) instance node: the model it runs and its parameters.
pub struct DynamicInstanceNode {
    pub model_id: ModelId,
    pub parameters: InstanceParameters,
}

impl DynamicInstanceNode {
    /// Checks a mask on the instance's output against its model.
    pub fn validate_source_channels(&self, mask: ChannelMask, model: &Model) -> (r: Result<
        (),
        CloudError,
    >)
        ensures
            r == fault_result(mask_fault(mask, audio_output_count(model.outputs@))),
    {
        check_mask(mask, model.get_audio_output_channel_count())
    }

    /// Checks a mask on the instance's input against its model.
    pub fn validate_destination_channels(&self, mask: ChannelMask, model: &Model) -> (r: Result<
        (),
        CloudError,
    >)
        ensures
            r == fault_result(mask_fault(mask, audio_input_count(model.inputs@))),
    {
        check_mask(mask, model.get_audio_input_channel_count())
    }
}

/// Fixed (hardware) instance node: the unit, its parameters, and the dry/wet
/// mix, which applies only to units with as many inputs as outputs, at most
/// two.
pub struct FixedInstanceNode {
    pub instance_id: FixedInstanceId,
    pub parameters: InstanceParameters,
    pub wet: FloatBits,
}

impl FixedInstanceNode {
    /// Checks a mask on the unit's output against its model.
    pub fn validate_source_channels(&self, mask: ChannelMask, model: &Model) -> (r: Result<
        (),
        CloudError,
    >)
        ensures
            r == fault_result(mask_fault(mask, audio_output_count(model.outputs@))),
    {
        check_mask(mask, model.get_audio_output_channel_count())
    }

    /// Checks a mask on the unit's input against its model.
    pub fn validate_destination_channels(&self, mask: ChannelMask, model: &Model) -> (r: Result<
        (),
        CloudError,
    >)
        ensures
            r == fault_result(mask_fault(mask, audio_input_count(model.inputs@))),
    {
        check_mask(mask, model.get_audio_input_channel_count())
    }
}

#[derive(Clone, Copy, Debug, PartialEq, Eq, Structural)]
pub enum TrackMediaFormat {
    Wave,
    Mp3,
    Flac,
    WavPack,
}

/// The name of a media format.
pub open spec fn format_name(format: TrackMediaFormat) -> Seq<char> {
    match format {
        TrackMediaFormat::Wave => "wave"@,
        TrackMediaFormat::Mp3 => "mp3"@,
        TrackMediaFormat::Flac => "flac"@,
        TrackMediaFormat::WavPack => "wavpack"@,
    }
}

impl TrackMediaFormat {
    pub fn to_string(&self) -> (r: String)
        ensures
            r@ == format_name(*self),
    {
        let name: &str = match self {
            TrackMediaFormat::Wave => "wave",
            TrackMediaFormat::Mp3 => "mp3",
            TrackMediaFormat::Flac => "flac",
            TrackMediaFormat::WavPack => "wavpack",
        };
        name.to_owned()
    }
}

/// A stretch of time: where it starts and how long it lasts, in seconds.
#[derive(Clone, Copy, Debug, PartialEq, Eq, Structural)]
pub struct TimeSegment {
    pub start: FloatBits,
    pub length: FloatBits,
}

/// A media item on a track.
#[derive(Debug, PartialEq)]
pub struct TrackMedia {
    pub channels: MediaChannels,
    pub format: TrackMediaFormat,
    /// The part of the media that is played.
    pub media_segment: TimeSegment,
    /// Where the item sits on the task timeline.
    pub timeline_segment: TimeSegment,
    pub object_id: MediaObjectId,
}

/// A change to a media item: each field that is present replaces the item's.
#[derive(Debug, PartialEq)]
pub struct UpdateTaskTrackMedia {
    pub channels: Option<MediaChannels>,
    pub media_segment: Option<TimeSegment>,
    pub timeline_segment: Option<TimeSegment>,
    pub object_id: Option<MediaObjectId>,
}

/// The item that `update` makes of `media`.
pub open spec fn updated_media(media: TrackMedia, update: UpdateTaskTrackMedia) -> TrackMedia {
    TrackMedia {
        channels: match update.channels {
            Some(c) => c,
            None => media.channels,
        },
        format: media.format,
        media_segment: match update.media_segment {
            Some(s) => s,
            None => media.media_segment,
        },
        timeline_segment: match update.timeline_segment {
            Some(s) => s,
            None => media.timeline_segment,
        },
        object_id: match update.object_id {
            Some(o) => o,
            None => media.object_id,
        },
    }
}

impl TrackMedia {
    /// Applies the fields present in `update`, leaving the others as they are.
    pub fn update(&mut self, update: UpdateTaskTrackMedia)
        ensures
            *final(self) == updated_media(*old(self), update),
    {
        let UpdateTaskTrackMedia { channels, media_segment, timeline_segment, object_id } = update;
        if let Some(channels) = channels {
            self.channels = channels;
        }
        if let Some(media_segment) = media_segment {
            self.media_segment = media_segment;
        }
        if let Some(timeline_segment) = timeline_segment {
            self.timeline_segment = timeline_segment;
        }
        if let Some(object_id) = object_id {
            self.object_id = object_id;
        }
    }
}

/// Track node: its channel count and the media items placed on it.
pub struct TrackNode {
    pub channels: MediaChannels,
    pub media: IdMap<TrackMediaId, TrackMedia>,
}

impl TrackNode {
    /// Checks a mask on the track's output against its channel count.
    pub fn validate_source_channels(&self, mask: ChannelMask) -> (r: Result<(), CloudError>)
        ensures
            r == fault_result(mask_fault(mask, self.channels.spec_num_channels())),
    {
        check_mask(mask, self.channels.num_channels())
    }
}

/// A connection from an output pad to an input pad.
#[derive(Debug, PartialEq)]
pub struct NodeConnection {
    pub from: NodePadId,
    pub to: NodePadId,
    pub from_channels: ChannelMask,
    pub to_channels: ChannelMask,
    /// Gain applied to the audio, as a factor.
    pub volume: FloatBits,
    /// Panning: 0 is centred, -1 fully left, 1 fully right.
    pub pan: FloatBits,
}

/// New volume and pan for a connection; a field that is absent is kept.
#[derive(Clone, Copy, Debug, PartialEq, Eq, Structural)]
pub struct ConnectionValues {
    pub volume: Option<FloatBits>,
    pub pan: Option<FloatBits>,
}

/// Whether connection `c` is attached to pad `pad`.
pub open spec fn touches_pad(c: NodeConnection, pad: (PadKind, Seq<char>)) -> bool {
    c.from@ == pad || c.to@ == pad
}

/// Whether connection `c` is attached to a pad of the node `node`.
pub open spec fn touches_node(c: NodeConnection, node: (NodeKind, Seq<char>)) -> bool {
    (c.from@.0.node_kind() == node.0 && c.from@.1 == node.1) || (c.to@.0.node_kind() == node.0
        && c.to@.1 == node.1)
}

impl ValueFilter<NodeConnection> for NodePadId {
    open spec fn selects(&self, value: NodeConnection) -> bool {
        touches_pad(value, self@)
    }

    fn test(&self, value: &NodeConnection) -> (r: bool) {
        value.from == *self || value.to == *self
    }
}

#[derive(Clone, Copy, Debug, Default, PartialEq, Eq, Structural)]
pub struct TaskPermissions {
    pub structure: bool,
    pub media: bool,
    pub parameters: bool,
    pub transport: bool,
    pub audio: bool,
}

impl TaskPermissions {
    /// Every permission granted.
    pub fn full() -> (r: Self)
        ensures
            r.structure && r.media && r.parameters && r.transport && r.audio,
    {
        TaskPermissions { structure: true, media: true, parameters: true, transport: true, audio: true }
    }
}

/// The processing graph of a task: its nodes, by kind, and the connections
/// between their pads.
pub struct TaskSpec {
    pub tracks: IdMap<TrackNodeId, TrackNode>,
    pub mixers: IdMap<MixerNodeId, MixerNode>,
    pub dynamic: IdMap<DynamicInstanceNodeId, DynamicInstanceNode>,
    pub fixed: IdMap<FixedInstanceNodeId, FixedInstanceNode>,
    pub connections: IdMap<NodeConnectionId, NodeConnection>,
}

impl Default for TaskSpec {
    fn default() -> (r: Self)
        ensures
            r.is_blank(),
    {
        TaskSpec::new()
    }
}

impl TaskSpec {
    /// No nodes and no connections.
    pub open spec fn is_blank(self) -> bool {
        &&& self.tracks@ == Map::<Seq<char>, TrackNode>::empty()
        &&& self.mixers@ == Map::<Seq<char>, MixerNode>::empty()
        &&& self.dynamic@ == Map::<Seq<char>, DynamicInstanceNode>::empty()
        &&& self.fixed@ == Map::<Seq<char>, FixedInstanceNode>::empty()
        &&& self.connections@ == Map::<Seq<char>, NodeConnection>::empty()
    }

    pub fn new() -> (r: Self)
        ensures
            r.is_blank(),
    {
        TaskSpec {
            tracks: IdMap::new(),
            mixers: IdMap::new(),
            dynamic: IdMap::new(),
            fixed: IdMap::new(),
            connections: IdMap::new(),
        }
    }

    /// Whether at least one node of some kind is declared.
    pub open spec fn declares_nodes(self) -> bool {
        ||| self.tracks@.dom() != Set::<Seq<char>>::empty()
        ||| self.mixers@.dom() != Set::<Seq<char>>::empty()
        ||| self.dynamic@.dom() != Set::<Seq<char>>::empty()
        ||| self.fixed@.dom() != Set::<Seq<char>>::empty()
    }

    /// Every connection starts at an output and ends at an input.
    pub open spec fn connections_polarized(self) -> bool {
        forall|k: Seq<char>|
            #[trigger] self.connections@.contains_key(k) ==> self.connections@[k].from@.0.spec_is_output()
                && self.connections@[k].to@.0.spec_is_input()
    }

    /// The error that checking mask `mask` on source pad `pad` yields, if any.
    pub open spec fn source_fault(
        self,
        pad: SourcePadId,
        mask: ChannelMask,
        models: Map<(Seq<char>, Seq<char>), Model>,
    ) -> Option<CloudError> {
        match pad {
            SourcePadId::MixerOutput(id) => if !self.mixers@.contains_key(id@) {
                Some(CloudError::MixerNodeNotFound { mixer_node_id: id })
            } else {
                mask_fault(mask, self.mixers@[id@].output_channels as nat)
            },
            SourcePadId::FixedInstanceOutput(id) => if !self.fixed@.contains_key(id@) {
                Some(CloudError::FixedInstanceNodeNotFound { fixed_node_id: id })
            } else {
                let model_id = self.fixed@[id@].instance_id.spec_model_id();
                if !models.contains_key(model_id@) {
                    Some(CloudError::ModelNotFound { model_id })
                } else {
                    mask_fault(mask, audio_output_count(models[model_id@].outputs@))
                }
            },
            SourcePadId::DynamicInstanceOutput(id) => if !self.dynamic@.contains_key(id@) {
                Some(CloudError::DynamicInstanceNodeNotFound { dynamic_node_id: id })
            } else {
                let model_id = self.dynamic@[id@].model_id;
                if !models.contains_key(model_id@) {
                    Some(CloudError::ModelNotFound { model_id })
                } else {
                    mask_fault(mask, audio_output_count(models[model_id@].outputs@))
                }
            },
            SourcePadId::TrackOutput(id) => if !self.tracks@.contains_key(id@) {
                Some(CloudError::TrackNodeNotFound { track_node_id: id })
            } else {
                mask_fault(mask, self.tracks@[id@].channels.spec_num_channels())
            },
        }
    }

    /// The error that checking mask `mask` on destination pad `pad` yields, if any.
    pub open spec fn destination_fault(
        self,
        pad: DestinationPadId,
        mask: ChannelMask,
        models: Map<(Seq<char>, Seq<char>), Model>,
    ) -> Option<CloudError> {
        match pad {
            DestinationPadId::MixerInput(id) => if !self.mixers@.contains_key(id@) {
                Some(CloudError::MixerNodeNotFound { mixer_node_id: id })
            } else {
                mask_fault(mask, self.mixers@[id@].input_channels as nat)
            },
            DestinationPadId::FixedInstanceInput(id) => if !self.fixed@.contains_key(id@) {
                Some(CloudError::FixedInstanceNodeNotFound { fixed_node_id: id })
            } else {
                let model_id = self.fixed@[id@].instance_id.spec_model_id();
                if !models.contains_key(model_id@) {
                    Some(CloudError::ModelNotFound { model_id })
                } else {
                    mask_fault(mask, audio_input_count(models[model_id@].inputs@))
                }
            },
            DestinationPadId::DynamicInstanceInput(id) => if !self.dynamic@.contains_key(id@) {
                Some(CloudError::DynamicInstanceNodeNotFound { dynamic_node_id: id })
            } else {
                let model_id = self.dynamic@[id@].model_id;
                if !models.contains_key(model_id@) {
                    Some(CloudError::ModelNotFound { model_id })
                } else {
                    mask_fault(mask, audio_input_count(models[model_id@].inputs@))
                }
            },
        }
    }

    /// The first fault of connection `c`, with the pad where it lies: the
    /// source pad is checked before the destination pad, and at each pad its
    /// direction before its node and mask.
    pub open spec fn connection_fault(
        self,
        c: NodeConnection,
        models: Map<(Seq<char>, Seq<char>), Model>,
    ) -> Option<(NodePadId, CloudError)> {
        match c.from.spec_to_source() {
            None => Some((c.from, CloudError::NotASourcePad)),
            Some(src) => match self.source_fault(src, c.from_channels, models) {
                Some(e) => Some((c.from, e)),
                None => match c.to.spec_to_destination() {
                    None => Some((c.to, CloudError::NotADestinationPad)),
                    Some(dst) => match self.destination_fault(dst, c.to_channels, models) {
                        Some(e) => Some((c.to, e)),
                        None => None,
                    },
                },
            },
        }
    }

    /// Whether the specification passes validation against `models`.
    pub open spec fn is_valid(self, models: Map<(Seq<char>, Seq<char>), Model>) -> bool {
        &&& self.declares_nodes()
        &&& forall|k: Seq<char>| #[trigger]
            self.connections@.contains_key(k) ==> self.connection_fault(self.connections@[k], models)
                is None
    }

    /// Channel count of the output face that `pad` names, if `pad` is an
    /// output of an existing node whose model, where it has one, is in
    /// `models`.
    pub open spec fn source_channel_count(
        self,
        pad: NodePadId,
        models: Map<(Seq<char>, Seq<char>), Model>,
    ) -> Option<nat> {
        match pad {
            NodePadId::MixerOutput(id) => if self.mixers@.contains_key(id@) {
                Some(self.mixers@[id@].output_channels as nat)
            } else {
                None
            },
            NodePadId::FixedInstanceOutput(id) => if self.fixed@.contains_key(id@)
                && models.contains_key(self.fixed@[id@].instance_id.spec_model_id()@) {
                Some(audio_output_count(models[self.fixed@[id@].instance_id.spec_model_id()@].outputs@))
            } else {
                None
            },
            NodePadId::DynamicInstanceOutput(id) => if self.dynamic@.contains_key(id@)
                && models.contains_key(self.dynamic@[id@].model_id@) {
                Some(audio_output_count(models[self.dynamic@[id@].model_id@].outputs@))
            } else {
                None
            },
            NodePadId::TrackOutput(id) => if self.tracks@.contains_key(id@) {
                Some(self.tracks@[id@].channels.spec_num_channels())
            } else {
                None
            },
            _ => None,
        }
    }

    /// Channel count of the input face that `pad` names, if `pad` is an
    /// input of an existing node whose model, where it has one, is in
    /// `models`.
    pub open spec fn destination_channel_count(
        self,
        pad: NodePadId,
        models: Map<(Seq<char>, Seq<char>), Model>,
    ) -> Option<nat> {
        match pad {
            NodePadId::MixerInput(id) => if self.mixers@.contains_key(id@) {
                Some(self.mixers@[id@].input_channels as nat)
            } else {
                None
            },
            NodePadId::FixedInstanceInput(id) => if self.fixed@.contains_key(id@)
                && models.contains_key(self.fixed@[id@].instance_id.spec_model_id()@) {
                Some(audio_input_count(models[self.fixed@[id@].instance_id.spec_model_id()@].inputs@))
            } else {
                None
            },
            NodePadId::DynamicInstanceInput(id) => if self.dynamic@.contains_key(id@)
                && models.contains_key(self.dynamic@[id@].model_id@) {
                Some(audio_input_count(models[self.dynamic@[id@].model_id@].inputs@))
            } else {
                None
            },
            _ => None,
        }
    }

    /// Checks the specification against the model catalog `models`: it must
    /// declare a node, and every connection must run from an output to an
    /// input of existing nodes with masks inside their channel counts.
    pub fn validate(&self, models: &IdMap<ModelId, Model>) -> (r: Result<(), CloudError>)
        ensures
            r is Ok <==> self.is_valid(models@),
            !self.declares_nodes() ==> r == Err::<(), CloudError>(CloudError::NoNodesDeclared),
            self.declares_nodes() ==> match r {
                Ok(_) => true,
                Err(e) => match e {
                    CloudError::ConnectionError { connection_id, pad, error } => {
                        &&& self.connections@.contains_key(connection_id@)
                        &&& self.connection_fault(self.connections@[connection_id@], models@)
                            == Some((pad, *error))
                    },
                    _ => false,
                },
            },
    {
        if self.fixed.is_empty() && self.dynamic.is_empty() && self.mixers.is_empty()
            && self.tracks.is_empty() {
            return Err(CloudError::NoNodesDeclared);
        }
        let n = self.connections.len();
        let mut i: usize = 0;
        while i < n
            invariant
                self.declares_nodes(),
                n == self.connections.spec_len(),
                i <= n,
                forall|j: int|
                    0 <= j < i ==> self.connection_fault(
                        self.connections@[#[trigger] self.connections.key_at(j)],
                        models@,
                    ) is None,
            decreases n - i,
        {
            let (connection_id, connection) = self.connections.entry_at(i);
            if let Err(e) = self.validate_connection(connection_id, connection, models) {
                return Err(e);
            }
            i = i + 1;
        }
        proof {
            assert forall|k: Seq<char>| #[trigger]
                self.connections@.contains_key(k) implies self.connection_fault(
                self.connections@[k],
                models@,
            ) is None by {
                let j = choose|j: int| 0 <= j < n && self.connections.key_at(j) == k;
            }
        }
        Ok(())
    }

    /// The node identifier under which the fixed unit `instance_id` is used,
    /// if it is.
    pub fn fixed_instance_to_fixed_id(&self, instance_id: &FixedInstanceId) -> (r: Option<
        &FixedInstanceNodeId,
    >)
        ensures
            match r {
                Some(id) => self.fixed@.contains_key(id@) && self.fixed@[id@].instance_id@
                    == instance_id@,
                None => forall|k: Seq<char>| #[trigger]
                    self.fixed@.contains_key(k) ==> self.fixed@[k].instance_id@ != instance_id@,
            },
    {
        let n = self.fixed.len();
        let mut i: usize = 0;
        while i < n
            invariant
                n == self.fixed.spec_len(),
                i <= n,
                forall|j: int|
                    0 <= j < i ==> self.fixed@[#[trigger] self.fixed.key_at(j)].instance_id@
                        != instance_id@,
            decreases n - i,
        {
            let (fixed_id, fixed) = self.fixed.entry_at(i);
            if fixed.instance_id == *instance_id {
                return Some(fixed_id);
            }
            i = i + 1;
        }
        proof {
            assert forall|k: Seq<char>| #[trigger]
                self.fixed@.contains_key(k) implies self.fixed@[k].instance_id@ != instance_id@ by {
                let j = choose|j: int| 0 <= j < n && self.fixed.key_at(j) == k;
            }
        }
        None
    }

    fn validate_connection(
        &self,
        id: &NodeConnectionId,
        connection: &NodeConnection,
        models: &IdMap<ModelId, Model>,
    ) -> (r: Result<(), CloudError>)
        ensures
            r == match self.connection_fault(*connection, models@) {
                None => Ok::<(), CloudError>(()),
                Some((pad, e)) => Err(
                    CloudError::ConnectionError { connection_id: *id, pad, error: Box::new(e) },
                ),
            },
    {
        match connection.from.to_source_pad() {
            None => {
                return Err(
                    CloudError::ConnectionError {
                        connection_id: id.clone(),
                        pad: connection.from.clone(),
                        error: Box::new(CloudError::NotASourcePad),
                    },
                );
            },
            Some(source) => {
                if let Err(e) = self.check_source_channel_exists(
                    &source,
                    connection.from_channels,
                    models,
                ) {
                    return Err(
                        CloudError::ConnectionError {
                            connection_id: id.clone(),
                            pad: connection.from.clone(),
                            error: Box::new(e),
                        },
                    );
                }
            },
        }
        match connection.to.to_destination_pad() {
            None => Err(
                CloudError::ConnectionError {
                    connection_id: id.clone(),
                    pad: connection.to.clone(),
                    error: Box::new(CloudError::NotADestinationPad),
                },
            ),
            Some(destination) => match self.check_destination_channel_exists(
                &destination,
                connection.to_channels,
                models,
            ) {
                Ok(()) => Ok(()),
                Err(e) => Err(
                    CloudError::ConnectionError {
                        connection_id: id.clone(),
                        pad: connection.to.clone(),
                        error: Box::new(e),
                    },
                ),
            },
        }
    }

    fn check_source_channel_exists(
        &self,
        pad_id: &SourcePadId,
        channels: ChannelMask,
        models: &IdMap<ModelId, Model>,
    ) -> (r: Result<(), CloudError>)
        ensures
            r == fault_result(self.source_fault(*pad_id, channels, models@)),
    {
        match pad_id {
            SourcePadId::MixerOutput(id) => match self.mixers.get(id) {
                None => Err(CloudError::MixerNodeNotFound { mixer_node_id: id.clone() }),
                Some(node) => node.validate_source_channels(channels),
            },
            SourcePadId::FixedInstanceOutput(id) => match self.fixed.get(id) {
                None => Err(CloudError::FixedInstanceNodeNotFound { fixed_node_id: id.clone() }),
                Some(fixed) => {
                    let model_id = fixed.instance_id.model_id();
                    match models.get(&model_id) {
                        None => Err(CloudError::ModelNotFound { model_id }),
                        Some(model) => fixed.validate_source_channels(channels, model),
                    }
                },
            },
            SourcePadId::DynamicInstanceOutput(id) => match self.dynamic.get(id) {
                None => Err(
                    CloudError::DynamicInstanceNodeNotFound { dynamic_node_id: id.clone() },
                ),
                Some(dynamic) => match models.get(&dynamic.model_id) {
                    None => Err(CloudError::ModelNotFound { model_id: dynamic.model_id.clone() }),
                    Some(model) => dynamic.validate_source_channels(channels, model),
                },
            },
            SourcePadId::TrackOutput(id) => match self.tracks.get(id) {
                None => Err(CloudError::TrackNodeNotFound { track_node_id: id.clone() }),
                Some(node) => node.validate_source_channels(channels),
            },
        }
    }

    fn check_destination_channel_exists(
        &self,
        pad_id: &DestinationPadId,
        channels: ChannelMask,
        models: &IdMap<ModelId, Model>,
    ) -> (r: Result<(), CloudError>)
        ensures
            r == fault_result(self.destination_fault(*pad_id, channels, models@)),
    {
        match pad_id {
            DestinationPadId::MixerInput(id) => match self.mixers.get(id) {
                None => Err(CloudError::MixerNodeNotFound { mixer_node_id: id.clone() }),
                Some(node) => node.validate_destination_channels(channels),
            },
            DestinationPadId::FixedInstanceInput(id) => match self.fixed.get(id) {
                None => Err(CloudError::FixedInstanceNodeNotFound { fixed_node_id: id.clone() }),
                Some(fixed) => {
                    let model_id = fixed.instance_id.model_id();
                    match models.get(&model_id) {
                        None => Err(CloudError::ModelNotFound { model_id }),
                        Some(model) => fixed.validate_destination_channels(channels, model),
                    }
                },
            },
            DestinationPadId::DynamicInstanceInput(id) => match self.dynamic.get(id) {
                None => Err(
                    CloudError::DynamicInstanceNodeNotFound { dynamic_node_id: id.clone() },
                ),
                Some(dynamic) => match models.get(&dynamic.model_id) {
                    None => Err(CloudError::ModelNotFound { model_id: dynamic.model_id.clone() }),
                    Some(model) => dynamic.validate_destination_channels(channels, model),
                },
            },
        }
    }
}

} // verus!
