//! The operations that edit a task specification, and the engine that applies
//! them. Each operation checks its preconditions before it writes: it either
//! changes the specification as stated, or leaves it exactly as it was and
//! returns an error.
use vstd::prelude::*;

use crate::id_map::IdMap;
use crate::ids::{
    DynamicInstanceNodeId, FixedInstanceNodeId, MixerNodeId, NodeConnectionId, ParameterId, TrackMediaId,
    TrackNodeId,
};
use crate::model::MultiChannelValue;
use crate::pad_text::{append_str, pad_text};
use crate::task::{
    touches_node, touches_pad, updated_media, ChannelMask, ConnectionValues, DynamicInstanceNode,
    FixedInstanceNode, MediaChannels, MixerNode, NodeConnection, NodeKind, NodePadId, PadKind, TaskSpec, TrackMedia,
    TrackNode, UpdateTaskTrackMedia,
};
use crate::FloatBits;

verus! {

/// One change to the structure or values of a task specification.
pub enum ModifyTaskSpec {
    AddTrack { track_id: TrackNodeId, channels: MediaChannels },
    AddTrackMedia { track_id: TrackNodeId, media_id: TrackMediaId, spec: TrackMedia },
    UpdateTrackMedia { track_id: TrackNodeId, media_id: TrackMediaId, update: UpdateTaskTrackMedia },
    DeleteTrackMedia { track_id: TrackNodeId, media_id: TrackMediaId },
    /// Removes the track with its media and every connection attached to it.
    DeleteTrack { track_id: TrackNodeId },
    AddFixedInstance { fixed_id: FixedInstanceNodeId, spec: FixedInstanceNode },
    AddDynamicInstance { dynamic_id: DynamicInstanceNodeId, spec: DynamicInstanceNode },
    AddMixer { mixer_id: MixerNodeId, spec: MixerNode },
    /// Removes the mixer and every connection attached to it.
    DeleteMixer { mixer_id: MixerNodeId },
    /// Removes the unit's node and every connection attached to it.
    DeleteFixedInstance { fixed_id: FixedInstanceNodeId },
    /// Removes the instance and every connection attached to it.
    DeleteDynamicInstance { dynamic_id: DynamicInstanceNodeId },
    /// Removes a connection; the nodes it joined stay.
    DeleteConnection { connection_id: NodeConnectionId },
    AddConnection {
        connection_id: NodeConnectionId,
        from: NodePadId,
        to: NodePadId,
        from_channels: ChannelMask,
        to_channels: ChannelMask,
        volume: FloatBits,
        pan: FloatBits,
    },
    SetConnectionParameterValues { connection_id: NodeConnectionId, values: ConnectionValues },
    SetFixedInstanceParameterValues {
        fixed_id: FixedInstanceNodeId,
        values: IdMap<ParameterId, MultiChannelValue>,
    },
    SetDynamicInstanceParameterValues {
        dynamic_id: DynamicInstanceNodeId,
        values: IdMap<ParameterId, MultiChannelValue>,
    },
}

/// The name of an operation's kind, stable whatever the operation carries.
pub open spec fn kind_text(op: ModifyTaskSpec) -> Seq<char> {
    match op {
        ModifyTaskSpec::AddTrack { .. } => "add_track"@,
        ModifyTaskSpec::AddTrackMedia { .. } => "add_track_media"@,
        ModifyTaskSpec::UpdateTrackMedia { .. } => "update_track_media"@,
        ModifyTaskSpec::DeleteTrackMedia { .. } => "delete_track_media"@,
        ModifyTaskSpec::DeleteTrack { .. } => "delete_track"@,
        ModifyTaskSpec::AddFixedInstance { .. } => "add_fixed_instance"@,
        ModifyTaskSpec::AddDynamicInstance { .. } => "add_dynamic_instance"@,
        ModifyTaskSpec::AddMixer { .. } => "add_mixer"@,
        ModifyTaskSpec::DeleteMixer { .. } => "delete_mixer"@,
        ModifyTaskSpec::AddConnection { .. } => "add_mixer_input"@,
        ModifyTaskSpec::SetConnectionParameterValues { .. } => "set_input_values"@,
        ModifyTaskSpec::SetFixedInstanceParameterValues { .. } => "set_fixed_instance_parameter_values"@,
        ModifyTaskSpec::SetDynamicInstanceParameterValues { .. } => "set_dynamic_instance_parameter_values"@,
        ModifyTaskSpec::DeleteFixedInstance { .. } => "delete_fixed_instance"@,
        ModifyTaskSpec::DeleteDynamicInstance { .. } => "delete_dynamic_instance"@,
        ModifyTaskSpec::DeleteConnection { .. } => "delete_connection"@,
    }
}

impl ModifyTaskSpec {
    /// The name of the operation's kind, for audit logs.
    pub fn get_kind(&self) -> (r: &'static str)
        ensures
            r@ == kind_text(*self),
    {
        match self {
            ModifyTaskSpec::AddTrack { .. } => "add_track",
            ModifyTaskSpec::AddTrackMedia { .. } => "add_track_media",
            ModifyTaskSpec::UpdateTrackMedia { .. } => "update_track_media",
            ModifyTaskSpec::DeleteTrackMedia { .. } => "delete_track_media",
            ModifyTaskSpec::DeleteTrack { .. } => "delete_track",
            ModifyTaskSpec::AddFixedInstance { .. } => "add_fixed_instance",
            ModifyTaskSpec::AddDynamicInstance { .. } => "add_dynamic_instance",
            ModifyTaskSpec::AddMixer { .. } => "add_mixer",
            ModifyTaskSpec::DeleteMixer { .. } => "delete_mixer",
            ModifyTaskSpec::AddConnection { .. } => "add_mixer_input",
            ModifyTaskSpec::SetConnectionParameterValues { .. } => "set_input_values",
            ModifyTaskSpec::SetFixedInstanceParameterValues { .. } => "set_fixed_instance_parameter_values",
            ModifyTaskSpec::SetDynamicInstanceParameterValues { .. } => "set_dynamic_instance_parameter_values",
            ModifyTaskSpec::DeleteFixedInstance { .. } => "delete_fixed_instance",
            ModifyTaskSpec::DeleteDynamicInstance { .. } => "delete_dynamic_instance",
            ModifyTaskSpec::DeleteConnection { .. } => "delete_connection",
        }
    }
}

/// Why an operation was refused.
#[derive(Debug, PartialEq)]
pub enum ModifyTaskError {
    TrackExists { node_id: TrackNodeId },
    FixedInstanceExists { node_id: FixedInstanceNodeId },
    DynamicInstanceExists { node_id: DynamicInstanceNodeId },
    MixerExists { node_id: MixerNodeId },
    TrackDoesNotExist { node_id: TrackNodeId },
    FixedInstanceDoesNotExist { node_id: FixedInstanceNodeId },
    DynamicInstanceDoesNotExist { node_id: DynamicInstanceNodeId },
    MixerDoesNotExist { node_id: MixerNodeId },
    ConnectionDoesNotExist { connection_id: NodeConnectionId },
    ConnectionExists { connection_id: NodeConnectionId },
    /// The connection does not run from an output to an input; the message
    /// says which of its pads is wrong.
    ConnectionMalformed { connection_id: NodeConnectionId, message: String },
    MediaExists { node_id: TrackNodeId, media_id: TrackMediaId },
    MediaDoesNotExist { node_id: TrackNodeId, media_id: TrackMediaId },
    /// Reserved: no operation checks the graph for cycles.
    CycleDetected,
}

/// `m` without the connections attached to a pad of the node `node`.
pub open spec fn without_node(m: Map<Seq<char>, NodeConnection>, node: (NodeKind, Seq<char>)) -> Map<
    Seq<char>,
    NodeConnection,
> {
    Map::new(
        |k: Seq<char>| m.contains_key(k) && !touches_node(m[k], node),
        |k: Seq<char>| m[k],
    )
}

/// `m` without the connections attached to pad `pad`.
pub open spec fn without_pad(m: Map<Seq<char>, NodeConnection>, pad: (PadKind, Seq<char>)) -> Map<
    Seq<char>,
    NodeConnection,
> {
    Map::new(|k: Seq<char>| m.contains_key(k) && !touches_pad(m[k], pad), |k: Seq<char>| m[k])
}

/// The nodes of `a` and `b` are the same.
pub open spec fn same_nodes(a: TaskSpec, b: TaskSpec) -> bool {
    &&& a.tracks == b.tracks
    &&& a.mixers == b.mixers
    &&& a.dynamic == b.dynamic
    &&& a.fixed == b.fixed
}

/// What `add_track` leaves: a refusal and no change if the identifier is
/// taken, else a new track with the given channel count and no media.
pub open spec fn add_track_post(
    old: TaskSpec,
    id: TrackNodeId,
    channels: MediaChannels,
    new: TaskSpec,
    r: Result<(), ModifyTaskError>,
) -> bool {
    if old.tracks@.contains_key(id@) {
        r == Err::<(), ModifyTaskError>(ModifyTaskError::TrackExists { node_id: id }) && new == old
    } else {
        &&& r is Ok
        &&& new.tracks@.contains_key(id@)
        &&& new.tracks@.remove(id@) == old.tracks@
        &&& new.tracks@[id@].channels == channels
        &&& new.tracks@[id@].media@ == Map::<Seq<char>, TrackMedia>::empty()
        &&& new.mixers == old.mixers && new.dynamic == old.dynamic && new.fixed == old.fixed
        &&& new.connections == old.connections
    }
}

/// What `add_mixer` leaves.
pub open spec fn add_mixer_post(
    old: TaskSpec,
    id: MixerNodeId,
    mixer: MixerNode,
    new: TaskSpec,
    r: Result<(), ModifyTaskError>,
) -> bool {
    if old.mixers@.contains_key(id@) {
        r == Err::<(), ModifyTaskError>(ModifyTaskError::MixerExists { node_id: id }) && new == old
    } else {
        &&& r is Ok
        &&& new.mixers@ == old.mixers@.insert(id@, mixer)
        &&& new.tracks == old.tracks && new.dynamic == old.dynamic && new.fixed == old.fixed
        &&& new.connections == old.connections
    }
}

/// What `add_fixed_instance` leaves.
pub open spec fn add_fixed_instance_post(
    old: TaskSpec,
    id: FixedInstanceNodeId,
    node: FixedInstanceNode,
    new: TaskSpec,
    r: Result<(), ModifyTaskError>,
) -> bool {
    if old.fixed@.contains_key(id@) {
        r == Err::<(), ModifyTaskError>(ModifyTaskError::FixedInstanceExists { node_id: id }) && new
            == old
    } else {
        &&& r is Ok
        &&& new.fixed@ == old.fixed@.insert(id@, node)
        &&& new.tracks == old.tracks && new.mixers == old.mixers && new.dynamic == old.dynamic
        &&& new.connections == old.connections
    }
}

/// What `add_dynamic_instance` leaves.
pub open spec fn add_dynamic_instance_post(
    old: TaskSpec,
    id: DynamicInstanceNodeId,
    node: DynamicInstanceNode,
    new: TaskSpec,
    r: Result<(), ModifyTaskError>,
) -> bool {
    if old.dynamic@.contains_key(id@) {
        r == Err::<(), ModifyTaskError>(ModifyTaskError::DynamicInstanceExists { node_id: id })
            && new == old
    } else {
        &&& r is Ok
        &&& new.dynamic@ == old.dynamic@.insert(id@, node)
        &&& new.tracks == old.tracks && new.mixers == old.mixers && new.fixed == old.fixed
        &&& new.connections == old.connections
    }
}

/// What `delete_track` leaves: a refusal and no change if there is no such
/// track, else the track gone with every connection attached to it.
pub open spec fn delete_track_post(
    old: TaskSpec,
    id: TrackNodeId,
    new: TaskSpec,
    r: Result<(), ModifyTaskError>,
) -> bool {
    if !old.tracks@.contains_key(id@) {
        r == Err::<(), ModifyTaskError>(ModifyTaskError::TrackDoesNotExist { node_id: id }) && new
            == old
    } else {
        &&& r is Ok
        &&& new.tracks@ == old.tracks@.remove(id@)
        &&& new.mixers == old.mixers && new.dynamic == old.dynamic && new.fixed == old.fixed
        &&& new.connections@ == without_node(old.connections@, (NodeKind::Track, id@))
    }
}

/// What `delete_mixer` leaves.
pub open spec fn delete_mixer_post(
    old: TaskSpec,
    id: MixerNodeId,
    new: TaskSpec,
    r: Result<(), ModifyTaskError>,
) -> bool {
    if !old.mixers@.contains_key(id@) {
        r == Err::<(), ModifyTaskError>(ModifyTaskError::MixerDoesNotExist { node_id: id }) && new
            == old
    } else {
        &&& r is Ok
        &&& new.mixers@ == old.mixers@.remove(id@)
        &&& new.tracks == old.tracks && new.dynamic == old.dynamic && new.fixed == old.fixed
        &&& new.connections@ == without_node(old.connections@, (NodeKind::Mixer, id@))
    }
}

/// What `delete_fixed_instance` leaves.
pub open spec fn delete_fixed_instance_post(
    old: TaskSpec,
    id: FixedInstanceNodeId,
    new: TaskSpec,
    r: Result<(), ModifyTaskError>,
) -> bool {
    if !old.fixed@.contains_key(id@) {
        r == Err::<(), ModifyTaskError>(ModifyTaskError::FixedInstanceDoesNotExist { node_id: id })
            && new == old
    } else {
        &&& r is Ok
        &&& new.fixed@ == old.fixed@.remove(id@)
        &&& new.tracks == old.tracks && new.mixers == old.mixers && new.dynamic == old.dynamic
        &&& new.connections@ == without_node(old.connections@, (NodeKind::FixedInstance, id@))
    }
}

/// What `delete_dynamic_instance` leaves.
pub open spec fn delete_dynamic_instance_post(
    old: TaskSpec,
    id: DynamicInstanceNodeId,
    new: TaskSpec,
    r: Result<(), ModifyTaskError>,
) -> bool {
    if !old.dynamic@.contains_key(id@) {
        r == Err::<(), ModifyTaskError>(ModifyTaskError::DynamicInstanceDoesNotExist { node_id: id })
            && new == old
    } else {
        &&& r is Ok
        &&& new.dynamic@ == old.dynamic@.remove(id@)
        &&& new.tracks == old.tracks && new.mixers == old.mixers && new.fixed == old.fixed
        &&& new.connections@ == without_node(old.connections@, (NodeKind::DynamicInstance, id@))
    }
}

/// The tracks of `new` are those of `old` but for track `id`, whose channel
/// count is kept and whose media become `media`.
pub open spec fn track_media_replaced(
    old: TaskSpec,
    id: Seq<char>,
    media: Map<Seq<char>, TrackMedia>,
    new: TaskSpec,
) -> bool {
    &&& new.tracks@.contains_key(id)
    &&& new.tracks@.remove(id) == old.tracks@.remove(id)
    &&& new.tracks@[id].channels == old.tracks@[id].channels
    &&& new.tracks@[id].media@ == media
    &&& new.mixers == old.mixers && new.dynamic == old.dynamic && new.fixed == old.fixed
    &&& new.connections == old.connections
}

/// What `add_track_media` leaves.
pub open spec fn add_track_media_post(
    old: TaskSpec,
    track_id: TrackNodeId,
    media_id: TrackMediaId,
    media: TrackMedia,
    new: TaskSpec,
    r: Result<(), ModifyTaskError>,
) -> bool {
    if !old.tracks@.contains_key(track_id@) {
        r == Err::<(), ModifyTaskError>(ModifyTaskError::TrackDoesNotExist { node_id: track_id })
            && new == old
    } else if old.tracks@[track_id@].media@.contains_key(media_id@) {
        r == Err::<(), ModifyTaskError>(
            ModifyTaskError::MediaExists { node_id: track_id, media_id },
        ) && new == old
    } else {
        r is Ok && track_media_replaced(
            old,
            track_id@,
            old.tracks@[track_id@].media@.insert(media_id@, media),
            new,
        )
    }
}

/// What `update_track_media` leaves.
pub open spec fn update_track_media_post(
    old: TaskSpec,
    track_id: TrackNodeId,
    media_id: TrackMediaId,
    update: UpdateTaskTrackMedia,
    new: TaskSpec,
    r: Result<(), ModifyTaskError>,
) -> bool {
    if !old.tracks@.contains_key(track_id@) {
        r == Err::<(), ModifyTaskError>(ModifyTaskError::TrackDoesNotExist { node_id: track_id })
            && new == old
    } else if !old.tracks@[track_id@].media@.contains_key(media_id@) {
        r == Err::<(), ModifyTaskError>(
            ModifyTaskError::MediaDoesNotExist { node_id: track_id, media_id },
        ) && new == old
    } else {
        let media = old.tracks@[track_id@].media@;
        r is Ok && track_media_replaced(
            old,
            track_id@,
            media.insert(media_id@, updated_media(media[media_id@], update)),
            new,
        )
    }
}

/// What `delete_track_media` leaves.
pub open spec fn delete_track_media_post(
    old: TaskSpec,
    track_id: TrackNodeId,
    media_id: TrackMediaId,
    new: TaskSpec,
    r: Result<(), ModifyTaskError>,
) -> bool {
    if !old.tracks@.contains_key(track_id@) {
        r == Err::<(), ModifyTaskError>(ModifyTaskError::TrackDoesNotExist { node_id: track_id })
            && new == old
    } else if !old.tracks@[track_id@].media@.contains_key(media_id@) {
        r == Err::<(), ModifyTaskError>(
            ModifyTaskError::MediaDoesNotExist { node_id: track_id, media_id },
        ) && new == old
    } else {
        r is Ok && track_media_replaced(
            old,
            track_id@,
            old.tracks@[track_id@].media@.remove(media_id@),
            new,
        )
    }
}

/// What `delete_connection` leaves.
pub open spec fn delete_connection_post(
    old: TaskSpec,
    id: NodeConnectionId,
    new: TaskSpec,
    r: Result<(), ModifyTaskError>,
) -> bool {
    if !old.connections@.contains_key(id@) {
        r == Err::<(), ModifyTaskError>(ModifyTaskError::ConnectionDoesNotExist { connection_id: id })
            && new == old
    } else {
        r is Ok && same_nodes(old, new) && new.connections@ == old.connections@.remove(id@)
    }
}

/// The message of a refused connection whose pad `pad` faces the wrong way.
pub open spec fn wrong_direction_message(pad: NodePadId, output_wanted: bool) -> Seq<char> {
    pad_text(pad@) + if output_wanted {
        " is not an output"@
    } else {
        " is not an input"@
    }
}

/// What `add_connection` leaves: a refusal and no change if the identifier is
/// taken or the connection does not run from an output to an input, else the
/// new connection. Nothing is checked of the nodes the pads belong to.
pub open spec fn add_connection_post(
    old: TaskSpec,
    id: NodeConnectionId,
    connection: NodeConnection,
    new: TaskSpec,
    r: Result<(), ModifyTaskError>,
) -> bool {
    if old.connections@.contains_key(id@) {
        r == Err::<(), ModifyTaskError>(ModifyTaskError::ConnectionExists { connection_id: id })
            && new == old
    } else if !connection.from@.0.spec_is_output() {
        &&& r matches Err(ModifyTaskError::ConnectionMalformed { connection_id, message })
        &&& connection_id == id
        &&& message@ == wrong_direction_message(connection.from, true)
        &&& new == old
    } else if !connection.to@.0.spec_is_input() {
        &&& r matches Err(ModifyTaskError::ConnectionMalformed { connection_id, message })
        &&& connection_id == id
        &&& message@ == wrong_direction_message(connection.to, false)
        &&& new == old
    } else {
        r is Ok && same_nodes(old, new) && new.connections@ == old.connections@.insert(
            id@,
            connection,
        )
    }
}

/// The connection that `values` makes of `c`.
pub open spec fn connection_with_values(c: NodeConnection, values: ConnectionValues) -> NodeConnection {
    NodeConnection {
        volume: match values.volume {
            Some(v) => v,
            None => c.volume,
        },
        pan: match values.pan {
            Some(p) => p,
            None => c.pan,
        },
        ..c
    }
}

/// What `set_connection_parameter_values` leaves.
pub open spec fn set_connection_values_post(
    old: TaskSpec,
    id: NodeConnectionId,
    values: ConnectionValues,
    new: TaskSpec,
    r: Result<(), ModifyTaskError>,
) -> bool {
    if !old.connections@.contains_key(id@) {
        r == Err::<(), ModifyTaskError>(ModifyTaskError::ConnectionDoesNotExist { connection_id: id })
            && new == old
    } else {
        &&& r is Ok
        &&& same_nodes(old, new)
        &&& new.connections@ == old.connections@.insert(
            id@,
            connection_with_values(old.connections@[id@], values),
        )
    }
}

/// What `set_fixed_instance_parameter_values` leaves: the given values merged
/// into the unit's parameters, each replacing the value it had.
pub open spec fn set_fixed_values_post(
    old: TaskSpec,
    id: FixedInstanceNodeId,
    values: Map<Seq<char>, MultiChannelValue>,
    new: TaskSpec,
    r: Result<(), ModifyTaskError>,
) -> bool {
    if !old.fixed@.contains_key(id@) {
        r == Err::<(), ModifyTaskError>(ModifyTaskError::FixedInstanceDoesNotExist { node_id: id })
            && new == old
    } else {
        &&& r is Ok
        &&& new.fixed@.contains_key(id@)
        &&& new.fixed@.remove(id@) == old.fixed@.remove(id@)
        &&& new.fixed@[id@].instance_id == old.fixed@[id@].instance_id
        &&& new.fixed@[id@].wet == old.fixed@[id@].wet
        &&& new.fixed@[id@].parameters@ == old.fixed@[id@].parameters@.union_prefer_right(values)
        &&& new.tracks == old.tracks && new.mixers == old.mixers && new.dynamic == old.dynamic
        &&& new.connections == old.connections
    }
}

/// What `set_dynamic_instance_parameter_values` leaves.
pub open spec fn set_dynamic_values_post(
    old: TaskSpec,
    id: DynamicInstanceNodeId,
    values: Map<Seq<char>, MultiChannelValue>,
    new: TaskSpec,
    r: Result<(), ModifyTaskError>,
) -> bool {
    if !old.dynamic@.contains_key(id@) {
        r == Err::<(), ModifyTaskError>(ModifyTaskError::DynamicInstanceDoesNotExist { node_id: id })
            && new == old
    } else {
        &&& r is Ok
        &&& new.dynamic@.contains_key(id@)
        &&& new.dynamic@.remove(id@) == old.dynamic@.remove(id@)
        &&& new.dynamic@[id@].model_id == old.dynamic@[id@].model_id
        &&& new.dynamic@[id@].parameters@ == old.dynamic@[id@].parameters@.union_prefer_right(
            values,
        )
        &&& new.tracks == old.tracks && new.mixers == old.mixers && new.fixed == old.fixed
        &&& new.connections == old.connections
    }
}

/// What applying `op` leaves: the outcome of the operation it names.
pub open spec fn modify_post(
    old: TaskSpec,
    op: ModifyTaskSpec,
    new: TaskSpec,
    r: Result<(), ModifyTaskError>,
) -> bool {
    match op {
        ModifyTaskSpec::AddTrack { track_id, channels } => add_track_post(
            old,
            track_id,
            channels,
            new,
            r,
        ),
        ModifyTaskSpec::AddTrackMedia { track_id, media_id, spec } => add_track_media_post(
            old,
            track_id,
            media_id,
            spec,
            new,
            r,
        ),
        ModifyTaskSpec::UpdateTrackMedia { track_id, media_id, update } => update_track_media_post(
            old,
            track_id,
            media_id,
            update,
            new,
            r,
        ),
        ModifyTaskSpec::DeleteTrackMedia { track_id, media_id } => delete_track_media_post(
            old,
            track_id,
            media_id,
            new,
            r,
        ),
        ModifyTaskSpec::DeleteTrack { track_id } => delete_track_post(old, track_id, new, r),
        ModifyTaskSpec::AddFixedInstance { fixed_id, spec } => add_fixed_instance_post(
            old,
            fixed_id,
            spec,
            new,
            r,
        ),
        ModifyTaskSpec::AddDynamicInstance { dynamic_id, spec } => add_dynamic_instance_post(
            old,
            dynamic_id,
            spec,
            new,
            r,
        ),
        ModifyTaskSpec::AddMixer { mixer_id, spec } => add_mixer_post(old, mixer_id, spec, new, r),
        ModifyTaskSpec::DeleteMixer { mixer_id } => delete_mixer_post(old, mixer_id, new, r),
        ModifyTaskSpec::DeleteFixedInstance { fixed_id } => delete_fixed_instance_post(
            old,
            fixed_id,
            new,
            r,
        ),
        ModifyTaskSpec::DeleteDynamicInstance { dynamic_id } => delete_dynamic_instance_post(
            old,
            dynamic_id,
            new,
            r,
        ),
        ModifyTaskSpec::DeleteConnection { connection_id } => delete_connection_post(
            old,
            connection_id,
            new,
            r,
        ),
        ModifyTaskSpec::AddConnection {
            connection_id,
            from,
            to,
            from_channels,
            to_channels,
            volume,
            pan,
        } => add_connection_post(
            old,
            connection_id,
            NodeConnection { from, to, from_channels, to_channels, volume, pan },
            new,
            r,
        ),
        ModifyTaskSpec::SetConnectionParameterValues { connection_id, values } => set_connection_values_post(
            old,
            connection_id,
            values,
            new,
            r,
        ),
        ModifyTaskSpec::SetFixedInstanceParameterValues { fixed_id, values } => set_fixed_values_post(
            old,
            fixed_id,
            values@,
            new,
            r,
        ),
        ModifyTaskSpec::SetDynamicInstanceParameterValues {
            dynamic_id,
            values,
        } => set_dynamic_values_post(old, dynamic_id, values@, new, r),
    }
}

/// A second `AddTrack` with an identifier that the first one used is refused
/// with `TrackExists`, whatever the first one returned, and leaves the
/// specification as the first one left it.
pub proof fn lemma_add_track_twice_rejected(
    s0: TaskSpec,
    id: TrackNodeId,
    c1: MediaChannels,
    s1: TaskSpec,
    r1: Result<(), ModifyTaskError>,
    c2: MediaChannels,
    s2: TaskSpec,
    r2: Result<(), ModifyTaskError>,
)
    requires
        add_track_post(s0, id, c1, s1, r1),
        add_track_post(s1, id, c2, s2, r2),
    ensures
        r2 == Err::<(), ModifyTaskError>(ModifyTaskError::TrackExists { node_id: id }),
        s2 == s1,
{
    if !s0.tracks@.contains_key(id@) {
        assert(s1.tracks@.contains_key(id@));
    }
}

/// After a node is deleted, no connection is attached to any of its pads.
pub proof fn lemma_deleted_node_unconnected(m: Map<Seq<char>, NodeConnection>, node: (NodeKind, Seq<char>))
    ensures
        forall|k: Seq<char>| #[trigger]
            without_node(m, node).contains_key(k) ==> !touches_node(without_node(m, node)[k], node),
{
}

impl TaskSpec {
    pub fn add_track(&mut self, track_id: TrackNodeId, channels: MediaChannels) -> (r: Result<
        (),
        ModifyTaskError,
    >)
        ensures
            add_track_post(*old(self), track_id, channels, *final(self), r),
    {
        if self.tracks.contains_key(&track_id) {
            return Err(ModifyTaskError::TrackExists { node_id: track_id });
        }
        let ghost old_tracks = self.tracks@;
        let ghost key = track_id@;
        self.tracks.insert(track_id, TrackNode { channels, media: IdMap::new() });
        assert(self.tracks@.remove(key) =~= old_tracks);
        Ok(())
    }

    pub fn add_mixer(&mut self, mixer_id: MixerNodeId, mixer: MixerNode) -> (r: Result<
        (),
        ModifyTaskError,
    >)
        ensures
            add_mixer_post(*old(self), mixer_id, mixer, *final(self), r),
    {
        if self.mixers.contains_key(&mixer_id) {
            return Err(ModifyTaskError::MixerExists { node_id: mixer_id });
        }
        self.mixers.insert(mixer_id, mixer);
        Ok(())
    }

    pub fn add_fixed_instance(
        &mut self,
        fixed_id: FixedInstanceNodeId,
        instance: FixedInstanceNode,
    ) -> (r: Result<(), ModifyTaskError>)
        ensures
            add_fixed_instance_post(*old(self), fixed_id, instance, *final(self), r),
    {
        if self.fixed.contains_key(&fixed_id) {
            return Err(ModifyTaskError::FixedInstanceExists { node_id: fixed_id });
        }
        self.fixed.insert(fixed_id, instance);
        Ok(())
    }

    pub fn add_dynamic_instance(
        &mut self,
        dynamic_id: DynamicInstanceNodeId,
        dynamic: DynamicInstanceNode,
    ) -> (r: Result<(), ModifyTaskError>)
        ensures
            add_dynamic_instance_post(*old(self), dynamic_id, dynamic, *final(self), r),
    {
        if self.dynamic.contains_key(&dynamic_id) {
            return Err(ModifyTaskError::DynamicInstanceExists { node_id: dynamic_id });
        }
        self.dynamic.insert(dynamic_id, dynamic);
        Ok(())
    }

    /// Removes every connection attached to pad `pad`.
    pub fn delete_connections_referencing(&mut self, pad: NodePadId)
        ensures
            same_nodes(*old(self), *final(self)),
            final(self).connections@ == without_pad(old(self).connections@, pad@),
    {
        self.connections.remove_matching(&pad);
    }

    pub fn delete_track(&mut self, node_id: TrackNodeId) -> (r: Result<(), ModifyTaskError>)
        ensures
            delete_track_post(*old(self), node_id, *final(self), r),
            r is Ok ==> forall|k: Seq<char>| #[trigger]
                final(self).connections@.contains_key(k) ==> !touches_node(
                    final(self).connections@[k],
                    (NodeKind::Track, node_id@),
                ),
    {
        let ghost old_connections = self.connections@;
        let ghost node = (NodeKind::Track, node_id@);
        if !self.tracks.contains_key(&node_id) {
            return Err(ModifyTaskError::TrackDoesNotExist { node_id });
        }
        let pad = NodePadId::TrackOutput(node_id.clone());
        self.tracks.remove(&node_id);
        self.delete_connections_referencing(pad);
        assert(self.connections@ =~= without_node(old_connections, node));
        proof {
            lemma_deleted_node_unconnected(old_connections, node);
        }
        Ok(())
    }

    pub fn delete_mixer(&mut self, mixer_id: MixerNodeId) -> (r: Result<(), ModifyTaskError>)
        ensures
            delete_mixer_post(*old(self), mixer_id, *final(self), r),
            r is Ok ==> forall|k: Seq<char>| #[trigger]
                final(self).connections@.contains_key(k) ==> !touches_node(
                    final(self).connections@[k],
                    (NodeKind::Mixer, mixer_id@),
                ),
    {
        let ghost old_connections = self.connections@;
        let ghost node = (NodeKind::Mixer, mixer_id@);
        if !self.mixers.contains_key(&mixer_id) {
            return Err(ModifyTaskError::MixerDoesNotExist { node_id: mixer_id });
        }
        self.mixers.remove(&mixer_id);
        self.delete_connections_referencing(NodePadId::MixerOutput(mixer_id.clone()));
        self.delete_connections_referencing(NodePadId::MixerInput(mixer_id));
        assert(self.connections@ =~= without_node(old_connections, node));
        proof {
            lemma_deleted_node_unconnected(old_connections, node);
        }
        Ok(())
    }

    pub fn delete_fixed_instance(&mut self, node_id: FixedInstanceNodeId) -> (r: Result<
        (),
        ModifyTaskError,
    >)
        ensures
            delete_fixed_instance_post(*old(self), node_id, *final(self), r),
            r is Ok ==> forall|k: Seq<char>| #[trigger]
                final(self).connections@.contains_key(k) ==> !touches_node(
                    final(self).connections@[k],
                    (NodeKind::FixedInstance, node_id@),
                ),
    {
        let ghost old_connections = self.connections@;
        let ghost node = (NodeKind::FixedInstance, node_id@);
        if !self.fixed.contains_key(&node_id) {
            return Err(ModifyTaskError::FixedInstanceDoesNotExist { node_id });
        }
        self.fixed.remove(&node_id);
        self.delete_connections_referencing(NodePadId::FixedInstanceOutput(node_id.clone()));
        self.delete_connections_referencing(NodePadId::FixedInstanceInput(node_id));
        assert(self.connections@ =~= without_node(old_connections, node));
        proof {
            lemma_deleted_node_unconnected(old_connections, node);
        }
        Ok(())
    }

    pub fn delete_dynamic_instance(&mut self, node_id: DynamicInstanceNodeId) -> (r: Result<
        (),
        ModifyTaskError,
    >)
        ensures
            delete_dynamic_instance_post(*old(self), node_id, *final(self), r),
            r is Ok ==> forall|k: Seq<char>| #[trigger]
                final(self).connections@.contains_key(k) ==> !touches_node(
                    final(self).connections@[k],
                    (NodeKind::DynamicInstance, node_id@),
                ),
    {
        let ghost old_connections = self.connections@;
        let ghost node = (NodeKind::DynamicInstance, node_id@);
        if !self.dynamic.contains_key(&node_id) {
            return Err(ModifyTaskError::DynamicInstanceDoesNotExist { node_id });
        }
        self.dynamic.remove(&node_id);
        self.delete_connections_referencing(NodePadId::DynamicInstanceOutput(node_id.clone()));
        self.delete_connections_referencing(NodePadId::DynamicInstanceInput(node_id));
        assert(self.connections@ =~= without_node(old_connections, node));
        proof {
            lemma_deleted_node_unconnected(old_connections, node);
        }
        Ok(())
    }

    pub fn add_track_media(
        &mut self,
        track_id: TrackNodeId,
        media_id: TrackMediaId,
        spec: TrackMedia,
    ) -> (r: Result<(), ModifyTaskError>)
        ensures
            add_track_media_post(*old(self), track_id, media_id, spec, *final(self), r),
    {
        match self.tracks.get(&track_id) {
            None => {
                return Err(ModifyTaskError::TrackDoesNotExist { node_id: track_id });
            },
            Some(track) => {
                if track.media.contains_key(&media_id) {
                    return Err(ModifyTaskError::MediaExists { node_id: track_id, media_id });
                }
            },
        }
        let ghost old_tracks = self.tracks@;
        let ghost key = track_id@;
        let ghost media = old_tracks[key].media@.insert(media_id@, spec);
        match self.tracks.remove(&track_id) {
            None => {},
            Some(track) => {
                let mut track = track;
                track.media.insert(media_id, spec);
                self.tracks.insert(track_id, track);
            },
        }
        assert(self.tracks@.remove(key) =~= old_tracks.remove(key));
        Ok(())
    }

    pub fn update_track_media(
        &mut self,
        track_id: TrackNodeId,
        media_id: TrackMediaId,
        update: UpdateTaskTrackMedia,
    ) -> (r: Result<(), ModifyTaskError>)
        ensures
            update_track_media_post(*old(self), track_id, media_id, update, *final(self), r),
    {
        match self.tracks.get(&track_id) {
            None => {
                return Err(ModifyTaskError::TrackDoesNotExist { node_id: track_id });
            },
            Some(track) => {
                if !track.media.contains_key(&media_id) {
                    return Err(ModifyTaskError::MediaDoesNotExist { node_id: track_id, media_id });
                }
            },
        }
        let ghost old_tracks = self.tracks@;
        let ghost key = track_id@;
        match self.tracks.remove(&track_id) {
            None => {},
            Some(track) => {
                let mut track = track;
                match track.media.remove(&media_id) {
                    None => {},
                    Some(media) => {
                        let mut media = media;
                        media.update(update);
                        track.media.insert(media_id, media);
                    },
                }
                self.tracks.insert(track_id, track);
            },
        }
        assert(self.tracks@.remove(key) =~= old_tracks.remove(key));
        assert(self.tracks@[key].media@ =~= old_tracks[key].media@.insert(
            media_id@,
            updated_media(old_tracks[key].media@[media_id@], update),
        ));
        Ok(())
    }

    pub fn delete_track_media(&mut self, track_id: TrackNodeId, media_id: TrackMediaId) -> (r: Result<
        (),
        ModifyTaskError,
    >)
        ensures
            delete_track_media_post(*old(self), track_id, media_id, *final(self), r),
    {
        match self.tracks.get(&track_id) {
            None => {
                return Err(ModifyTaskError::TrackDoesNotExist { node_id: track_id });
            },
            Some(track) => {
                if !track.media.contains_key(&media_id) {
                    return Err(ModifyTaskError::MediaDoesNotExist { node_id: track_id, media_id });
                }
            },
        }
        let ghost old_tracks = self.tracks@;
        let ghost key = track_id@;
        match self.tracks.remove(&track_id) {
            None => {},
            Some(track) => {
                let mut track = track;
                track.media.remove(&media_id);
                self.tracks.insert(track_id, track);
            },
        }
        assert(self.tracks@.remove(key) =~= old_tracks.remove(key));
        Ok(())
    }

    pub fn delete_connection(&mut self, connection_id: NodeConnectionId) -> (r: Result<
        (),
        ModifyTaskError,
    >)
        ensures
            delete_connection_post(*old(self), connection_id, *final(self), r),
    {
        if !self.connections.contains_key(&connection_id) {
            return Err(ModifyTaskError::ConnectionDoesNotExist { connection_id });
        }
        self.connections.remove(&connection_id);
        Ok(())
    }

    /// Adds a connection from output `from` to input `to`. No check is made
    /// that the nodes exist or that the graph stays free of cycles.
    pub fn add_connection(
        &mut self,
        connection_id: NodeConnectionId,
        from: NodePadId,
        to: NodePadId,
        from_channels: ChannelMask,
        to_channels: ChannelMask,
        volume: FloatBits,
        pan: FloatBits,
    ) -> (r: Result<(), ModifyTaskError>)
        ensures
            add_connection_post(
                *old(self),
                connection_id,
                NodeConnection { from, to, from_channels, to_channels, volume, pan },
                *final(self),
                r,
            ),
            r is Ok ==> from@.0.spec_is_output() && to@.0.spec_is_input(),
    {
        if self.connections.contains_key(&connection_id) {
            return Err(ModifyTaskError::ConnectionExists { connection_id });
        }
        if !from.is_output() {
            let mut message = from.serialize();
            append_str(&mut message, " is not an output");
            return Err(ModifyTaskError::ConnectionMalformed { connection_id, message });
        }
        if !to.is_input() {
            let mut message = to.serialize();
            append_str(&mut message, " is not an input");
            return Err(ModifyTaskError::ConnectionMalformed { connection_id, message });
        }
        self.connections.insert(
            connection_id,
            NodeConnection { from, to, from_channels, to_channels, volume, pan },
        );
        Ok(())
    }

    pub fn set_connection_parameter_values(
        &mut self,
        connection_id: NodeConnectionId,
        values: ConnectionValues,
    ) -> (r: Result<(), ModifyTaskError>)
        ensures
            set_connection_values_post(*old(self), connection_id, values, *final(self), r),
    {
        let ghost old_connections = self.connections@;
        match self.connections.remove(&connection_id) {
            None => Err(ModifyTaskError::ConnectionDoesNotExist { connection_id }),
            Some(connection) => {
                let mut connection = connection;
                if let Some(volume) = values.volume {
                    connection.volume = volume;
                }
                if let Some(pan) = values.pan {
                    connection.pan = pan;
                }
                let ghost key = connection_id@;
                self.connections.insert(connection_id, connection);
                assert(self.connections@ =~= old_connections.insert(
                    key,
                    connection_with_values(old_connections[key], values),
                ));
                Ok(())
            },
        }
    }

    pub fn set_fixed_instance_parameter_values(
        &mut self,
        node_id: FixedInstanceNodeId,
        parameters: IdMap<ParameterId, MultiChannelValue>,
    ) -> (r: Result<(), ModifyTaskError>)
        ensures
            set_fixed_values_post(*old(self), node_id, parameters@, *final(self), r),
    {
        if !self.fixed.contains_key(&node_id) {
            return Err(ModifyTaskError::FixedInstanceDoesNotExist { node_id });
        }
        let ghost old_fixed = self.fixed@;
        let ghost key = node_id@;
        match self.fixed.remove(&node_id) {
            None => {},
            Some(fixed) => {
                let mut fixed = fixed;
                fixed.parameters.extend(parameters);
                self.fixed.insert(node_id, fixed);
            },
        }
        assert(self.fixed@.remove(key) =~= old_fixed.remove(key));
        Ok(())
    }

    pub fn set_dynamic_instance_parameter_values(
        &mut self,
        node_id: DynamicInstanceNodeId,
        parameters: IdMap<ParameterId, MultiChannelValue>,
    ) -> (r: Result<(), ModifyTaskError>)
        ensures
            set_dynamic_values_post(*old(self), node_id, parameters@, *final(self), r),
    {
        if !self.dynamic.contains_key(&node_id) {
            return Err(ModifyTaskError::DynamicInstanceDoesNotExist { node_id });
        }
        let ghost old_dynamic = self.dynamic@;
        let ghost key = node_id@;
        match self.dynamic.remove(&node_id) {
            None => {},
            Some(dynamic) => {
                let mut dynamic = dynamic;
                dynamic.parameters.extend(parameters);
                self.dynamic.insert(node_id, dynamic);
            },
        }
        assert(self.dynamic@.remove(key) =~= old_dynamic.remove(key));
        Ok(())
    }

    /// Applies one operation. A refused operation leaves the specification
    /// unchanged; every operation keeps connections running from outputs to
    /// inputs.
    pub fn modify(&mut self, modify: ModifyTaskSpec) -> (r: Result<(), ModifyTaskError>)
        ensures
            modify_post(*old(self), modify, *final(self), r),
            r is Err ==> *final(self) == *old(self),
            old(self).connections_polarized() ==> final(self).connections_polarized(),
    {
        let ghost before = *self;
        let r = match modify {
            ModifyTaskSpec::AddFixedInstance { fixed_id, spec } => self.add_fixed_instance(
                fixed_id,
                spec,
            ),
            ModifyTaskSpec::AddDynamicInstance { dynamic_id, spec } => self.add_dynamic_instance(
                dynamic_id,
                spec,
            ),
            ModifyTaskSpec::AddMixer { mixer_id, spec } => self.add_mixer(mixer_id, spec),
            ModifyTaskSpec::DeleteMixer { mixer_id } => self.delete_mixer(mixer_id),
            ModifyTaskSpec::SetFixedInstanceParameterValues {
                fixed_id,
                values,
            } => self.set_fixed_instance_parameter_values(fixed_id, values),
            ModifyTaskSpec::SetDynamicInstanceParameterValues {
                dynamic_id,
                values,
            } => self.set_dynamic_instance_parameter_values(dynamic_id, values),
            ModifyTaskSpec::AddTrack { track_id, channels } => self.add_track(track_id, channels),
            ModifyTaskSpec::DeleteTrackMedia { track_id, media_id } => self.delete_track_media(
                track_id,
                media_id,
            ),
            ModifyTaskSpec::DeleteTrack { track_id } => self.delete_track(track_id),
            ModifyTaskSpec::SetConnectionParameterValues {
                connection_id,
                values,
            } => self.set_connection_parameter_values(connection_id, values),
            ModifyTaskSpec::AddTrackMedia { track_id, media_id, spec } => self.add_track_media(
                track_id,
                media_id,
                spec,
            ),
            ModifyTaskSpec::UpdateTrackMedia { track_id, media_id, update } => self.update_track_media(
                track_id,
                media_id,
                update,
            ),
            ModifyTaskSpec::DeleteFixedInstance { fixed_id } => self.delete_fixed_instance(fixed_id),
            ModifyTaskSpec::DeleteDynamicInstance { dynamic_id } => self.delete_dynamic_instance(
                dynamic_id,
            ),
            ModifyTaskSpec::DeleteConnection { connection_id } => self.delete_connection(
                connection_id,
            ),
            ModifyTaskSpec::AddConnection {
                connection_id,
                from,
                to,
                from_channels,
                to_channels,
                volume,
                pan,
            } => self.add_connection(
                connection_id,
                from,
                to,
                from_channels,
                to_channels,
                volume,
                pan,
            ),
        };
        proof {
            if before.connections_polarized() {
                assert forall|k: Seq<char>| #[trigger]
                    self.connections@.contains_key(k) implies self.connections@[k].from@.0.spec_is_output()
                    && self.connections@[k].to@.0.spec_is_input() by {
                    if before.connections@.contains_key(k) {
                        assert(before.connections@[k].from@.0.spec_is_output());
                    }
                }
            }
        }
        r
    }
}

} // verus!
