use audiocloud_api::{
    hashmap_changes, CreateTask, DomainId, ModifyTask, Task, TimeRange,
    ChannelMask, CloudError, ConnectionValues, DynamicInstanceNode, DynamicInstanceNodeId, FixedInstanceId,
    FixedInstanceNode, FixedInstanceNodeId, FloatBits, IdMap, MediaChannels, MediaObjectId, MixerNode,
    MixerNodeId, Model, ModelId, ModelInput, ModelOutput, ControlChannels, ModelValue, ModifyTaskError,
    ModifyTaskSpec, NodeConnectionId, NodePadId, ParameterId, TaskSpec, TimeSegment, TrackMedia,
    TrackMediaFormat, TrackMediaId, TrackNodeId, UpdateTaskTrackMedia,
};

fn track(id: &str) -> TrackNodeId {
    TrackNodeId::new(id.to_string())
}

fn mixer(id: &str) -> MixerNodeId {
    MixerNodeId::new(id.to_string())
}

fn fixed(id: &str) -> FixedInstanceNodeId {
    FixedInstanceNodeId::new(id.to_string())
}

fn dynamic(id: &str) -> DynamicInstanceNodeId {
    DynamicInstanceNodeId::new(id.to_string())
}

fn conn(id: &str) -> NodeConnectionId {
    NodeConnectionId::new(id.to_string())
}

fn bits(x: f64) -> FloatBits {
    FloatBits(x.to_bits())
}

fn model(inputs: usize, outputs: usize) -> Model {
    let mut m = Model::default();
    for _ in 0..inputs {
        m.inputs.push(ModelInput::Audio(ControlChannels::Generic));
    }
    for _ in 0..outputs {
        m.outputs.push(ModelOutput::Audio(ControlChannels::Generic));
    }
    m
}

fn insert_model() -> ModelId {
    ModelId::new("audio_cloud".to_string(), "insert".to_string())
}

fn fixed_node() -> FixedInstanceNode {
    FixedInstanceNode {
        instance_id: FixedInstanceId::new("audio_cloud".to_string(), "insert".to_string(), "1".to_string()),
        parameters: IdMap::new(),
        wet: bits(1.0),
    }
}

fn media(object: &str) -> TrackMedia {
    TrackMedia {
        channels: MediaChannels::Stereo,
        format: TrackMediaFormat::Wave,
        media_segment: TimeSegment { start: bits(0.0), length: bits(10.0) },
        timeline_segment: TimeSegment { start: bits(5.0), length: bits(10.0) },
        object_id: MediaObjectId::new(object.to_string()),
    }
}

/// Track t1 (stereo) connected to the input of mixer m1 (2 in, 2 out) by c1.
fn scenario_b_spec() -> TaskSpec {
    let mut spec = TaskSpec::new();
    assert_eq!(spec.add_track(track("t1"), MediaChannels::Stereo), Ok(()));
    assert_eq!(spec.add_mixer(mixer("m1"), MixerNode { input_channels: 2, output_channels: 2 }), Ok(()));
    assert_eq!(
        spec.add_connection(
            conn("c1"),
            NodePadId::TrackOutput(track("t1")),
            NodePadId::MixerInput(mixer("m1")),
            ChannelMask::Stereo(0),
            ChannelMask::Stereo(0),
            bits(1.0),
            bits(0.0),
        ),
        Ok(())
    );
    spec
}

#[test]
fn empty_spec_fails_validation() {
    let spec = TaskSpec::new();
    assert_eq!(spec.validate(&IdMap::new()), Err(CloudError::NoNodesDeclared));
}

#[test]
fn track_to_mixer_connection_validates() {
    let spec = scenario_b_spec();
    assert_eq!(spec.connections.len(), 1);
    assert_eq!(spec.validate(&IdMap::new()), Ok(()));
    let mut models = IdMap::new();
    models.insert(insert_model(), model(1, 1));
    assert_eq!(spec.validate(&models), Ok(()));
}

#[test]
fn stereo_mask_on_mono_fixed_input_fails_validation() {
    let mut spec = TaskSpec::new();
    spec.add_track(track("t1"), MediaChannels::Stereo).unwrap();
    spec.add_fixed_instance(fixed("f1"), fixed_node()).unwrap();
    spec.add_connection(
        conn("c2"),
        NodePadId::TrackOutput(track("t1")),
        NodePadId::FixedInstanceInput(fixed("f1")),
        ChannelMask::Stereo(0),
        ChannelMask::Stereo(0),
        bits(1.0),
        bits(0.0),
    )
    .unwrap();
    let mut models = IdMap::new();
    models.insert(insert_model(), model(1, 1));
    assert_eq!(
        spec.validate(&models),
        Err(CloudError::ConnectionError {
            connection_id: conn("c2"),
            pad: NodePadId::FixedInstanceInput(fixed("f1")),
            error: Box::new(CloudError::ChannelMaskIncompatible { mask: ChannelMask::Stereo(0), channels: 1 }),
        })
    );
}

#[test]
fn validation_reports_missing_model() {
    let mut spec = TaskSpec::new();
    spec.add_fixed_instance(fixed("f1"), fixed_node()).unwrap();
    spec.add_mixer(mixer("m1"), MixerNode { input_channels: 2, output_channels: 2 }).unwrap();
    spec.add_connection(
        conn("c1"),
        NodePadId::FixedInstanceOutput(fixed("f1")),
        NodePadId::MixerInput(mixer("m1")),
        ChannelMask::Mono(0),
        ChannelMask::Mono(0),
        bits(1.0),
        bits(0.0),
    )
    .unwrap();
    assert_eq!(
        spec.validate(&IdMap::new()),
        Err(CloudError::ConnectionError {
            connection_id: conn("c1"),
            pad: NodePadId::FixedInstanceOutput(fixed("f1")),
            error: Box::new(CloudError::ModelNotFound { model_id: insert_model() }),
        })
    );
}

#[test]
fn validation_reports_missing_node() {
    let mut spec = TaskSpec::new();
    spec.add_track(track("t1"), MediaChannels::Mono).unwrap();
    spec.add_connection(
        conn("c1"),
        NodePadId::TrackOutput(track("t1")),
        NodePadId::MixerInput(mixer("nowhere")),
        ChannelMask::Mono(0),
        ChannelMask::Mono(0),
        bits(1.0),
        bits(0.0),
    )
    .unwrap();
    assert_eq!(
        spec.validate(&IdMap::new()),
        Err(CloudError::ConnectionError {
            connection_id: conn("c1"),
            pad: NodePadId::MixerInput(mixer("nowhere")),
            error: Box::new(CloudError::MixerNodeNotFound { mixer_node_id: mixer("nowhere") }),
        })
    );
}

#[test]
fn validation_checks_mono_track_mask() {
    let mut spec = TaskSpec::new();
    spec.add_track(track("t1"), MediaChannels::Mono).unwrap();
    spec.add_mixer(mixer("m1"), MixerNode { input_channels: 2, output_channels: 2 }).unwrap();
    spec.add_connection(
        conn("c1"),
        NodePadId::TrackOutput(track("t1")),
        NodePadId::MixerInput(mixer("m1")),
        ChannelMask::Stereo(0),
        ChannelMask::Stereo(0),
        bits(1.0),
        bits(0.0),
    )
    .unwrap();
    assert_eq!(
        spec.validate(&IdMap::new()),
        Err(CloudError::ConnectionError {
            connection_id: conn("c1"),
            pad: NodePadId::TrackOutput(track("t1")),
            error: Box::new(CloudError::ChannelMaskIncompatible { mask: ChannelMask::Stereo(0), channels: 1 }),
        })
    );
}

#[test]
fn dynamic_instance_counts_audio_inputs_of_its_model() {
    let mut spec = TaskSpec::new();
    spec.add_track(track("t1"), MediaChannels::Stereo).unwrap();
    spec.add_dynamic_instance(dynamic("d1"), DynamicInstanceNode { model_id: insert_model(), parameters: IdMap::new() })
        .unwrap();
    spec.add_connection(
        conn("c1"),
        NodePadId::TrackOutput(track("t1")),
        NodePadId::DynamicInstanceInput(dynamic("d1")),
        ChannelMask::Stereo(0),
        ChannelMask::Stereo(0),
        bits(1.0),
        bits(0.0),
    )
    .unwrap();
    let mut with_midi = model(2, 2);
    with_midi.inputs.push(ModelInput::Midi);
    let mut models = IdMap::new();
    models.insert(insert_model(), with_midi);
    assert_eq!(spec.validate(&models), Ok(()));

    let mut mono_and_midi = model(1, 1);
    mono_and_midi.inputs.push(ModelInput::Sidechain);
    let mut models = IdMap::new();
    models.insert(insert_model(), mono_and_midi);
    assert_eq!(
        spec.validate(&models),
        Err(CloudError::ConnectionError {
            connection_id: conn("c1"),
            pad: NodePadId::DynamicInstanceInput(dynamic("d1")),
            error: Box::new(CloudError::ChannelMaskIncompatible { mask: ChannelMask::Stereo(0), channels: 1 }),
        })
    );
}

#[test]
fn deleting_track_removes_its_connection() {
    let mut spec = scenario_b_spec();
    assert_eq!(spec.delete_track(track("t1")), Ok(()));
    assert!(spec.connections.is_empty());
    assert!(!spec.tracks.contains_key(&track("t1")));
    assert!(spec.mixers.contains_key(&mixer("m1")));
    assert_eq!(
        spec.delete_connection(conn("c1")),
        Err(ModifyTaskError::ConnectionDoesNotExist { connection_id: conn("c1") })
    );
}

#[test]
fn setting_values_on_missing_fixed_instance_fails_unchanged() {
    let mut spec = scenario_b_spec();
    let mut values = IdMap::new();
    values.insert(ParameterId::new("gain".to_string()), vec![Some(ModelValue::Number(bits(3.0)))]);
    assert_eq!(
        spec.set_fixed_instance_parameter_values(fixed("nope"), values),
        Err(ModifyTaskError::FixedInstanceDoesNotExist { node_id: fixed("nope") })
    );
    assert_eq!(spec.tracks.len(), 1);
    assert_eq!(spec.mixers.len(), 1);
    assert_eq!(spec.fixed.len(), 0);
    assert_eq!(spec.dynamic.len(), 0);
    assert_eq!(spec.connections.len(), 1);
    assert_eq!(spec.connections.get(&conn("c1")).unwrap().volume, bits(1.0));
}

#[test]
fn adding_track_twice_is_rejected_without_change() {
    let mut spec = TaskSpec::new();
    assert_eq!(spec.add_track(track("t1"), MediaChannels::Stereo), Ok(()));
    assert_eq!(
        spec.add_track(track("t1"), MediaChannels::Mono),
        Err(ModifyTaskError::TrackExists { node_id: track("t1") })
    );
    assert_eq!(spec.tracks.len(), 1);
    assert_eq!(spec.tracks.get(&track("t1")).unwrap().channels, MediaChannels::Stereo);
    assert_eq!(
        spec.add_track(track("t1"), MediaChannels::Stereo),
        Err(ModifyTaskError::TrackExists { node_id: track("t1") })
    );
}

#[test]
fn other_adds_reject_taken_ids() {
    let mut spec = scenario_b_spec();
    assert_eq!(
        spec.add_mixer(mixer("m1"), MixerNode { input_channels: 1, output_channels: 1 }),
        Err(ModifyTaskError::MixerExists { node_id: mixer("m1") })
    );
    spec.add_fixed_instance(fixed("f1"), fixed_node()).unwrap();
    assert_eq!(
        spec.add_fixed_instance(fixed("f1"), fixed_node()),
        Err(ModifyTaskError::FixedInstanceExists { node_id: fixed("f1") })
    );
    let node = || DynamicInstanceNode { model_id: insert_model(), parameters: IdMap::new() };
    spec.add_dynamic_instance(dynamic("d1"), node()).unwrap();
    assert_eq!(
        spec.add_dynamic_instance(dynamic("d1"), node()),
        Err(ModifyTaskError::DynamicInstanceExists { node_id: dynamic("d1") })
    );
    assert_eq!(
        spec.add_connection(
            conn("c1"),
            NodePadId::MixerOutput(mixer("m1")),
            NodePadId::FixedInstanceInput(fixed("f1")),
            ChannelMask::Mono(0),
            ChannelMask::Mono(0),
            bits(1.0),
            bits(0.0),
        ),
        Err(ModifyTaskError::ConnectionExists { connection_id: conn("c1") })
    );
}

#[test]
fn deleting_mixer_sweeps_both_pads() {
    let mut spec = scenario_b_spec();
    spec.add_fixed_instance(fixed("f1"), fixed_node()).unwrap();
    spec.add_connection(
        conn("c2"),
        NodePadId::MixerOutput(mixer("m1")),
        NodePadId::FixedInstanceInput(fixed("f1")),
        ChannelMask::Mono(0),
        ChannelMask::Mono(0),
        bits(1.0),
        bits(0.0),
    )
    .unwrap();
    spec.add_connection(
        conn("c3"),
        NodePadId::FixedInstanceOutput(fixed("f1")),
        NodePadId::MixerInput(mixer("m2")),
        ChannelMask::Mono(0),
        ChannelMask::Mono(0),
        bits(1.0),
        bits(0.0),
    )
    .unwrap();
    assert_eq!(spec.delete_mixer(mixer("m1")), Ok(()));
    assert_eq!(spec.connections.len(), 1);
    assert!(spec.connections.contains_key(&conn("c3")));
    assert_eq!(
        spec.delete_mixer(mixer("m1")),
        Err(ModifyTaskError::MixerDoesNotExist { node_id: mixer("m1") })
    );
    assert_eq!(spec.delete_fixed_instance(fixed("f1")), Ok(()));
    assert!(spec.connections.is_empty());
    assert_eq!(
        spec.delete_fixed_instance(fixed("f1")),
        Err(ModifyTaskError::FixedInstanceDoesNotExist { node_id: fixed("f1") })
    );
}

#[test]
fn deleting_dynamic_instance_sweeps_its_connections() {
    let mut spec = scenario_b_spec();
    spec.add_dynamic_instance(dynamic("d1"), DynamicInstanceNode { model_id: insert_model(), parameters: IdMap::new() })
        .unwrap();
    spec.add_connection(
        conn("c2"),
        NodePadId::DynamicInstanceOutput(dynamic("d1")),
        NodePadId::MixerInput(mixer("m1")),
        ChannelMask::Mono(1),
        ChannelMask::Mono(1),
        bits(1.0),
        bits(0.0),
    )
    .unwrap();
    assert_eq!(spec.delete_dynamic_instance(dynamic("d1")), Ok(()));
    assert_eq!(spec.connections.len(), 1);
    assert!(spec.connections.contains_key(&conn("c1")));
    assert_eq!(
        spec.delete_dynamic_instance(dynamic("d1")),
        Err(ModifyTaskError::DynamicInstanceDoesNotExist { node_id: dynamic("d1") })
    );
    assert_eq!(
        spec.delete_track(track("t9")),
        Err(ModifyTaskError::TrackDoesNotExist { node_id: track("t9") })
    );
}

#[test]
fn connections_must_run_from_output_to_input() {
    let mut spec = TaskSpec::new();
    assert_eq!(
        spec.add_connection(
            conn("c1"),
            NodePadId::MixerInput(mixer("m1")),
            NodePadId::MixerInput(mixer("m2")),
            ChannelMask::Mono(0),
            ChannelMask::Mono(0),
            bits(1.0),
            bits(0.0),
        ),
        Err(ModifyTaskError::ConnectionMalformed {
            connection_id: conn("c1"),
            message: "mix:inp:m1 is not an output".to_string(),
        })
    );
    assert_eq!(
        spec.add_connection(
            conn("c1"),
            NodePadId::TrackOutput(track("t1")),
            NodePadId::FixedInstanceOutput(fixed("f1")),
            ChannelMask::Mono(0),
            ChannelMask::Mono(0),
            bits(1.0),
            bits(0.0),
        ),
        Err(ModifyTaskError::ConnectionMalformed {
            connection_id: conn("c1"),
            message: "fix:out:f1 is not an input".to_string(),
        })
    );
    assert!(spec.connections.is_empty());
}

#[test]
fn masks_must_fit_channel_count() {
    let m = MixerNode { input_channels: 2, output_channels: 3 };
    assert_eq!(m.validate_destination_channels(ChannelMask::Stereo(0)), Ok(()));
    assert_eq!(
        m.validate_destination_channels(ChannelMask::Stereo(1)),
        Err(CloudError::ChannelMaskIncompatible { mask: ChannelMask::Stereo(1), channels: 2 })
    );
    assert_eq!(m.validate_destination_channels(ChannelMask::Mono(1)), Ok(()));
    assert_eq!(
        m.validate_destination_channels(ChannelMask::Mono(2)),
        Err(CloudError::ChannelMaskIncompatible { mask: ChannelMask::Mono(2), channels: 2 })
    );
    assert_eq!(m.validate_source_channels(ChannelMask::Stereo(1)), Ok(()));
    assert_eq!(
        m.validate_source_channels(ChannelMask::Stereo(2)),
        Err(CloudError::ChannelMaskIncompatible { mask: ChannelMask::Stereo(2), channels: 3 })
    );
    let empty = MixerNode { input_channels: 0, output_channels: 0 };
    assert!(empty.validate_source_channels(ChannelMask::Mono(0)).is_err());
    assert!(!ChannelMask::Stereo(usize::MAX).is_subset_of(0..usize::MAX));
    assert!(ChannelMask::Stereo(usize::MAX - 2).is_subset_of(0..usize::MAX));
}

#[test]
fn track_media_can_be_added_updated_and_deleted() {
    let mut spec = TaskSpec::new();
    spec.add_track(track("t1"), MediaChannels::Stereo).unwrap();
    let m1 = TrackMediaId::new("a".to_string());
    assert_eq!(
        spec.add_track_media(track("t2"), m1.clone(), media("obj")),
        Err(ModifyTaskError::TrackDoesNotExist { node_id: track("t2") })
    );
    assert_eq!(spec.add_track_media(track("t1"), m1.clone(), media("obj")), Ok(()));
    assert_eq!(
        spec.add_track_media(track("t1"), m1.clone(), media("other")),
        Err(ModifyTaskError::MediaExists { node_id: track("t1"), media_id: m1.clone() })
    );
    let update = UpdateTaskTrackMedia {
        channels: Some(MediaChannels::Mono),
        media_segment: None,
        timeline_segment: Some(TimeSegment { start: bits(1.0), length: bits(2.0) }),
        object_id: None,
    };
    assert_eq!(spec.update_track_media(track("t1"), m1.clone(), update), Ok(()));
    let stored = spec.tracks.get(&track("t1")).unwrap().media.get(&m1).unwrap();
    assert_eq!(stored.channels, MediaChannels::Mono);
    assert_eq!(stored.media_segment, TimeSegment { start: bits(0.0), length: bits(10.0) });
    assert_eq!(stored.timeline_segment, TimeSegment { start: bits(1.0), length: bits(2.0) });
    assert_eq!(stored.object_id, MediaObjectId::new("obj".to_string()));
    let missing = TrackMediaId::new("b".to_string());
    let no_change = UpdateTaskTrackMedia { channels: None, media_segment: None, timeline_segment: None, object_id: None };
    assert_eq!(
        spec.update_track_media(track("t1"), missing.clone(), no_change),
        Err(ModifyTaskError::MediaDoesNotExist { node_id: track("t1"), media_id: missing.clone() })
    );
    assert_eq!(
        spec.delete_track_media(track("t1"), missing.clone()),
        Err(ModifyTaskError::MediaDoesNotExist { node_id: track("t1"), media_id: missing })
    );
    assert_eq!(spec.delete_track_media(track("t1"), m1.clone()), Ok(()));
    assert!(spec.tracks.get(&track("t1")).unwrap().media.is_empty());
    assert_eq!(spec.tracks.get(&track("t1")).unwrap().channels, MediaChannels::Stereo);
}

#[test]
fn connection_values_replace_only_given_fields() {
    let mut spec = scenario_b_spec();
    assert_eq!(
        spec.set_connection_parameter_values(conn("c1"), ConnectionValues { volume: Some(bits(0.5)), pan: None }),
        Ok(())
    );
    let c = spec.connections.get(&conn("c1")).unwrap();
    assert_eq!(c.volume, bits(0.5));
    assert_eq!(c.pan, bits(0.0));
    assert_eq!(c.from, NodePadId::TrackOutput(track("t1")));
    assert_eq!(
        spec.set_connection_parameter_values(conn("c9"), ConnectionValues { volume: None, pan: Some(bits(1.0)) }),
        Err(ModifyTaskError::ConnectionDoesNotExist { connection_id: conn("c9") })
    );
}

#[test]
fn instance_parameters_are_merged() {
    let mut spec = TaskSpec::new();
    let mut node = fixed_node();
    node.parameters.insert(ParameterId::new("gain".to_string()), vec![Some(ModelValue::Bool(false))]);
    node.parameters.insert(ParameterId::new("pan".to_string()), vec![Some(ModelValue::Bool(true))]);
    spec.add_fixed_instance(fixed("f1"), node).unwrap();
    let mut values = IdMap::new();
    values.insert(ParameterId::new("gain".to_string()), vec![None, Some(ModelValue::Number(bits(2.0)))]);
    values.insert(ParameterId::new("mode".to_string()), vec![Some(ModelValue::String("x".to_string()))]);
    assert_eq!(spec.set_fixed_instance_parameter_values(fixed("f1"), values), Ok(()));
    let params = &spec.fixed.get(&fixed("f1")).unwrap().parameters;
    assert_eq!(params.len(), 3);
    assert_eq!(
        params.get(&ParameterId::new("gain".to_string())).unwrap(),
        &vec![None, Some(ModelValue::Number(bits(2.0)))]
    );
    assert_eq!(params.get(&ParameterId::new("pan".to_string())).unwrap(), &vec![Some(ModelValue::Bool(true))]);
    assert_eq!(
        params.get(&ParameterId::new("mode".to_string())).unwrap(),
        &vec![Some(ModelValue::String("x".to_string()))]
    );

    spec.add_dynamic_instance(dynamic("d1"), DynamicInstanceNode { model_id: insert_model(), parameters: IdMap::new() })
        .unwrap();
    let mut values = IdMap::new();
    values.insert(ParameterId::new("gain".to_string()), vec![Some(ModelValue::Bool(true))]);
    assert_eq!(spec.set_dynamic_instance_parameter_values(dynamic("d1"), values), Ok(()));
    assert_eq!(spec.dynamic.get(&dynamic("d1")).unwrap().parameters.len(), 1);
    assert_eq!(
        spec.set_dynamic_instance_parameter_values(dynamic("d2"), IdMap::new()),
        Err(ModifyTaskError::DynamicInstanceDoesNotExist { node_id: dynamic("d2") })
    );
}

#[test]
fn modify_dispatches_operations() {
    let mut spec = TaskSpec::new();
    let ops = vec![
        ModifyTaskSpec::AddTrack { track_id: track("t1"), channels: MediaChannels::Stereo },
        ModifyTaskSpec::AddMixer { mixer_id: mixer("m1"), spec: MixerNode { input_channels: 2, output_channels: 2 } },
        ModifyTaskSpec::AddConnection {
            connection_id: conn("c1"),
            from: NodePadId::TrackOutput(track("t1")),
            to: NodePadId::MixerInput(mixer("m1")),
            from_channels: ChannelMask::Stereo(0),
            to_channels: ChannelMask::Stereo(0),
            volume: bits(1.0),
            pan: bits(0.0),
        },
    ];
    for op in ops {
        assert_eq!(spec.modify(op), Ok(()));
    }
    assert_eq!(spec.validate(&IdMap::new()), Ok(()));
    assert_eq!(spec.modify(ModifyTaskSpec::DeleteTrack { track_id: track("t1") }), Ok(()));
    assert!(spec.connections.is_empty());
    assert_eq!(
        spec.modify(ModifyTaskSpec::DeleteConnection { connection_id: conn("c1") }),
        Err(ModifyTaskError::ConnectionDoesNotExist { connection_id: conn("c1") })
    );
    assert_eq!(
        spec.modify(ModifyTaskSpec::SetFixedInstanceParameterValues { fixed_id: fixed("f1"), values: IdMap::new() }),
        Err(ModifyTaskError::FixedInstanceDoesNotExist { node_id: fixed("f1") })
    );
}

#[test]
fn operation_kinds_are_stable_names() {
    assert_eq!(ModifyTaskSpec::AddTrack { track_id: track("t"), channels: MediaChannels::Mono }.get_kind(), "add_track");
    assert_eq!(ModifyTaskSpec::DeleteMixer { mixer_id: mixer("m") }.get_kind(), "delete_mixer");
    assert_eq!(
        ModifyTaskSpec::SetConnectionParameterValues {
            connection_id: conn("c"),
            values: ConnectionValues { volume: None, pan: None }
        }
        .get_kind(),
        "set_input_values"
    );
    assert_eq!(
        ModifyTaskSpec::AddConnection {
            connection_id: conn("c"),
            from: NodePadId::TrackOutput(track("t")),
            to: NodePadId::MixerInput(mixer("m")),
            from_channels: ChannelMask::Mono(0),
            to_channels: ChannelMask::Mono(0),
            volume: bits(1.0),
            pan: bits(0.0),
        }
        .get_kind(),
        "add_mixer_input"
    );
    assert_eq!(ModifyTaskSpec::DeleteConnection { connection_id: conn("c") }.get_kind(), "delete_connection");
}

#[test]
fn fixed_instance_lookup_by_unit() {
    let mut spec = TaskSpec::new();
    spec.add_fixed_instance(fixed("f1"), fixed_node()).unwrap();
    let unit = FixedInstanceId::new("audio_cloud".to_string(), "insert".to_string(), "1".to_string());
    assert_eq!(spec.fixed_instance_to_fixed_id(&unit), Some(&fixed("f1")));
    let other = FixedInstanceId::new("audio_cloud".to_string(), "insert".to_string(), "2".to_string());
    assert_eq!(spec.fixed_instance_to_fixed_id(&other), None);
    assert_eq!(unit.model_id(), insert_model());
}

fn key(k: &str) -> audiocloud_api::SecureKey {
    audiocloud_api::SecureKey::new(k.to_string())
}

fn perms(structure: bool) -> audiocloud_api::TaskPermissions {
    audiocloud_api::TaskPermissions { structure, media: true, parameters: false, transport: true, audio: false }
}

fn created_task() -> audiocloud_api::Task {
    let spec = scenario_b_spec();
    let mut security = IdMap::new();
    security.insert(key("owner"), audiocloud_api::TaskPermissions::full());
    security.insert(key("guest"), perms(false));
    let create = CreateTask {
        domain: DomainId::new("studio".to_string()),
        time: TimeRange { from: 1_000, to: 61_000 },
        tracks: spec.tracks,
        mixers: spec.mixers,
        dynamic: spec.dynamic,
        fixed: spec.fixed,
        connections: spec.connections,
        security,
        dry_run: false,
    };
    Task::from(create)
}

#[test]
fn task_from_create_request() {
    let task = created_task();
    assert_eq!(task.version, 0);
    assert_eq!(task.domain_id, audiocloud_api::DomainId::new("studio".to_string()));
    assert_eq!(task.time, audiocloud_api::TimeRange { from: 1_000, to: 61_000 });
    assert_eq!(task.spec.connections.len(), 1);
    assert_eq!(task.security.len(), 2);
    assert_eq!(task.spec.validate(&IdMap::new()), Ok(()));
}

#[test]
fn task_changes_apply_in_turn() {
    let mut task = created_task();
    assert_eq!(
        task.apply_change(ModifyTask::Spec { spec: ModifyTaskSpec::DeleteTrack { track_id: track("t1") } }),
        Ok(())
    );
    assert!(task.spec.connections.is_empty());
    assert_eq!(
        task.apply_change(ModifyTask::Spec { spec: ModifyTaskSpec::DeleteTrack { track_id: track("t1") } }),
        Err(ModifyTaskError::TrackDoesNotExist { node_id: track("t1") })
    );
    assert_eq!(task.apply_change(ModifyTask::SetSecurity { key: key("guest"), security: perms(true) }), Ok(()));
    assert_eq!(task.security.get(&key("guest")), Some(&perms(true)));
    assert_eq!(task.apply_change(ModifyTask::RevokeSecurity { key: key("owner") }), Ok(()));
    assert_eq!(task.apply_change(ModifyTask::RevokeSecurity { key: key("nobody") }), Ok(()));
    assert_eq!(task.security.len(), 1);
}

#[test]
fn security_diff_between_tasks() {
    let before = created_task();
    let mut after = created_task();
    after.set_security(key("guest"), perms(true)).unwrap();
    after.set_security(key("new"), perms(false)).unwrap();
    after.revoke_security(key("owner")).unwrap();

    let changes = hashmap_changes(&before.security, &after.security);
    assert_eq!(changes.added.len(), 1);
    assert_eq!(changes.added.get(&key("new")), Some(&perms(false)));
    assert_eq!(changes.changed.len(), 1);
    assert_eq!(changes.changed.get(&key("guest")), Some(&perms(true)));
    assert_eq!(changes.removed.len(), 1);
    assert!(changes.removed.contains_key(&key("owner")));

    let diff = before.generate_changes(&after);
    assert_eq!(diff.len(), 3);
    let mut replay = created_task();
    for change in diff {
        assert!(!matches!(change, ModifyTask::Spec { .. }));
        replay.apply_change(change).unwrap();
    }
    assert_eq!(replay.security.len(), 2);
    assert_eq!(replay.security.get(&key("guest")), Some(&perms(true)));
    assert_eq!(replay.security.get(&key("new")), Some(&perms(false)));
    assert!(!replay.security.contains_key(&key("owner")));
    assert!(before.generate_changes(&created_task()).is_empty());
}

#[test]
fn media_objects_of_all_tracks() {
    let mut spec = scenario_b_spec();
    spec.add_track(track("t2"), MediaChannels::Mono).unwrap();
    spec.add_track_media(track("t1"), TrackMediaId::new("a".to_string()), media("obj1")).unwrap();
    spec.add_track_media(track("t1"), TrackMediaId::new("b".to_string()), media("obj2")).unwrap();
    spec.add_track_media(track("t2"), TrackMediaId::new("a".to_string()), media("obj1")).unwrap();
    let mut ids = spec.get_media_object_ids();
    ids.sort_by(|a, b| a.0.cmp(&b.0));
    assert_eq!(
        ids,
        vec![
            MediaObjectId::new("obj1".to_string()),
            MediaObjectId::new("obj1".to_string()),
            MediaObjectId::new("obj2".to_string()),
        ]
    );
    assert!(TaskSpec::new().get_media_object_ids().is_empty());
}
