use audiocloud_api::model::{join, single};
use audiocloud_api::{
    FixedInstanceId, IdTextError, ModelId, PlayBitDepth, SampleRate, TrackMediaFormat,
    left_and_right_inputs, mono_output, repeat_channels, standard_inputs, standard_outputs, ChannelMask,
    ControlChannels, DesiredInstancePlayState, DesiredInstancePowerState, DestinationPadId,
    DynamicInstanceNodeId, FixedInstanceNodeId, FloatBits, InstancePlayState, InstancePowerState,
    Manufacturers, MediaChannels, MixerChannels, MixerNodeId, Model, ModelElementScope, ModelInput,
    ModelOutput, ModelValue, ModelValueError, NodePadId, PadIdError, PadKind, PlayId, RenderId,
    SimpleModelValueType, SourcePadId, TaskNodeId, TaskPermissions, TrackNodeId,
};

fn all_pads() -> Vec<NodePadId> {
    vec![
        NodePadId::MixerInput(MixerNodeId::new("m1".to_string())),
        NodePadId::MixerOutput(MixerNodeId::new("m:2".to_string())),
        NodePadId::FixedInstanceInput(FixedInstanceNodeId::new("f1".to_string())),
        NodePadId::FixedInstanceOutput(FixedInstanceNodeId::new("".to_string())),
        NodePadId::DynamicInstanceInput(DynamicInstanceNodeId::new("d1".to_string())),
        NodePadId::DynamicInstanceOutput(DynamicInstanceNodeId::new("d/1".to_string())),
        NodePadId::TrackOutput(TrackNodeId::new("t1".to_string())),
    ]
}

#[test]
fn pad_text_round_trips() {
    for pad in all_pads() {
        let text = pad.serialize();
        assert_eq!(NodePadId::deserialize(&text), Ok(pad));
    }
}

#[test]
fn pad_text_form() {
    let texts: Vec<String> = all_pads().iter().map(|p| p.serialize()).collect();
    assert_eq!(
        texts,
        vec!["mix:inp:m1", "mix:out:m:2", "fix:inp:f1", "fix:out:", "dyn:inp:d1", "dyn:out:d/1", "trk:out:t1"]
    );
}

#[test]
fn malformed_pad_text_is_rejected() {
    for text in ["", "mix:inp", "mixinp:a", "mix:inpxa", "trk:inp:t1", "abc:out:x", "mixx:inp:a"] {
        assert_eq!(NodePadId::deserialize(text), Err(PadIdError::Malformed), "{}", text);
    }
    assert_eq!(
        NodePadId::deserialize("dyn:out:a:b"),
        Ok(NodePadId::DynamicInstanceOutput(DynamicInstanceNodeId::new("a:b".to_string())))
    );
}

#[test]
fn pad_direction_and_kind() {
    let outputs: Vec<bool> = all_pads().iter().map(|p| p.is_output()).collect();
    assert_eq!(outputs, vec![false, true, false, true, false, true, true]);
    for pad in all_pads() {
        assert_ne!(pad.is_input(), pad.is_output());
        assert_eq!(pad.to_source_pad().is_some(), pad.is_output());
        assert_eq!(pad.to_destination_pad().is_some(), pad.is_input());
    }
    assert_eq!(NodePadId::TrackOutput(TrackNodeId::new("t".to_string())).kind(), PadKind::TrackOutput);
    assert_eq!(
        NodePadId::MixerOutput(MixerNodeId::new("m".to_string())).to_source_pad(),
        Some(SourcePadId::MixerOutput(MixerNodeId::new("m".to_string())))
    );
}

#[test]
fn pads_reference_their_node() {
    let m = MixerNodeId::new("m1".to_string());
    let src = SourcePadId::MixerOutput(m.clone());
    let dst = DestinationPadId::MixerInput(m.clone());
    assert!(src.references(&TaskNodeId::Mixer(m.clone())));
    assert!(dst.references(&TaskNodeId::Mixer(m.clone())));
    assert!(!src.references(&TaskNodeId::Mixer(MixerNodeId::new("m2".to_string()))));
    assert!(!src.references(&TaskNodeId::Track(TrackNodeId::new("m1".to_string()))));
    assert!(!dst.references(&TaskNodeId::FixedInstance(FixedInstanceNodeId::new("m1".to_string()))));
    let t = TrackNodeId::new("t".to_string());
    assert!(SourcePadId::TrackOutput(t.clone()).references(&TaskNodeId::Track(t)));
}

#[test]
fn masks_count_and_index() {
    assert_eq!(ChannelMask::Mono(3).to_count_and_index(), (1, 3));
    assert_eq!(ChannelMask::Stereo(4).to_count_and_index(), (2, 4));
    assert_eq!(MixerChannels::Stereo(0).to_count_and_index(), (2, 0));
    assert!(ChannelMask::Stereo(2).is_subset_of(2..4));
    assert!(!ChannelMask::Stereo(1).is_subset_of(2..4));
    assert!(!ChannelMask::Stereo(3).is_subset_of(2..4));
    assert!(ChannelMask::Mono(3).is_subset_of(2..4));
    assert!(!ChannelMask::Mono(4).is_subset_of(2..4));
    assert!(MixerChannels::Mono(0).is_subset_of(0..1));
    assert!(!MixerChannels::Stereo(0).is_subset_of(0..1));
    assert_eq!(MediaChannels::Mono.num_channels(), 1);
    assert_eq!(MediaChannels::Stereo.num_channels(), 2);
}

#[test]
fn audio_channel_counts_of_models() {
    let mut m = Model::default();
    m.inputs = left_and_right_inputs();
    m.inputs.push(ModelInput::Sidechain);
    m.inputs.push(ModelInput::Midi);
    m.outputs = mono_output();
    m.outputs.push(ModelOutput::Midi);
    assert_eq!(m.get_audio_input_channel_count(), 2);
    assert_eq!(m.get_audio_output_channel_count(), 1);
    assert_eq!(ModelElementScope::AllInputs.len(&m), 4);
    assert_eq!(ModelElementScope::AllOutputs.len(&m), 2);
    assert_eq!(ModelElementScope::Global.len(&m), 1);
    assert_eq!(ModelElementScope::Count(7).len(&m), 7);
}

#[test]
fn standard_layouts() {
    assert_eq!(standard_inputs(1), vec![ModelInput::Audio(ControlChannels::Global)]);
    assert_eq!(
        standard_outputs(2),
        vec![ModelOutput::Audio(ControlChannels::Left), ModelOutput::Audio(ControlChannels::Right)]
    );
    assert_eq!(standard_inputs(3), vec![ModelInput::Audio(ControlChannels::Generic); 3]);
    assert!(standard_outputs(0).is_empty());
    assert_eq!(repeat_channels(2, 7u8), vec![7u8, 7u8]);
}

#[test]
fn widening_numeric_types() {
    let int_unsigned = SimpleModelValueType::Number { integer: true, signed: false };
    let float_signed = SimpleModelValueType::Number { integer: false, signed: true };
    assert_eq!(
        int_unsigned.try_widen(float_signed),
        Ok(SimpleModelValueType::Number { integer: false, signed: true })
    );
    assert_eq!(int_unsigned.try_widen(int_unsigned), Ok(int_unsigned));
    assert_eq!(int_unsigned.try_widen(SimpleModelValueType::Bool), Err(ModelValueError::NotNumeric));
    assert_eq!(SimpleModelValueType::String.try_widen(int_unsigned), Err(ModelValueError::NotNumeric));
}

#[test]
fn multi_channel_values_join() {
    let one = ModelValue::Number(FloatBits(1.0f64.to_bits()));
    let two = ModelValue::Bool(true);
    assert_eq!(single(3, one.clone()), vec![None, None, Some(one.clone())]);
    assert_eq!(single(1, two.clone()), vec![Some(two.clone())]);
    let joined = join(vec![Some(one.clone()), Some(one.clone())], vec![None, Some(two.clone()), Some(two.clone())]);
    assert_eq!(joined, vec![Some(one.clone()), Some(two.clone()), Some(two.clone())]);
    let joined = join(vec![Some(one.clone()), None, Some(one.clone())], vec![Some(two.clone())]);
    assert_eq!(joined, vec![Some(two), None, Some(one)]);
}

#[test]
fn power_and_play_states() {
    assert_eq!(InstancePowerState::from_bool(true), InstancePowerState::PoweredUp);
    assert_eq!(InstancePowerState::from_bool(false), InstancePowerState::ShutDown);
    assert!(InstancePowerState::PoweredUp.satisfies(DesiredInstancePowerState::PoweredUp));
    assert!(!InstancePowerState::PoweringUp.satisfies(DesiredInstancePowerState::PoweredUp));
    assert!(!InstancePowerState::ShutDown.satisfies(DesiredInstancePowerState::PoweredUp));
    assert!(InstancePowerState::ShutDown.satisfies(DesiredInstancePowerState::ShutDown));
    assert!(DesiredInstancePowerState::PoweredUp.to_bool());
    assert!(!DesiredInstancePowerState::ShutDown.to_bool());
    let playing = InstancePlayState::Playing { play_id: PlayId(4) };
    assert!(playing.satisfies(&DesiredInstancePlayState::Playing { play_id: PlayId(4) }));
    assert!(!playing.satisfies(&DesiredInstancePlayState::Playing { play_id: PlayId(5) }));
    assert!(!playing.satisfies(&DesiredInstancePlayState::Stopped));
    let rendering = InstancePlayState::Rendering { length: FloatBits(2.0f64.to_bits()), render_id: RenderId(1) };
    assert!(rendering.satisfies(&DesiredInstancePlayState::Rendering {
        length: FloatBits(3.0f64.to_bits()),
        render_id: RenderId(1)
    }));
    assert!(InstancePlayState::Stopped.satisfies(&DesiredInstancePlayState::Stopped));
    assert!(!InstancePlayState::Stopping.satisfies(&DesiredInstancePlayState::Stopped));
}

#[test]
fn permissions_and_manufacturers() {
    let full = TaskPermissions::full();
    assert!(full.structure && full.media && full.parameters && full.transport && full.audio);
    assert_eq!(Manufacturers::AudioCloud.to_string(), "audio_cloud");
    assert_eq!(Manufacturers::Distopik.to_string(), "distopik");
    assert_eq!(Manufacturers::Netio.to_string(), "netio");
}

#[test]
fn model_and_unit_id_text() {
    let model = ModelId::new("distopik".to_string(), "dual1084".to_string());
    assert_eq!(model.to_text(), "distopik/dual1084");
    assert_eq!(ModelId::from_text("distopik/dual1084"), Ok(model.clone()));
    assert_eq!(
        ModelId::from_text("a/b/c"),
        Ok(ModelId::new("a".to_string(), "b".to_string()))
    );
    assert_eq!(ModelId::from_text("distopik"), Err(IdTextError::MissingPart));
    assert_eq!(ModelId::from_text("a/"), Ok(ModelId::new("a".to_string(), "".to_string())));

    let unit = FixedInstanceId::new("distopik".to_string(), "dual1084".to_string(), "2".to_string());
    assert_eq!(unit.to_text(), "distopik/dual1084/2");
    assert_eq!(FixedInstanceId::from_text("distopik/dual1084/2"), Ok(unit.clone()));
    assert_eq!(FixedInstanceId::from_text("distopik/dual1084"), Err(IdTextError::MissingPart));
    assert_eq!(
        FixedInstanceId::from_text("a/b/c/d"),
        Ok(FixedInstanceId::new("a".to_string(), "b".to_string(), "c".to_string()))
    );
    assert_eq!(unit.model_id(), model);
    assert_eq!(FixedInstanceId::from_model_id(model.clone(), "2".to_string()), unit);
}

#[test]
fn display_forms() {
    assert_eq!(SourcePadId::TrackOutput(TrackNodeId::new("t1".to_string())).to_string(), "track:t1");
    assert_eq!(SourcePadId::MixerOutput(MixerNodeId::new("m".to_string())).to_string(), "mixer:m");
    assert_eq!(
        DestinationPadId::DynamicInstanceInput(DynamicInstanceNodeId::new("d".to_string())).to_string(),
        "dynamic:d"
    );
    assert_eq!(
        DestinationPadId::FixedInstanceInput(FixedInstanceNodeId::new("f".to_string())).to_string(),
        "fixed:f"
    );
    assert_eq!(TrackMediaFormat::Wave.to_string(), "wave");
    assert_eq!(TrackMediaFormat::WavPack.to_string(), "wavpack");
}

#[test]
fn sample_rates_and_bit_depths() {
    assert_eq!(usize::from(SampleRate::SR88_2), 88_200);
    assert_eq!(usize::from(SampleRate::SR44_1), 44_100);
    let hz: usize = SampleRate::SR192.into();
    assert_eq!(hz, 192_000);
    assert_eq!(usize::from(PlayBitDepth::PD24), 24);
    assert_eq!(usize::from(PlayBitDepth::PD16), 16);
}
