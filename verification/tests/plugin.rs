use clap_wrapper::buffer::ChannelSlice;
use clap_wrapper::hash::{bypass_param_hash, hash_param_id};
use clap_wrapper::params::{ParamDecl, RegistryError};
use clap_wrapper::plugin::{
    claims_extension, continuation_code, decode_event, BlockLayout, BlockPlan, BufferConfig,
    BusConfig, Call, ClapParamUpdate, HostEvent, ParamEffect, ParamWrite, ProcessStatus, Stage,
    TextAnswer, ValueAnswer, Wrapper,
};
use clap_wrapper::tasks::{Submission, Task};

fn decl(id: &str, step_count: Option<u32>, normalized: f32) -> ParamDecl {
    ParamDecl { id: String::from(id), name: id.to_uppercase(), step_count, normalized: normalized.to_bits() }
}

fn stereo() -> BusConfig {
    BusConfig { num_input_channels: 2, num_output_channels: 2 }
}

fn ids(names: &[&str]) -> Vec<String> {
    names.iter().map(|name| String::from(*name)).collect()
}

fn instance() -> Wrapper {
    // The plugin's map is in no particular order; the identifiers give the order.
    let declared = vec![decl("mode", Some(4), 0.75), decl("gain", None, 0.5), decl("cutoff", None, 0.25)];
    Wrapper::new(&declared, &ids(&["gain", "cutoff", "mode"]), stereo()).unwrap()
}

fn active() -> Wrapper {
    let mut wrapper = instance();
    assert!(wrapper.lifecycle(Call::Init));
    assert!(wrapper.activate(48000.0f32.to_bits(), 512, true));
    wrapper
}

fn set(plain: f64) -> ClapParamUpdate {
    ClapParamUpdate::PlainValueSet(plain.to_bits())
}

fn modulate(delta: f64) -> ClapParamUpdate {
    ClapParamUpdate::PlainValueMod(delta.to_bits())
}

#[test]
fn new_instance_is_created_inactive_and_not_bypassed() {
    let wrapper = instance();
    assert_eq!(wrapper.stage, Stage::Created);
    assert_eq!(wrapper.current_bus_config, stereo());
    assert_eq!(wrapper.current_buffer_config, None);
    assert!(!wrapper.bypass_state);
    assert_eq!(wrapper.current_latency, 0);
    assert_eq!(wrapper.output_buffer.channels(), 0);
    assert_eq!(wrapper.bypass_param_hash, bypass_param_hash());
    assert_eq!(wrapper.registry.len(), 3);
}

#[test]
fn new_instance_refuses_a_declared_bypass() {
    let declared = vec![decl("gain", None, 0.5), decl("bypass", None, 0.0)];
    assert_eq!(
        Wrapper::new(&declared, &ids(&["gain", "bypass"]), stereo()).unwrap_err(),
        RegistryError::ReservedId { index: 1 }
    );
    // The declaration is refused even where the order does not name it.
    assert_eq!(
        Wrapper::new(&declared, &ids(&["gain"]), stereo()).unwrap_err(),
        RegistryError::ReservedId { index: 1 }
    );
}

#[test]
fn set_on_a_continuous_parameter_divides_by_one() {
    let mut wrapper = instance();
    let effect = wrapper.update_plain_value_by_hash(hash_param_id("gain"), set(0.3), None);
    assert_eq!(
        effect,
        ParamEffect::Write(ParamWrite { index: 0, update: set(0.3), steps: 1, smoothing: None })
    );
    assert!(effect.recognized());
}

#[test]
fn set_on_a_stepped_parameter_divides_by_the_step_count() {
    let mut wrapper = active();
    let rate = Some(48000.0f32.to_bits());
    let effect = wrapper.update_plain_value_by_hash(hash_param_id("mode"), set(3.0), rate);
    assert_eq!(
        effect,
        ParamEffect::Write(ParamWrite { index: 2, update: set(3.0), steps: 4, smoothing: rate })
    );
    if let ParamEffect::Write(write) = effect {
        if let ClapParamUpdate::PlainValueSet(bits) = write.update {
            assert_eq!(f64::from_bits(bits) as f32 / write.steps as f32, 0.75);
        }
    }
}

#[test]
fn modulation_of_a_parameter_is_passed_on() {
    let mut wrapper = instance();
    let effect = wrapper.update_plain_value_by_hash(hash_param_id("cutoff"), modulate(-0.1), None);
    assert_eq!(
        effect,
        ParamEffect::Write(ParamWrite { index: 1, update: modulate(-0.1), steps: 1, smoothing: None })
    );
    assert!(!wrapper.bypass_state);
}

#[test]
fn unknown_hash_is_not_recognized_and_changes_nothing() {
    let mut wrapper = instance();
    let effect = wrapper.update_plain_value_by_hash(42, set(1.0), None);
    assert_eq!(effect, ParamEffect::Unrecognized);
    assert!(!effect.recognized());
    assert!(!wrapper.bypass_state);
}

#[test]
fn set_on_bypass_switches_at_one_half() {
    let mut wrapper = instance();
    let bypass = bypass_param_hash();
    assert_eq!(wrapper.update_plain_value_by_hash(bypass, set(0.5), None), ParamEffect::Bypass(true));
    assert!(wrapper.bypass_state);
    assert_eq!(wrapper.update_plain_value_by_hash(bypass, set(0.49), None), ParamEffect::Bypass(false));
    assert!(!wrapper.bypass_state);
    assert_eq!(wrapper.update_plain_value_by_hash(bypass, set(1.0), None), ParamEffect::Bypass(true));
    assert_eq!(wrapper.update_plain_value_by_hash(bypass, set(f64::NAN), None), ParamEffect::Bypass(false));
    assert_eq!(wrapper.update_plain_value_by_hash(bypass, set(-1.0), None), ParamEffect::Bypass(false));
}

#[test]
fn modulate_on_bypass_follows_the_sign() {
    let bypass = bypass_param_hash();
    for before in [false, true] {
        let mut wrapper = instance();
        wrapper.bypass_state = before;
        assert_eq!(wrapper.update_plain_value_by_hash(bypass, modulate(0.001), None), ParamEffect::Bypass(true));
        assert!(wrapper.bypass_state);

        wrapper.bypass_state = before;
        assert_eq!(wrapper.update_plain_value_by_hash(bypass, modulate(-0.001), None), ParamEffect::Bypass(false));
        assert!(!wrapper.bypass_state);

        for nothing in [0.0, -0.0, f64::NAN] {
            wrapper.bypass_state = before;
            assert_eq!(
                wrapper.update_plain_value_by_hash(bypass, modulate(nothing), None),
                ParamEffect::Bypass(before)
            );
            assert_eq!(wrapper.bypass_state, before);
        }
    }
}

#[test]
fn events_decode_by_namespace_and_type() {
    let value = HostEvent { space_id: 0, event_type: 5, param_id: 1, value: 7 };
    let modulation = HostEvent { space_id: 0, event_type: 6, param_id: 1, value: 7 };
    let note = HostEvent { space_id: 0, event_type: 0, param_id: 1, value: 7 };
    let foreign = HostEvent { space_id: 9, event_type: 5, param_id: 1, value: 7 };
    assert_eq!(decode_event(&value), Some(ClapParamUpdate::PlainValueSet(7)));
    assert_eq!(decode_event(&modulation), Some(ClapParamUpdate::PlainValueMod(7)));
    assert_eq!(decode_event(&note), None);
    assert_eq!(decode_event(&foreign), None);
}

#[test]
fn handle_event_uses_the_current_sample_rate() {
    let event = HostEvent { space_id: 0, event_type: 5, param_id: hash_param_id("gain"), value: 0.25f64.to_bits() };
    let mut inactive = instance();
    assert_eq!(
        inactive.handle_event(&event),
        Some(ParamEffect::Write(ParamWrite { index: 0, update: set(0.25), steps: 1, smoothing: None }))
    );
    let mut wrapper = active();
    assert_eq!(
        wrapper.handle_event(&event),
        Some(ParamEffect::Write(ParamWrite {
            index: 0,
            update: set(0.25),
            steps: 1,
            smoothing: Some(48000.0f32.to_bits()),
        }))
    );
}

#[test]
fn handle_event_ignores_other_events_and_unknown_parameters() {
    let mut wrapper = instance();
    let note = HostEvent { space_id: 0, event_type: 1, param_id: bypass_param_hash(), value: 1.0f64.to_bits() };
    assert_eq!(wrapper.handle_event(&note), None);
    assert!(!wrapper.bypass_state);
    let unknown = HostEvent { space_id: 0, event_type: 6, param_id: 99, value: 1.0f64.to_bits() };
    assert_eq!(wrapper.handle_event(&unknown), Some(ParamEffect::Unrecognized));
}

#[test]
fn flush_handles_events_in_order() {
    let mut wrapper = instance();
    let bypass = bypass_param_hash();
    let events = vec![
        HostEvent { space_id: 0, event_type: 5, param_id: bypass, value: 1.0f64.to_bits() },
        HostEvent { space_id: 0, event_type: 6, param_id: bypass, value: 0.0f64.to_bits() },
        HostEvent { space_id: 3, event_type: 5, param_id: bypass, value: 0.0f64.to_bits() },
        HostEvent { space_id: 0, event_type: 6, param_id: bypass, value: (-1.0f64).to_bits() },
        HostEvent { space_id: 0, event_type: 5, param_id: hash_param_id("mode"), value: 2.0f64.to_bits() },
    ];
    let effects = wrapper.ext_params_flush(&events);
    assert_eq!(
        effects,
        vec![
            Some(ParamEffect::Bypass(true)),
            Some(ParamEffect::Bypass(true)),
            None,
            Some(ParamEffect::Bypass(false)),
            Some(ParamEffect::Write(ParamWrite { index: 2, update: set(2.0), steps: 4, smoothing: None })),
        ]
    );
    assert!(!wrapper.bypass_state);
    assert_eq!(wrapper.ext_params_flush(&Vec::new()), Vec::new());
}

#[test]
fn lifecycle_follows_the_order_of_the_calls() {
    let mut wrapper = instance();
    assert!(!wrapper.lifecycle(Call::StartProcessing));
    assert!(!wrapper.lifecycle(Call::Deactivate));
    assert!(!wrapper.lifecycle(Call::Activate));
    assert_eq!(wrapper.stage, Stage::Created);
    assert!(wrapper.lifecycle(Call::Init));
    assert!(!wrapper.lifecycle(Call::Init));
    assert_eq!(wrapper.stage, Stage::Initialized);
    assert!(wrapper.activate(44100.0f32.to_bits(), 64, true));
    assert!(wrapper.lifecycle(Call::StartProcessing));
    assert_eq!(wrapper.stage, Stage::Processing);
    assert!(!wrapper.lifecycle(Call::Deactivate));
    assert!(wrapper.lifecycle(Call::StopProcessing));
    assert_eq!(wrapper.stage, Stage::Activated);
    assert!(wrapper.lifecycle(Call::Deactivate));
    assert_eq!(wrapper.stage, Stage::Initialized);
    assert_eq!(wrapper.current_buffer_config, None);
    assert!(wrapper.lifecycle(Call::Destroy));
    assert_eq!(wrapper.stage, Stage::Destroyed);
    assert!(!wrapper.lifecycle(Call::Destroy));
    assert!(!wrapper.lifecycle(Call::Init));
}

#[test]
fn activate_sizes_the_output_view_and_keeps_the_configuration() {
    let wrapper = active();
    assert_eq!(wrapper.stage, Stage::Activated);
    assert_eq!(
        wrapper.current_buffer_config,
        Some(BufferConfig { sample_rate: 48000.0f32.to_bits(), max_buffer_size: 512 })
    );
    assert_eq!(wrapper.output_buffer.channels(), 2);
    assert_eq!(wrapper.output_buffer.slice(0), ChannelSlice::empty());
    assert_eq!(wrapper.output_buffer.slice(1), ChannelSlice::empty());
}

#[test]
fn activate_fails_without_change_where_the_plugin_rejects() {
    let mut wrapper = instance();
    wrapper.lifecycle(Call::Init);
    assert!(!wrapper.activate(48000.0f32.to_bits(), 512, false));
    assert_eq!(wrapper.stage, Stage::Initialized);
    assert_eq!(wrapper.current_buffer_config, None);
    assert_eq!(wrapper.output_buffer.channels(), 0);
}

#[test]
fn activate_is_refused_out_of_order() {
    let mut wrapper = instance();
    assert!(!wrapper.activate(48000.0f32.to_bits(), 512, true));
    assert_eq!(wrapper.stage, Stage::Created);
    let mut wrapper = active();
    assert!(!wrapper.activate(96000.0f32.to_bits(), 32, true));
    assert_eq!(
        wrapper.current_buffer_config,
        Some(BufferConfig { sample_rate: 48000.0f32.to_bits(), max_buffer_size: 512 })
    );
}

fn block(frames: u32, inputs: Option<Vec<usize>>, outputs: Vec<usize>) -> BlockLayout {
    BlockLayout {
        frames_count: frames,
        audio_inputs_count: if inputs.is_some() { 1 } else { 0 },
        audio_outputs_count: 1,
        input_channels: inputs,
        output_channels: outputs,
    }
}

#[test]
fn block_of_128_frames_points_two_outputs_at_the_host_memory() {
    let mut wrapper = active();
    let (effects, plan) = wrapper.process(&Vec::new(), &block(128, Some(vec![0x1000, 0x2000]), vec![0x1000, 0x2000]));
    assert!(effects.is_empty());
    assert_eq!(wrapper.output_buffer.channels(), 2);
    assert_eq!(wrapper.output_buffer.slice(0), ChannelSlice { address: 0x1000, frames: 128 });
    assert_eq!(wrapper.output_buffer.slice(1), ChannelSlice { address: 0x2000, frames: 128 });
    match plan {
        BlockPlan::Run { copies, supported } => {
            assert!(copies.is_empty());
            assert!(supported);
        }
        BlockPlan::Report(code) => panic!("unexpected report {code}"),
    }
}

#[test]
fn block_with_one_separate_input_copies_channel_zero_only() {
    let mut wrapper = active();
    let (_, plan) = wrapper.process(&Vec::new(), &block(128, Some(vec![0x9000]), vec![0x1000, 0x2000]));
    match plan {
        BlockPlan::Run { copies, supported } => {
            assert_eq!(copies, vec![0]);
            assert!(supported);
        }
        BlockPlan::Report(code) => panic!("unexpected report {code}"),
    }
}

#[test]
fn block_with_more_inputs_than_outputs_is_flagged() {
    let mut wrapper = active();
    let (_, plan) = wrapper.process(&Vec::new(), &block(16, Some(vec![1, 2, 3]), vec![1, 5]));
    match plan {
        BlockPlan::Run { copies, supported } => {
            assert_eq!(copies, vec![1]);
            assert!(!supported);
        }
        BlockPlan::Report(code) => panic!("unexpected report {code}"),
    }
}

#[test]
fn block_without_frames_or_outputs_continues_and_leaves_the_buffers() {
    let mut wrapper = active();
    wrapper.process(&Vec::new(), &block(128, None, vec![0x1000, 0x2000]));
    let events = vec![HostEvent { space_id: 0, event_type: 5, param_id: bypass_param_hash(), value: 1.0f64.to_bits() }];
    let (effects, plan) = wrapper.process(&events, &block(0, None, vec![0x3000, 0x4000]));
    assert_eq!(effects, vec![Some(ParamEffect::Bypass(true))]);
    assert!(matches!(plan, BlockPlan::Report(1)));
    assert!(wrapper.bypass_state);
    assert_eq!(wrapper.output_buffer.slice(0), ChannelSlice { address: 0x1000, frames: 128 });

    let mut no_bus = block(128, None, Vec::new());
    no_bus.audio_outputs_count = 0;
    let (_, plan) = wrapper.process(&Vec::new(), &no_bus);
    assert!(matches!(plan, BlockPlan::Report(1)));
    assert_eq!(wrapper.output_buffer.slice(1), ChannelSlice { address: 0x2000, frames: 128 });
}

#[test]
fn block_on_an_inactive_instance_fails_and_changes_nothing() {
    let mut wrapper = instance();
    let events = vec![HostEvent { space_id: 0, event_type: 5, param_id: bypass_param_hash(), value: 1.0f64.to_bits() }];
    let (effects, plan) = wrapper.process(&events, &block(128, None, vec![0x1000, 0x2000]));
    assert!(effects.is_empty());
    assert!(matches!(plan, BlockPlan::Report(0)));
    assert!(!wrapper.bypass_state);
}

#[test]
fn status_maps_to_the_continuation_codes() {
    assert_eq!(continuation_code(ProcessStatus::Error), clap_sys::process::CLAP_PROCESS_ERROR);
    assert_eq!(continuation_code(ProcessStatus::Normal), clap_sys::process::CLAP_PROCESS_CONTINUE_IF_NOT_QUIET);
    assert_eq!(continuation_code(ProcessStatus::Tail(100)), clap_sys::process::CLAP_PROCESS_CONTINUE);
    assert_eq!(continuation_code(ProcessStatus::KeepAlive), clap_sys::process::CLAP_PROCESS_CONTINUE);
    assert_eq!(continuation_code(ProcessStatus::Error), 0);
    assert_eq!(continuation_code(ProcessStatus::Normal), 2);
    assert_eq!(continuation_code(ProcessStatus::Tail(0)), 1);
    assert_eq!(continuation_code(ProcessStatus::KeepAlive), 1);
}

#[test]
fn three_parameters_and_bypass_are_enumerated() {
    let wrapper = active();
    assert_eq!(wrapper.ext_params_count(), 4);
    let bypass = wrapper.ext_params_get_info(3).unwrap();
    assert_eq!(bypass.id, bypass_param_hash());
    assert_eq!(bypass.flags, 1 | 16);
    assert_eq!(bypass.name, "Bypass");
    assert_eq!(bypass.min_value, 0);
    assert_eq!(bypass.max_value, 1);
    assert_eq!(bypass.default_normalized, 0.0f32.to_bits());
    assert_eq!(f32::from_bits(bypass.default_normalized) as f64 * bypass.max_value as f64, 0.0);
}

#[test]
fn declared_parameters_are_described_by_index() {
    let wrapper = instance();
    let gain = wrapper.ext_params_get_info(0).unwrap();
    assert_eq!(gain.id, hash_param_id("gain"));
    assert_eq!(gain.flags, 0);
    assert_eq!(gain.name, "GAIN");
    assert_eq!((gain.min_value, gain.max_value), (0, 1));
    assert_eq!(gain.default_normalized, 0.5f32.to_bits());
    let mode = wrapper.ext_params_get_info(2).unwrap();
    assert_eq!(mode.id, hash_param_id("mode"));
    assert_eq!(mode.flags, 1);
    assert_eq!(mode.name, "MODE");
    assert_eq!((mode.min_value, mode.max_value), (0, 4));
    assert_eq!(f32::from_bits(mode.default_normalized) as f64 * mode.max_value as f64, 3.0);
}

#[test]
fn there_is_no_parameter_outside_the_enumeration() {
    let wrapper = instance();
    assert!(wrapper.ext_params_get_info(-1).is_none());
    assert!(wrapper.ext_params_get_info(i32::MIN).is_none());
    assert!(wrapper.ext_params_get_info(4).is_none());
    assert!(wrapper.ext_params_get_info(i32::MAX).is_none());
    let empty = Wrapper::new(&Vec::new(), &Vec::new(), stereo()).unwrap();
    assert_eq!(empty.ext_params_count(), 1);
    assert_eq!(empty.ext_params_get_info(0).unwrap().name, "Bypass");
    assert!(empty.ext_params_get_info(1).is_none());
}

#[test]
fn value_of_bypass_is_one_or_zero() {
    let mut wrapper = instance();
    assert_eq!(wrapper.ext_params_get_value(bypass_param_hash()), ValueAnswer::Plain(0.0f64.to_bits()));
    wrapper.bypass_state = true;
    assert_eq!(wrapper.ext_params_get_value(bypass_param_hash()), ValueAnswer::Plain(1.0f64.to_bits()));
}

#[test]
fn value_of_a_parameter_is_scaled_by_its_steps() {
    let wrapper = instance();
    assert_eq!(wrapper.ext_params_get_value(hash_param_id("mode")), ValueAnswer::OfParam { index: 2, steps: 4 });
    assert_eq!(wrapper.ext_params_get_value(hash_param_id("gain")), ValueAnswer::OfParam { index: 0, steps: 1 });
    assert_eq!(wrapper.ext_params_get_value(7), ValueAnswer::Failed);
    assert_eq!(wrapper.param_route(bypass_param_hash()), ValueAnswer::Failed);
}

fn text_of(answer: TextAnswer) -> String {
    match answer {
        TextAnswer::Text(text) => text,
        other => panic!("no text: {other:?}"),
    }
}

#[test]
fn bypass_value_reads_as_text() {
    let wrapper = instance();
    let bypass = bypass_param_hash();
    assert_eq!(text_of(wrapper.ext_params_value_to_text(bypass, 1.0f64.to_bits())), "Bypassed");
    assert_eq!(text_of(wrapper.ext_params_value_to_text(bypass, 0.51f64.to_bits())), "Bypassed");
    assert_eq!(text_of(wrapper.ext_params_value_to_text(bypass, 0.5f64.to_bits())), "Not Bypassed");
    assert_eq!(text_of(wrapper.ext_params_value_to_text(bypass, 0.0f64.to_bits())), "Not Bypassed");
    assert_eq!(text_of(wrapper.ext_params_value_to_text(bypass, f64::NAN.to_bits())), "Not Bypassed");
}

#[test]
fn parameter_text_is_left_to_the_parameter() {
    let wrapper = instance();
    assert!(matches!(
        wrapper.ext_params_value_to_text(hash_param_id("mode"), 2.0f64.to_bits()),
        TextAnswer::OfParam { index: 2, steps: 4 }
    ));
    assert!(matches!(wrapper.ext_params_value_to_text(5, 2.0f64.to_bits()), TextAnswer::Failed));
}

#[test]
fn bypass_understands_exactly_two_texts() {
    let wrapper = instance();
    let bypass = bypass_param_hash();
    assert_eq!(wrapper.ext_params_text_to_value(bypass, "Bypassed"), ValueAnswer::Plain(1.0f64.to_bits()));
    assert_eq!(wrapper.ext_params_text_to_value(bypass, "Not Bypassed"), ValueAnswer::Plain(0.0f64.to_bits()));
    for other in ["", "bypassed", "Bypassed ", "not bypassed", "1", "on"] {
        assert_eq!(wrapper.ext_params_text_to_value(bypass, other), ValueAnswer::Failed);
    }
}

#[test]
fn parameter_text_is_parsed_by_the_parameter() {
    let wrapper = instance();
    assert_eq!(
        wrapper.ext_params_text_to_value(hash_param_id("mode"), "Bypassed"),
        ValueAnswer::OfParam { index: 2, steps: 4 }
    );
    assert_eq!(wrapper.ext_params_text_to_value(1, "Bypassed"), ValueAnswer::Failed);
}

#[test]
fn only_the_parameters_extension_is_claimed() {
    assert!(claims_extension("clap.params"));
    assert!(!claims_extension("clap.latency"));
    assert!(!claims_extension("clap.param"));
    assert!(!claims_extension(""));
}

#[test]
fn instance_runs_main_thread_tasks_at_once() {
    let mut wrapper = instance();
    assert_eq!(
        wrapper.do_maybe_async(Task::LatencyChanged, Some(true), false),
        Submission::RunNow(Task::LatencyChanged)
    );
    assert_eq!(
        wrapper.do_maybe_async(Task::LatencyChanged, None, true),
        Submission::RunNow(Task::LatencyChanged)
    );
    assert!(wrapper.on_main_thread().is_empty());
}

#[test]
fn instance_queues_tasks_from_other_threads_until_full() {
    let mut wrapper = instance();
    for _ in 0..512 {
        assert_eq!(wrapper.do_maybe_async(Task::LatencyChanged, Some(false), true), Submission::Queued);
    }
    assert_eq!(wrapper.do_maybe_async(Task::LatencyChanged, None, false), Submission::Rejected);
    assert_eq!(
        wrapper.do_maybe_async(Task::LatencyChanged, Some(true), false),
        Submission::RunNow(Task::LatencyChanged)
    );
    assert_eq!(wrapper.on_main_thread().len(), 512);
    assert!(wrapper.on_main_thread().is_empty());
    assert_eq!(wrapper.do_maybe_async(Task::LatencyChanged, None, false), Submission::Queued);
}

#[test]
fn bus_config_changes_only_while_inactive() {
    let mono = BusConfig { num_input_channels: 1, num_output_channels: 1 };
    let mut wrapper = instance();
    assert!(wrapper.set_bus_config(mono));
    assert_eq!(wrapper.current_bus_config, mono);
    wrapper.lifecycle(Call::Init);
    assert!(wrapper.activate(48000.0f32.to_bits(), 256, true));
    assert_eq!(wrapper.output_buffer.channels(), 1);
    assert!(!wrapper.set_bus_config(stereo()));
    assert_eq!(wrapper.current_bus_config, mono);
    wrapper.lifecycle(Call::StartProcessing);
    assert!(!wrapper.set_bus_config(stereo()));
    wrapper.lifecycle(Call::StopProcessing);
    wrapper.lifecycle(Call::Deactivate);
    assert!(wrapper.set_bus_config(stereo()));
    assert_eq!(wrapper.current_bus_config, stereo());
}

#[test]
fn activation_resets_every_smoother_first() {
    let mut wrapper = instance();
    assert!(wrapper.begin_activate(48000.0f32.to_bits(), 512).is_none());
    wrapper.lifecycle(Call::Init);
    let plan = wrapper.begin_activate(48000.0f32.to_bits(), 512).unwrap();
    assert_eq!(plan.smoother_resets, vec![0, 1, 2]);
    assert_eq!(plan.bus_config, stereo());
    assert_eq!(plan.buffer_config, BufferConfig { sample_rate: 48000.0f32.to_bits(), max_buffer_size: 512 });
    // Planning changes nothing.
    assert_eq!(wrapper.stage, Stage::Initialized);
    assert!(wrapper.activate(48000.0f32.to_bits(), 512, true));
    assert!(wrapper.begin_activate(48000.0f32.to_bits(), 512).is_none());
}

#[test]
fn ending_a_block_lets_go_of_the_host_memory() {
    let mut wrapper = active();
    let events = vec![HostEvent { space_id: 0, event_type: 5, param_id: bypass_param_hash(), value: 1.0f64.to_bits() }];
    wrapper.process(&events, &block(128, Some(vec![0x9000, 0x2000]), vec![0x1000, 0x2000]));
    assert_eq!(wrapper.output_buffer.slice(0), ChannelSlice { address: 0x1000, frames: 128 });
    wrapper.end_block();
    assert_eq!(wrapper.output_buffer.channels(), 2);
    assert_eq!(wrapper.output_buffer.slice(0), ChannelSlice::empty());
    assert_eq!(wrapper.output_buffer.slice(1), ChannelSlice::empty());
    // Nothing else changed.
    assert!(wrapper.bypass_state);
    assert_eq!(wrapper.stage, Stage::Activated);
    assert_eq!(
        wrapper.current_buffer_config,
        Some(BufferConfig { sample_rate: 48000.0f32.to_bits(), max_buffer_size: 512 })
    );
    // Ending twice, or without a block, is harmless.
    wrapper.end_block();
    assert_eq!(wrapper.output_buffer.slice(1), ChannelSlice::empty());
    let mut inactive = instance();
    inactive.end_block();
    assert_eq!(inactive.output_buffer.channels(), 0);
}

#[test]
fn a_block_after_an_ended_block_points_at_the_new_memory_only() {
    let mut wrapper = active();
    wrapper.process(&Vec::new(), &block(128, None, vec![0x1000, 0x2000]));
    wrapper.end_block();
    wrapper.process(&Vec::new(), &block(64, None, vec![0x5000]));
    assert_eq!(wrapper.output_buffer.slice(0), ChannelSlice { address: 0x5000, frames: 64 });
    assert_eq!(wrapper.output_buffer.slice(1), ChannelSlice::empty());
    wrapper.end_block();
    let (_, plan) = wrapper.process(&Vec::new(), &block(0, None, vec![0x7000, 0x8000]));
    assert!(matches!(plan, BlockPlan::Report(1)));
    assert_eq!(wrapper.output_buffer.slice(0), ChannelSlice::empty());
}

#[test]
fn colliding_identifiers_are_described_by_the_parameter_the_hash_addresses() {
    // "Aa" and "BB" share the hash 2112; the hash addresses "BB", declared last.
    let declared = vec![decl("Aa", None, 0.125), decl("gain", None, 0.5), decl("BB", Some(4), 0.75)];
    let mut wrapper = Wrapper::new(&declared, &ids(&["Aa", "gain", "BB"]), stereo()).unwrap();
    assert_eq!(wrapper.ext_params_count(), 4);
    for index in [0, 2] {
        let info = wrapper.ext_params_get_info(index).unwrap();
        assert_eq!(info.id, 2112);
        assert_eq!(info.flags, 1);
        assert_eq!(info.name, "BB");
        assert_eq!((info.min_value, info.max_value), (0, 4));
        assert_eq!(info.default_normalized, 0.75f32.to_bits());
    }
    let gain = wrapper.ext_params_get_info(1).unwrap();
    assert_eq!(gain.name, "GAIN");
    assert_eq!(gain.max_value, 1);
    // The entry agrees with how updates and values of that identifier are scaled.
    assert_eq!(
        wrapper.update_plain_value_by_hash(2112, set(2.0), None),
        ParamEffect::Write(ParamWrite { index: 2, update: set(2.0), steps: 4, smoothing: None })
    );
    assert_eq!(wrapper.ext_params_get_value(2112), ValueAnswer::OfParam { index: 2, steps: 4 });
}

#[test]
fn the_claimed_extension_is_the_one_the_abi_names() {
    let name = clap_sys::ext::params::CLAP_EXT_PARAMS.to_str().unwrap();
    assert_eq!(name, "clap.params");
    assert!(claims_extension(name));
    assert!(!claims_extension(clap_sys::ext::latency::CLAP_EXT_LATENCY.to_str().unwrap()));
    assert!(!claims_extension("clap.params\0"));
    assert!(!claims_extension("clap.param\u{73}\u{301}"));
}
