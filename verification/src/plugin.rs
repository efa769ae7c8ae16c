//! The plugin instance as the host sees it.
//!
//! The instance owns the parameter registry, the bypass switch, the bus and
//! buffer configuration, the output buffer view and the task queue, and it
//! follows the host through the life of the plugin. It decides; it does not
//! touch samples and does not call the plugin. Where a decision needs
//! arithmetic on a parameter's value, the instance says which parameter is
//! meant and what is to be done with it.

use crate::abi::{
    core_event_space, event_param_mod, event_param_value, ext_params_name, param_is_bypass,
    param_is_stepped, process_continue, process_continue_if_not_quiet, process_error,
};
use crate::buffer::{
    copy_plan, copy_plan_spec, pointed_at, topology_supported, topology_supported_spec,
    ChannelSlice, OutputBuffer,
};
use crate::hash::{bypass_hash, bypass_param_hash, str_equal, str_has_bytes};
use vstd::string::StringSliceAdditionalSpecFns;
use vstd::utf8::encode_utf8_decode_utf8;
use crate::ieee::{
    ge_half, gt_half, gt_zero, is_ge_half, is_gt_half, is_gt_zero, is_lt_zero,
    lemma_comparisons_agree, lt_zero, F64_ONE, F64_ZERO,
};
use crate::params::{
    in_order, lemma_last_index, map_acceptable, map_refused_with, ParamDecl, Registry,
    RegistryError,
};
use crate::tasks::{is_main_thread, Submission, Task, TaskQueue, TASK_QUEUE_CAPACITY};
use vstd::prelude::*;

verus! {

/// The number of channels of the input and the output bus.
#[derive(Debug, Clone, Copy, PartialEq, Eq, Structural)]
pub struct BusConfig {
    /// The number of input channels.
    pub num_input_channels: u32,
    /// The number of output channels.
    pub num_output_channels: u32,
}

/// What the host promises about the blocks to come.
#[derive(Debug, Clone, Copy, PartialEq, Eq, Structural)]
pub struct BufferConfig {
    /// The sample rate, as the bits of a single-precision float.
    pub sample_rate: u32,
    /// The largest number of frames a block will hold.
    pub max_buffer_size: u32,
}

/// What the plugin reports after processing a block.
#[derive(Debug, Clone, Copy, PartialEq, Eq, Structural)]
pub enum ProcessStatus {
    /// Processing failed; the block's output is not to be used.
    Error,
    /// The block was processed; the plugin may be suspended on silence.
    Normal,
    /// The plugin has a tail of this many samples.
    Tail(u32),
    /// The plugin makes sound without input and is to be kept running.
    KeepAlive,
}

/// The two kinds of parameter update a host sends. The values are plain
/// values: normalized values multiplied by the step count of a discrete
/// parameter. They are carried as the bits of a double-precision float.
#[derive(Debug, Clone, Copy, PartialEq, Eq, Structural)]
pub enum ClapParamUpdate {
    /// Set the parameter to this plain value.
    PlainValueSet(u64),
    /// Add this delta to the parameter's current plain value.
    PlainValueMod(u64),
}

/// The stages of an instance's life.
#[derive(Debug, Clone, Copy, PartialEq, Eq, Structural)]
pub enum Stage {
    /// Made, not yet initialized.
    Created,
    /// Initialized and inactive.
    Initialized,
    /// Active: the sample rate and the block size are known.
    Activated,
    /// Active, and the host has announced that blocks follow.
    Processing,
    /// Destroyed; nothing more can happen.
    Destroyed,
}

/// The calls by which the host moves an instance through its life.
#[derive(Debug, Clone, Copy, PartialEq, Eq, Structural)]
pub enum Call {
    Init,
    Activate,
    StartProcessing,
    StopProcessing,
    Deactivate,
    Destroy,
}

/// An event of the host as far as the instance reads it.
#[derive(Debug, Clone, Copy, PartialEq, Eq, Structural)]
pub struct HostEvent {
    /// The namespace of the event's type.
    pub space_id: u16,
    /// The event's type within its namespace.
    pub event_type: u16,
    /// The parameter that the event addresses.
    pub param_id: u32,
    /// The plain value or the delta that the event carries, as the bits of a
    /// double-precision float.
    pub value: u64,
}

/// A new value for one parameter of the plugin. The new normalized value is
/// the plain value divided by `steps` for a set, and the current normalized
/// value plus the delta divided by `steps` for a modulation.
#[derive(Debug, Clone, Copy, PartialEq, Eq, Structural)]
pub struct ParamWrite {
    /// The position of the parameter in the registry.
    pub index: usize,
    /// The update as the host sent it.
    pub update: ClapParamUpdate,
    /// The parameter's step count, or 1 for a continuous parameter.
    pub steps: u32,
    /// The sample rate with which the parameter's smoother is to be reseeded
    /// with the new value, not instantly; `None` while the instance is
    /// inactive, when only the value is set.
    pub smoothing: Option<u32>,
}

/// What a parameter update came to.
#[derive(Debug, Clone, Copy, PartialEq, Eq, Structural)]
pub enum ParamEffect {
    /// No parameter has this identifier. The update is dropped.
    Unrecognized,
    /// The update addressed the bypass parameter, which now has this state.
    Bypass(bool),
    /// The update addressed a parameter of the plugin.
    Write(ParamWrite),
}

impl ParamEffect {
    /// Whether the update addressed a parameter of the instance.
    pub open spec fn recognized_spec(self) -> bool {
        !(self is Unrecognized)
    }

    /// Whether the update addressed a parameter of the instance.
    pub fn recognized(&self) -> (r: bool)
        ensures
            r == self.recognized_spec(),
    {
        match self {
            ParamEffect::Unrecognized => false,
            _ => true,
        }
    }
}

/// The step count by which plain values are scaled: 1 for a continuous
/// parameter.
pub open spec fn steps_or_one(step_count: Option<u32>) -> u32 {
    match step_count {
        Some(steps) => steps,
        None => 1,
    }
}

/// The state of the bypass switch after an update. A set switches it on from
/// one half upwards. A modulation switches it on when positive, off when
/// negative, and leaves it alone otherwise.
pub open spec fn bypass_after(bypass: bool, update: ClapParamUpdate) -> bool {
    match update {
        ClapParamUpdate::PlainValueSet(plain) => ge_half(plain),
        ClapParamUpdate::PlainValueMod(delta) => if gt_zero(delta) {
            true
        } else if lt_zero(delta) {
            false
        } else {
            bypass
        },
    }
}

/// What an update of the parameter addressed by `hash` comes to.
pub open spec fn effect_of(
    registry: Registry,
    bypass: bool,
    hash: u32,
    update: ClapParamUpdate,
    sample_rate: Option<u32>,
) -> ParamEffect {
    if hash == bypass_hash() {
        ParamEffect::Bypass(bypass_after(bypass, update))
    } else {
        match registry.index_of(hash) {
            Some(index) => ParamEffect::Write(
                ParamWrite {
                    index: index as usize,
                    update,
                    steps: steps_or_one(registry@[index].step_count),
                    smoothing: sample_rate,
                },
            ),
            None => ParamEffect::Unrecognized,
        }
    }
}

/// The parameter update that an event stands for, if it is one: in the core
/// namespace, type 5 sets a value and type 6 modulates it.
pub open spec fn update_of(event: HostEvent) -> Option<ClapParamUpdate> {
    if event.space_id == 0 && event.event_type == 5 {
        Some(ClapParamUpdate::PlainValueSet(event.value))
    } else if event.space_id == 0 && event.event_type == 6 {
        Some(ClapParamUpdate::PlainValueMod(event.value))
    } else {
        None
    }
}

/// The state of the bypass switch after one event.
pub open spec fn bypass_after_event(bypass: bool, event: HostEvent) -> bool {
    match update_of(event) {
        Some(update) => if event.param_id == bypass_hash() {
            bypass_after(bypass, update)
        } else {
            bypass
        },
        None => bypass,
    }
}

/// The state of the bypass switch after a list of events, taken in order.
pub open spec fn bypass_after_events(bypass: bool, events: Seq<HostEvent>) -> bool
    decreases events.len(),
{
    if events.len() == 0 {
        bypass
    } else {
        bypass_after_event(bypass_after_events(bypass, events.drop_last()), events.last())
    }
}

/// What one event comes to: `None` for an event that is no parameter update.
pub open spec fn event_effect(
    registry: Registry,
    bypass: bool,
    event: HostEvent,
    sample_rate: Option<u32>,
) -> Option<ParamEffect> {
    match update_of(event) {
        Some(update) => Some(effect_of(registry, bypass, event.param_id, update, sample_rate)),
        None => None,
    }
}

/// The sample rate of a buffer configuration, if there is one.
pub open spec fn sample_rate_of(config: Option<BufferConfig>) -> Option<u32> {
    match config {
        Some(c) => Some(c.sample_rate),
        None => None,
    }
}

/// The stage that a call leads to, or `None` where the call is out of order.
pub open spec fn next_stage(stage: Stage, call: Call) -> Option<Stage> {
    match (stage, call) {
        (Stage::Created, Call::Init) => Some(Stage::Initialized),
        (Stage::Initialized, Call::Activate) => Some(Stage::Activated),
        (Stage::Activated, Call::StartProcessing) => Some(Stage::Processing),
        (Stage::Processing, Call::StopProcessing) => Some(Stage::Activated),
        (Stage::Activated, Call::Deactivate) => Some(Stage::Initialized),
        (Stage::Destroyed, Call::Destroy) => None,
        (_, Call::Destroy) => Some(Stage::Destroyed),
        _ => None,
    }
}

/// Whether blocks can be processed in a stage.
pub open spec fn is_active(stage: Stage) -> bool {
    stage is Activated || stage is Processing
}

/// The code by which the host is told how a block went: 0 for a failure, 2
/// after a normal block, 1 where the plugin has a tail or is to be kept alive.
pub open spec fn status_code(status: ProcessStatus) -> i32 {
    match status {
        ProcessStatus::Error => 0,
        ProcessStatus::Normal => 2,
        ProcessStatus::Tail(_) => 1,
        ProcessStatus::KeepAlive => 1,
    }
}

/// Maps the plugin's report on a block to the host's continuation code.
pub fn continuation_code(status: ProcessStatus) -> (code: i32)
    ensures
        code == status_code(status),
{
    match status {
        ProcessStatus::Error => process_error(),
        ProcessStatus::Normal => process_continue_if_not_quiet(),
        ProcessStatus::Tail(_) => process_continue(),
        ProcessStatus::KeepAlive => process_continue(),
    }
}

/// Reads an event as a parameter update, if it is one.
pub fn decode_event(event: &HostEvent) -> (update: Option<ClapParamUpdate>)
    ensures
        update == update_of(*event),
{
    if event.space_id == core_event_space() && event.event_type == event_param_value() {
        Some(ClapParamUpdate::PlainValueSet(event.value))
    } else if event.space_id == core_event_space() && event.event_type == event_param_mod() {
        Some(ClapParamUpdate::PlainValueMod(event.value))
    } else {
        None
    }
}

/// Tells whether the instance offers the extension of this name. It offers
/// the parameters extension and no other.
pub fn claims_extension(id: &str) -> (claimed: bool)
    ensures
        claimed == (id@ == "clap.params"@),
{
    proof {
        encode_utf8_decode_utf8(id@);
        encode_utf8_decode_utf8("clap.params"@);
    }
    str_has_bytes(id, ext_params_name())
}


/// What the host hands over for one block, as far as the instance reads it.
#[derive(Debug)]
pub struct BlockLayout {
    /// The number of frames in the block.
    pub frames_count: u32,
    /// The number of input buses the host provides.
    pub audio_inputs_count: u32,
    /// The number of output buses the host provides.
    pub audio_outputs_count: u32,
    /// The addresses of the input bus's channels, if there is an input bus.
    pub input_channels: Option<Vec<usize>>,
    /// The addresses of the output bus's channels.
    pub output_channels: Vec<usize>,
}

/// How a block is to go on once its events are handled.
#[derive(Debug)]
pub enum BlockPlan {
    /// Nothing is produced; this code goes back to the host.
    Report(i32),
    /// The output view points at the block. The inputs of the listed
    /// channels are copied to their outputs, then the plugin processes the
    /// view, and its status is mapped by `continuation_code`.
    Run {
        /// The channels whose input lies apart from the output, rising.
        copies: Vec<usize>,
        /// Whether the host's buses have a shape the instance supports.
        supported: bool,
    },
}

/// What is to happen before an instance can become active.
#[derive(Debug)]
pub struct ActivationPlan {
    /// The parameters whose smoothers are reset to their current values for
    /// the new sample rate, before the plugin sees the configuration: every
    /// declared parameter, in declaration order.
    pub smoother_resets: Vec<usize>,
    /// The channel counts with which the plugin is asked to initialize.
    pub bus_config: BusConfig,
    /// The sample rate and block size with which the plugin is asked to
    /// initialize.
    pub buffer_config: BufferConfig,
}

/// The addresses of a block's input channels; none without an input bus.
pub open spec fn inputs_of(layout: BlockLayout) -> Seq<usize> {
    match layout.input_channels {
        Some(channels) => channels@,
        None => Seq::empty(),
    }
}

/// Whether a block carries samples to work on.
pub open spec fn carries_audio(layout: BlockLayout) -> bool {
    layout.audio_outputs_count != 0 && layout.frames_count != 0
}

/// One entry of the parameter list as the host is told it. The least value
/// is 0 and the greatest is `max_value`, both whole numbers; the default
/// value is the normalized default multiplied by `max_value`.
#[derive(Debug)]
pub struct ParamInfo {
    /// The identifier by which the host addresses the parameter.
    pub id: u32,
    /// The flags of the parameter.
    pub flags: u32,
    /// The name shown to the user.
    pub name: String,
    /// The least plain value.
    pub min_value: u32,
    /// The greatest plain value.
    pub max_value: u32,
    /// The normalized default, as the bits of a single-precision float.
    pub default_normalized: u32,
}

/// The answer to a question about a parameter's plain value.
#[derive(Debug, Clone, Copy, PartialEq, Eq, Structural)]
pub enum ValueAnswer {
    /// There is no answer: the identifier is unknown, or the text is none
    /// that the bypass parameter understands.
    Failed,
    /// This plain value, as the bits of a double-precision float.
    Plain(u64),
    /// The parameter at `index` answers with a normalized value, which is
    /// multiplied by `steps` to give the plain value.
    OfParam { index: usize, steps: u32 },
}

/// The answer to a request for the text of a plain value.
#[derive(Debug)]
pub enum TextAnswer {
    /// The identifier is unknown.
    Failed,
    /// This text.
    Text(String),
    /// The parameter at `index` formats the plain value divided by `steps`,
    /// with its unit.
    OfParam { index: usize, steps: u32 },
}

/// The answer for a parameter of the plugin, or the failure for an unknown
/// identifier.
pub open spec fn value_of_param(registry: Registry, hash: u32) -> ValueAnswer {
    match registry.index_of(hash) {
        Some(index) => ValueAnswer::OfParam {
            index: index as usize,
            steps: steps_or_one(registry@[index].step_count),
        },
        None => ValueAnswer::Failed,
    }
}

/// Modulating the bypass parameter switches bypass on for a delta above
/// zero and off for a delta below zero, whatever it was before; any other
/// delta leaves it as it was.
pub proof fn lemma_bypass_modulation(
    registry: Registry,
    bypass: bool,
    delta: u64,
    sample_rate: Option<u32>,
)
    ensures
        gt_zero(delta) ==> bypass_after(bypass, ClapParamUpdate::PlainValueMod(delta)),
        lt_zero(delta) ==> !bypass_after(bypass, ClapParamUpdate::PlainValueMod(delta)),
        !gt_zero(delta) && !lt_zero(delta) ==> bypass_after(
            bypass,
            ClapParamUpdate::PlainValueMod(delta),
        ) == bypass,
        effect_of(
            registry,
            bypass,
            bypass_hash(),
            ClapParamUpdate::PlainValueMod(delta),
            sample_rate,
        ) == ParamEffect::Bypass(bypass_after(bypass, ClapParamUpdate::PlainValueMod(delta))),
{
    lemma_comparisons_agree(delta);
}

/// An update addressed to a declared parameter that no later parameter
/// shadows reaches that parameter: the plain value is passed on unchanged,
/// to be divided by the parameter's step count, and by 1 where the
/// parameter is continuous, so that there the plain value is the normalized
/// value.
pub proof fn lemma_update_reaches_parameter(
    registry: Registry,
    bypass: bool,
    index: int,
    update: ClapParamUpdate,
    sample_rate: Option<u32>,
)
    requires
        registry.wf(),
        0 <= index < registry@.len(),
        forall|j: int| index < j < registry@.len() ==> registry.hashes()[j] != registry.hashes()[index],
    ensures
        effect_of(registry, bypass, registry.hashes()[index], update, sample_rate)
            == ParamEffect::Write(
            ParamWrite {
                index: index as usize,
                update,
                steps: steps_or_one(registry@[index].step_count),
                smoothing: sample_rate,
            },
        ),
        registry@[index].step_count is None ==> steps_or_one(registry@[index].step_count) == 1,
        registry@[index].step_count is Some ==> steps_or_one(registry@[index].step_count)
            == registry@[index].step_count->Some_0,
{
    registry.lemma_bypass_is_free();
    lemma_last_index(registry.hashes(), registry.hashes()[index]);
}

/// A block is handled event by event: the state of the bypass switch after
/// a list of events followed by one more is the state after that one event
/// in the state the list left, and no events leave the switch alone.
pub proof fn lemma_events_in_order(bypass: bool, events: Seq<HostEvent>, next: HostEvent)
    ensures
        bypass_after_events(bypass, Seq::empty()) == bypass,
        bypass_after_events(bypass, events.push(next)) == bypass_after_event(
            bypass_after_events(bypass, events),
            next,
        ),
{
    assert(events.push(next).drop_last() =~= events);
}

/// The declaration that the host reaches through the identifier of the
/// parameter at a position of the enumeration. Where a later parameter
/// shares the identifier, it is that later one.
pub open spec fn addressed_at(registry: Registry, index: int) -> ParamDecl {
    registry@[registry.index_of(registry.hashes()[index])->Some_0]
}

/// The identifier of every enumerated parameter addresses a declared
/// parameter with that identifier, and it addresses the parameter at the
/// position itself where no later parameter shares the identifier.
pub proof fn lemma_addressed_at(registry: Registry, index: int)
    requires
        registry.wf(),
        0 <= index < registry@.len(),
    ensures
        registry.index_of(registry.hashes()[index]) is Some,
        index <= registry.index_of(registry.hashes()[index])->Some_0 < registry@.len(),
        registry.hashes()[registry.index_of(registry.hashes()[index])->Some_0]
            == registry.hashes()[index],
        (forall|j: int| index < j < registry@.len() ==> registry.hashes()[j]
            != registry.hashes()[index]) ==> addressed_at(registry, index) == registry@[index],
{
    lemma_last_index(registry.hashes(), registry.hashes()[index]);
}

/// The state of one plugin instance.
#[derive(Debug)]
pub struct Wrapper {
    /// The parameters the plugin declared.
    pub registry: Registry,
    /// The identifier of the bypass parameter, computed once.
    pub bypass_param_hash: u32,
    /// The current channel counts; they change only while inactive.
    pub current_bus_config: BusConfig,
    /// The sample rate and block size, known while the instance is active.
    pub current_buffer_config: Option<BufferConfig>,
    /// Whether the plugin is bypassed. Processing does not consult this.
    pub bypass_state: bool,
    /// The latency in samples that the plugin last reported.
    pub current_latency: u32,
    /// One descriptor for each output channel.
    pub output_buffer: OutputBuffer,
    /// The tasks that wait for the main thread.
    pub tasks: TaskQueue,
    /// Where the instance is in its life.
    pub stage: Stage,
}

impl Wrapper {
    /// The parts of the instance are well formed, the cached bypass
    /// identifier is the right one, and the buffer configuration is known
    /// exactly while the instance is active.
    pub open spec fn wf(&self) -> bool {
        &&& self.registry.wf()
        &&& self.tasks.wf()
        &&& self.bypass_param_hash == bypass_hash()
        &&& is_active(self.stage) <==> self.current_buffer_config is Some
    }

    /// Makes the instance of a plugin from its declared parameters, the
    /// order of their identifiers and its default bus configuration. It
    /// fails where the parameters cannot be registered.
    pub fn new(param_map: &Vec<ParamDecl>, param_ids: &Vec<String>, bus_config: BusConfig) -> (r:
        Result<Wrapper, RegistryError>)
        ensures
            match r {
                Ok(w) => {
                    &&& map_acceptable(param_map@, param_ids@)
                    &&& w.wf()
                    &&& w.registry@ == in_order(param_map@, param_ids@)
                    &&& w.current_bus_config == bus_config
                    &&& w.current_buffer_config is None
                    &&& !w.bypass_state
                    &&& w.current_latency == 0
                    &&& w.output_buffer@.len() == 0
                    &&& w.tasks@.len() == 0
                    &&& w.tasks.capacity() == TASK_QUEUE_CAPACITY
                    &&& w.stage == Stage::Created
                },
                Err(error) => map_refused_with(param_map@, param_ids@, error),
            },
    {
        match Registry::from_map(param_map, param_ids) {
            Ok(registry) => Ok(
                Wrapper {
                    registry,
                    bypass_param_hash: bypass_param_hash(),
                    current_bus_config: bus_config,
                    current_buffer_config: None,
                    bypass_state: false,
                    current_latency: 0,
                    output_buffer: OutputBuffer::new(),
                    tasks: TaskQueue::new(TASK_QUEUE_CAPACITY),
                    stage: Stage::Created,
                },
            ),
            Err(error) => Err(error),
        }
    }

    /// Applies a parameter update that the host addressed by identifier. An
    /// update of the bypass parameter is carried out here. For an update of a
    /// parameter of the plugin the result says what is to be written. An
    /// update of an unknown identifier changes nothing.
    pub fn update_plain_value_by_hash(
        &mut self,
        hash: u32,
        update: ClapParamUpdate,
        sample_rate: Option<u32>,
    ) -> (effect: ParamEffect)
        requires
            old(self).wf(),
        ensures
            final(self).wf(),
            effect == effect_of(old(self).registry, old(self).bypass_state, hash, update, sample_rate),
            *final(self) == (Wrapper {
                bypass_state: if hash == bypass_hash() {
                    bypass_after(old(self).bypass_state, update)
                } else {
                    old(self).bypass_state
                },
                ..*old(self)
            }),
            effect is Write ==> effect->Write_0.index < final(self).registry@.len(),
    {
        if hash == self.bypass_param_hash {
            match update {
                ClapParamUpdate::PlainValueSet(plain) => {
                    self.bypass_state = is_ge_half(plain);
                },
                ClapParamUpdate::PlainValueMod(delta) => {
                    if is_gt_zero(delta) {
                        self.bypass_state = true;
                    } else if is_lt_zero(delta) {
                        self.bypass_state = false;
                    }
                },
            }
            ParamEffect::Bypass(self.bypass_state)
        } else {
            match self.registry.lookup(hash) {
                Some(index) => {
                    let steps = match self.registry.param(index).step_count {
                        Some(steps) => steps,
                        None => 1,
                    };
                    ParamEffect::Write(ParamWrite { index, update, steps, smoothing: sample_rate })
                },
                None => ParamEffect::Unrecognized,
            }
        }
    }

    /// Handles one event of the host. A parameter update is applied with the
    /// sample rate of the current buffer configuration; any other event is
    /// left alone and answered with `None`.
    pub fn handle_event(&mut self, event: &HostEvent) -> (effect: Option<ParamEffect>)
        requires
            old(self).wf(),
        ensures
            final(self).wf(),
            effect == event_effect(
                old(self).registry,
                old(self).bypass_state,
                *event,
                sample_rate_of(old(self).current_buffer_config),
            ),
            *final(self) == (Wrapper {
                bypass_state: bypass_after_event(old(self).bypass_state, *event),
                ..*old(self)
            }),
    {
        let sample_rate = match self.current_buffer_config {
            Some(config) => Some(config.sample_rate),
            None => None,
        };
        match decode_event(event) {
            Some(update) => Some(self.update_plain_value_by_hash(event.param_id, update, sample_rate)),
            None => None,
        }
    }

    /// Handles a list of events in order, as the host sends them outside of a
    /// block. Each event is answered as `handle_event` answers it in the
    /// state that the events before it left.
    pub fn ext_params_flush(&mut self, events: &Vec<HostEvent>) -> (effects: Vec<Option<ParamEffect>>)
        requires
            old(self).wf(),
        ensures
            final(self).wf(),
            effects@.len() == events@.len(),
            forall|i: int|
                0 <= i < events@.len() ==> effects@[i] == event_effect(
                    old(self).registry,
                    bypass_after_events(old(self).bypass_state, events@.take(i)),
                    events@[i],
                    sample_rate_of(old(self).current_buffer_config),
                ),
            *final(self) == (Wrapper {
                bypass_state: bypass_after_events(old(self).bypass_state, events@),
                ..*old(self)
            }),
    {
        let mut effects: Vec<Option<ParamEffect>> = Vec::new();
        let mut i: usize = 0;
        while i < events.len()
            invariant
                i <= events@.len(),
                self.wf(),
                effects@.len() == i,
                forall|k: int|
                    0 <= k < i ==> effects@[k] == event_effect(
                        old(self).registry,
                        bypass_after_events(old(self).bypass_state, events@.take(k)),
                        events@[k],
                        sample_rate_of(old(self).current_buffer_config),
                    ),
                *self == (Wrapper {
                    bypass_state: bypass_after_events(old(self).bypass_state, events@.take(i as int)),
                    ..*old(self)
                }),
            decreases events@.len() - i,
        {
            proof {
                assert(events@.take(i + 1).drop_last() =~= events@.take(i as int));
            }
            let effect = self.handle_event(&events[i]);
            effects.push(effect);
            i += 1;
        }
        proof {
            assert(events@.take(i as int) =~= events@);
        }
        effects
    }
    /// Carries out a call that only moves the instance to another stage:
    /// initializing, starting and stopping processing, deactivating and
    /// destroying. A call out of order is refused and changes nothing.
    /// Deactivating forgets the buffer configuration.
    pub fn lifecycle(&mut self, call: Call) -> (done: bool)
        requires
            old(self).wf(),
        ensures
            final(self).wf(),
            done == (!(call is Activate) && next_stage(old(self).stage, call) is Some),
            !done ==> *final(self) == *old(self),
            done ==> *final(self) == (Wrapper {
                stage: next_stage(old(self).stage, call)->Some_0,
                current_buffer_config: if call is Deactivate || call is Destroy {
                    None
                } else {
                    old(self).current_buffer_config
                },
                ..*old(self)
            }),
    {
        match (self.stage, call) {
            (Stage::Created, Call::Init) => {
                self.stage = Stage::Initialized;
                true
            },
            (Stage::Activated, Call::StartProcessing) => {
                self.stage = Stage::Processing;
                true
            },
            (Stage::Processing, Call::StopProcessing) => {
                self.stage = Stage::Activated;
                true
            },
            (Stage::Activated, Call::Deactivate) => {
                self.stage = Stage::Initialized;
                self.current_buffer_config = None;
                true
            },
            (Stage::Destroyed, Call::Destroy) => false,
            (_, Call::Destroy) => {
                self.stage = Stage::Destroyed;
                self.current_buffer_config = None;
                true
            },
            _ => false,
        }
    }

    /// Changes the channel counts. They change only while the instance is
    /// inactive; on an active instance the request is refused and nothing
    /// changes.
    pub fn set_bus_config(&mut self, bus_config: BusConfig) -> (done: bool)
        requires
            old(self).wf(),
        ensures
            final(self).wf(),
            done == !is_active(old(self).stage),
            done ==> *final(self) == (Wrapper { current_bus_config: bus_config, ..*old(self) }),
            !done ==> *final(self) == *old(self),
    {
        match self.stage {
            Stage::Activated => false,
            Stage::Processing => false,
            _ => {
                self.current_bus_config = bus_config;
                true
            },
        }
    }

    /// Prepares an activation. On an instance that is initialized and
    /// inactive the plan says which smoothers to reset and with what the
    /// plugin is asked to initialize; the plugin's answer then goes to
    /// `activate`. In any other stage there is no plan.
    pub fn begin_activate(&self, sample_rate: u32, max_frames_count: u32) -> (plan: Option<
        ActivationPlan,
    >)
        requires
            self.wf(),
        ensures
            plan is Some <==> self.stage == Stage::Initialized,
            plan is Some ==> {
                &&& plan->Some_0.smoother_resets@ == Seq::new(
                    self.registry@.len(),
                    |i: int| i as usize,
                )
                &&& plan->Some_0.bus_config == self.current_bus_config
                &&& plan->Some_0.buffer_config == (BufferConfig {
                    sample_rate,
                    max_buffer_size: max_frames_count,
                })
            },
    {
        match self.stage {
            Stage::Initialized => {
                let n = self.registry.len();
                let mut smoother_resets: Vec<usize> = Vec::new();
                let mut i: usize = 0;
                while i < n
                    invariant
                        i <= n,
                        smoother_resets@ == Seq::new(i as nat, |k: int| k as usize),
                    decreases n - i,
                {
                    smoother_resets.push(i);
                    i += 1;
                    proof {
                        assert(smoother_resets@ =~= Seq::new(i as nat, |k: int| k as usize));
                    }
                }
                Some(
                    ActivationPlan {
                        smoother_resets,
                        bus_config: self.current_bus_config,
                        buffer_config: BufferConfig {
                            sample_rate,
                            max_buffer_size: max_frames_count,
                        },
                    },
                )
            },
            _ => None,
        }
    }

    /// Activates the instance for a sample rate and a largest block size.
    /// Before this call the plugin's smoothers were reset and the plugin was
    /// asked to initialize with the configuration; `plugin_accepts` is its
    /// answer. The instance becomes active only where it is initialized and
    /// inactive and the plugin accepts: then the configuration is kept and
    /// the output view gets one empty descriptor for each output channel.
    /// Otherwise nothing changes.
    pub fn activate(&mut self, sample_rate: u32, max_frames_count: u32, plugin_accepts: bool) -> (ok:
        bool)
        requires
            old(self).wf(),
        ensures
            final(self).wf(),
            ok == (plugin_accepts && old(self).stage == Stage::Initialized),
            !ok ==> *final(self) == *old(self),
            ok ==> {
                &&& final(self).stage == Stage::Activated
                &&& final(self).current_buffer_config == Some(
                    BufferConfig { sample_rate, max_buffer_size: max_frames_count },
                )
                &&& final(self).output_buffer@ == Seq::new(
                    old(self).current_bus_config.num_output_channels as nat,
                    |i: int| ChannelSlice::empty_spec(),
                )
                &&& final(self).registry == old(self).registry
                &&& final(self).bypass_param_hash == old(self).bypass_param_hash
                &&& final(self).current_bus_config == old(self).current_bus_config
                &&& final(self).bypass_state == old(self).bypass_state
                &&& final(self).current_latency == old(self).current_latency
                &&& final(self).tasks == old(self).tasks
            },
    {
        if !plugin_accepts {
            return false;
        }
        match self.stage {
            Stage::Initialized => {
                self.output_buffer.resize(self.current_bus_config.num_output_channels as usize);
                self.current_buffer_config = Some(
                    BufferConfig { sample_rate, max_buffer_size: max_frames_count },
                );
                self.stage = Stage::Activated;
                true
            },
            _ => false,
        }
    }

    /// Begins a block. While the instance is inactive the block is refused
    /// with the failure code and nothing changes. Otherwise all events are
    /// handled in order. A block without frames or without an output bus
    /// ends there with the code to continue, and the buffers are left alone.
    /// For any other block the output view is pointed at the block's output
    /// channels, and the plan lists the channels to copy. The view points at
    /// the host's memory until `end_block`, which is due as soon as the
    /// plugin has processed the block.
    pub fn process(&mut self, events: &Vec<HostEvent>, layout: &BlockLayout) -> (r: (
        Vec<Option<ParamEffect>>,
        BlockPlan,
    ))
        requires
            old(self).wf(),
        ensures
            final(self).wf(),
            !is_active(old(self).stage) ==> {
                &&& *final(self) == *old(self)
                &&& r.0@.len() == 0
                &&& r.1 == BlockPlan::Report(0)
            },
            is_active(old(self).stage) ==> {
                &&& r.0@.len() == events@.len()
                &&& forall|i: int|
                    0 <= i < events@.len() ==> r.0@[i] == event_effect(
                        old(self).registry,
                        bypass_after_events(old(self).bypass_state, events@.take(i)),
                        events@[i],
                        sample_rate_of(old(self).current_buffer_config),
                    )
                &&& final(self).bypass_state == bypass_after_events(old(self).bypass_state, events@)
                &&& final(self).registry == old(self).registry
                &&& final(self).bypass_param_hash == old(self).bypass_param_hash
                &&& final(self).current_bus_config == old(self).current_bus_config
                &&& final(self).current_buffer_config == old(self).current_buffer_config
                &&& final(self).current_latency == old(self).current_latency
                &&& final(self).tasks == old(self).tasks
                &&& final(self).stage == old(self).stage
            },
            is_active(old(self).stage) && !carries_audio(*layout) ==> {
                &&& final(self).output_buffer == old(self).output_buffer
                &&& r.1 == BlockPlan::Report(1)
            },
            is_active(old(self).stage) && carries_audio(*layout) ==> {
                &&& final(self).output_buffer@ == pointed_at(
                    old(self).output_buffer@.len(),
                    layout.output_channels@,
                    layout.frames_count as usize,
                )
                &&& r.1 is Run
                &&& r.1->copies@ == copy_plan_spec(inputs_of(*layout), layout.output_channels@)
                &&& r.1->supported == topology_supported_spec(
                    layout.audio_inputs_count,
                    layout.audio_outputs_count,
                    inputs_of(*layout).len() as usize,
                    layout.output_channels@.len() as usize,
                )
            },
    {
        match self.stage {
            Stage::Activated => {},
            Stage::Processing => {},
            _ => {
                return (Vec::new(), BlockPlan::Report(process_error()));
            },
        }
        let effects = self.ext_params_flush(events);
        if layout.audio_outputs_count == 0 || layout.frames_count == 0 {
            return (effects, BlockPlan::Report(process_continue()));
        }
        self.output_buffer.point_at(&layout.output_channels, layout.frames_count as usize);
        let (copies, num_inputs) = match &layout.input_channels {
            Some(inputs) => (copy_plan(inputs, &layout.output_channels), inputs.len()),
            None => (Vec::new(), 0),
        };
        let supported = topology_supported(
            layout.audio_inputs_count,
            layout.audio_outputs_count,
            num_inputs,
            layout.output_channels.len(),
        );
        (effects, BlockPlan::Run { copies, supported })
    }

    /// Ends a block. The host's addresses are good for the length of one
    /// block only, so once the plugin has processed the block every
    /// descriptor of the output view points nowhere again. Nothing else
    /// changes.
    pub fn end_block(&mut self)
        requires
            old(self).wf(),
        ensures
            final(self).wf(),
            final(self).output_buffer@ == Seq::new(
                old(self).output_buffer@.len(),
                |i: int| ChannelSlice::empty_spec(),
            ),
            final(self).registry == old(self).registry,
            final(self).bypass_param_hash == old(self).bypass_param_hash,
            final(self).current_bus_config == old(self).current_bus_config,
            final(self).current_buffer_config == old(self).current_buffer_config,
            final(self).bypass_state == old(self).bypass_state,
            final(self).current_latency == old(self).current_latency,
            final(self).tasks == old(self).tasks,
            final(self).stage == old(self).stage,
    {
        self.output_buffer.release();
    }

    /// The number of parameters the host can enumerate: those the plugin
    /// declared, and the bypass parameter behind them.
    pub fn ext_params_count(&self) -> (count: u32)
        requires
            self.wf(),
        ensures
            count == self.registry@.len() + 1,
    {
        proof {
            self.registry.lemma_bypass_is_free();
        }
        self.registry.len() as u32 + 1
    }

    /// Describes the parameter at an index of the enumeration. A declared
    /// parameter is described through its identifier: name, step count and
    /// default are those of the parameter that the identifier addresses. The
    /// index just behind the declared parameters is that of the bypass
    /// parameter: a stepped parameter from 0 to 1 with default 0. There is no
    /// parameter at a negative index or behind the bypass parameter.
    pub fn ext_params_get_info(&self, param_index: i32) -> (info: Option<ParamInfo>)
        requires
            self.wf(),
        ensures
            info is Some <==> 0 <= param_index <= self.registry@.len(),
            info is Some && param_index == self.registry@.len() ==> {
                &&& info->Some_0.id == bypass_hash()
                &&& info->Some_0.flags == 17
                &&& info->Some_0.name@ == "Bypass"@
                &&& info->Some_0.min_value == 0
                &&& info->Some_0.max_value == 1
                &&& info->Some_0.default_normalized == 0
            },
            info is Some && param_index < self.registry@.len() ==> {
                &&& info->Some_0.id == self.registry.hashes()[param_index as int]
                &&& info->Some_0.flags == (if addressed_at(
                    self.registry,
                    param_index as int,
                ).step_count is Some {
                    1u32
                } else {
                    0u32
                })
                &&& info->Some_0.name@ == addressed_at(self.registry, param_index as int).name@
                &&& info->Some_0.min_value == 0
                &&& info->Some_0.max_value == steps_or_one(
                    addressed_at(self.registry, param_index as int).step_count,
                )
                &&& info->Some_0.default_normalized == addressed_at(
                    self.registry,
                    param_index as int,
                ).normalized
            },
    {
        proof {
            self.registry.lemma_bypass_is_free();
        }
        if param_index < 0 {
            return None;
        }
        let index = param_index as usize;
        let declared = self.registry.len();
        if index > declared {
            None
        } else if index == declared {
            let stepped = param_is_stepped();
            let bypass = param_is_bypass();
            assert(stepped | bypass == 17u32) by (bit_vector)
                requires
                    stepped == 1u32,
                    bypass == 16u32,
            ;
            Some(
                ParamInfo {
                    id: self.bypass_param_hash,
                    flags: stepped | bypass,
                    name: "Bypass".to_owned(),
                    min_value: 0,
                    max_value: 1,
                    default_normalized: 0,
                },
            )
        } else {
            proof {
                lemma_addressed_at(self.registry, index as int);
            }
            let hash = self.registry.param_hashes()[index];
            match self.registry.lookup(hash) {
                Some(addressed) => {
                    let decl = self.registry.param(addressed);
                    let (flags, max_value) = match decl.step_count {
                        Some(steps) => (param_is_stepped(), steps),
                        None => (0, 1),
                    };
                    Some(
                        ParamInfo {
                            id: hash,
                            flags,
                            name: decl.name.clone(),
                            min_value: 0,
                            max_value,
                            default_normalized: decl.normalized,
                        },
                    )
                },
                None => None,
            }
        }
    }

    /// Answers the host's question for a parameter's plain value. The bypass
    /// parameter is 1 when bypassed and 0 when not.
    pub fn ext_params_get_value(&self, param_id: u32) -> (answer: ValueAnswer)
        requires
            self.wf(),
        ensures
            answer == if param_id == bypass_hash() {
                ValueAnswer::Plain(if self.bypass_state { F64_ONE } else { F64_ZERO })
            } else {
                value_of_param(self.registry, param_id)
            },
            answer is OfParam ==> answer->index < self.registry@.len(),
    {
        if param_id == self.bypass_param_hash {
            if self.bypass_state {
                ValueAnswer::Plain(F64_ONE)
            } else {
                ValueAnswer::Plain(F64_ZERO)
            }
        } else {
            self.param_route(param_id)
        }
    }

    /// Finds the parameter of the plugin that an identifier addresses, with
    /// the step count that scales its plain values.
    pub fn param_route(&self, param_id: u32) -> (answer: ValueAnswer)
        requires
            self.wf(),
        ensures
            answer == value_of_param(self.registry, param_id),
            answer is OfParam ==> answer->index < self.registry@.len(),
    {
        match self.registry.lookup(param_id) {
            Some(index) => {
                let steps = match self.registry.param(index).step_count {
                    Some(steps) => steps,
                    None => 1,
                };
                ValueAnswer::OfParam { index, steps }
            },
            None => ValueAnswer::Failed,
        }
    }

    /// Answers the host's request for the text of a plain value. The bypass
    /// parameter reads "Bypassed" above one half and "Not Bypassed" otherwise.
    pub fn ext_params_value_to_text(&self, param_id: u32, value: u64) -> (answer: TextAnswer)
        requires
            self.wf(),
        ensures
            param_id == bypass_hash() ==> answer is Text && answer->Text_0@ == (if gt_half(value) {
                "Bypassed"@
            } else {
                "Not Bypassed"@
            }),
            param_id != bypass_hash() ==> match value_of_param(self.registry, param_id) {
                ValueAnswer::OfParam { index, steps } => answer is OfParam && answer->index == index
                    && answer->steps == steps && index < self.registry@.len(),
                _ => answer is Failed,
            },
    {
        if param_id == self.bypass_param_hash {
            if is_gt_half(value) {
                TextAnswer::Text("Bypassed".to_owned())
            } else {
                TextAnswer::Text("Not Bypassed".to_owned())
            }
        } else {
            match self.param_route(param_id) {
                ValueAnswer::OfParam { index, steps } => TextAnswer::OfParam { index, steps },
                _ => TextAnswer::Failed,
            }
        }
    }

    /// Answers the host's request for the plain value of a text. The bypass
    /// parameter understands "Bypassed" as 1 and "Not Bypassed" as 0 and no
    /// other text.
    pub fn ext_params_text_to_value(&self, param_id: u32, display: &str) -> (answer: ValueAnswer)
        requires
            self.wf(),
        ensures
            answer == if param_id == bypass_hash() {
                if display@ == "Bypassed"@ {
                    ValueAnswer::Plain(F64_ONE)
                } else if display@ == "Not Bypassed"@ {
                    ValueAnswer::Plain(F64_ZERO)
                } else {
                    ValueAnswer::Failed
                }
            } else {
                value_of_param(self.registry, param_id)
            },
            answer is OfParam ==> answer->index < self.registry@.len(),
    {
        if param_id == self.bypass_param_hash {
            if str_equal(display, "Bypassed") {
                ValueAnswer::Plain(F64_ONE)
            } else if str_equal(display, "Not Bypassed") {
                ValueAnswer::Plain(F64_ZERO)
            } else {
                ValueAnswer::Failed
            }
        } else {
            self.param_route(param_id)
        }
    }

    /// Submits a task from whatever thread the caller is on. `host_answer`
    /// is the host's word on whether this is the main thread, where the host
    /// can tell; `on_creating_thread` says whether this is the thread that
    /// made the instance.
    pub fn do_maybe_async(
        &mut self,
        task: Task,
        host_answer: Option<bool>,
        on_creating_thread: bool,
    ) -> (r: Submission)
        requires
            old(self).wf(),
        ensures
            final(self).wf(),
            final(self).tasks.capacity() == old(self).tasks.capacity(),
            r == (if host_answer == Some(true) || (host_answer is None && on_creating_thread) {
                Submission::RunNow(task)
            } else if old(self).tasks@.len() < old(self).tasks.capacity() {
                Submission::Queued
            } else {
                Submission::Rejected
            }),
            final(self).tasks@ == (if r == Submission::Queued {
                old(self).tasks@.push(task)
            } else {
                old(self).tasks@
            }),
            r is RunNow ==> final(self).tasks == old(self).tasks,
            final(self).registry == old(self).registry,
            final(self).bypass_param_hash == old(self).bypass_param_hash,
            final(self).current_bus_config == old(self).current_bus_config,
            final(self).current_buffer_config == old(self).current_buffer_config,
            final(self).bypass_state == old(self).bypass_state,
            final(self).current_latency == old(self).current_latency,
            final(self).output_buffer == old(self).output_buffer,
            final(self).stage == old(self).stage,
    {
        if is_main_thread(host_answer, on_creating_thread) {
            Submission::RunNow(task)
        } else {
            self.tasks.do_maybe_async(task, false)
        }
    }

    /// Takes all waiting tasks off the queue, on the main thread, for the
    /// caller to run in this order.
    pub fn on_main_thread(&mut self) -> (due: Vec<Task>)
        requires
            old(self).wf(),
        ensures
            final(self).wf(),
            due@ == old(self).tasks@,
            final(self).tasks@.len() == 0,
            final(self).tasks.capacity() == old(self).tasks.capacity(),
            final(self).registry == old(self).registry,
            final(self).bypass_param_hash == old(self).bypass_param_hash,
            final(self).current_bus_config == old(self).current_bus_config,
            final(self).current_buffer_config == old(self).current_buffer_config,
            final(self).bypass_state == old(self).bypass_state,
            final(self).current_latency == old(self).current_latency,
            final(self).output_buffer == old(self).output_buffer,
            final(self).stage == old(self).stage,
    {
        self.tasks.on_main_thread()
    }
}

} // verus!
