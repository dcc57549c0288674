use vstd::prelude::*;

use crate::midi::mapper::{relative_message, MidiMapper, ParamMessage, PitchBendMapping, Transform};
use crate::midi::tables::MAX_MAPPINGS;
use crate::program::Program;
use crate::program::params::{DcaParams, EnvGenParams, FilterParams, OscParams, ParamBlock, SignalRef};
use crate::refs::ParamRef;

verus! {

/// The parameters of the Kiro synth program.
#[derive(Debug, Clone, Copy, PartialEq, Eq, Structural)]
pub struct KiroParams {
    pub pitch_bend: ParamBlock,
    pub eg1: EnvGenParams,
    pub osc1: OscParams,
    pub osc2: OscParams,
    pub osc3: OscParams,
    pub osc4: OscParams,
    pub filt1: FilterParams,
    pub dca: DcaParams,
}

impl KiroParams {
    /// Whether every parameter refers to one of the first `n` parameters of
    /// the program.
    pub open spec fn refs_within(self, n: nat) -> bool {
        &&& self.pitch_bend.reference.0 < n
        &&& self.eg1.refs_within(n)
        &&& self.osc1.refs_within(n)
        &&& self.osc2.refs_within(n)
        &&& self.osc3.refs_within(n)
        &&& self.osc4.refs_within(n)
        &&& self.filt1.refs_within(n)
        &&& self.dca.refs_within(n)
    }
}

/// The signals of the Kiro synth program.
#[derive(Debug, Clone, Copy, PartialEq, Eq, Structural)]
pub struct KiroSignals {
    pub eg1_normal: SignalRef,
    pub eg1_biased: SignalRef,
    pub osc1: SignalRef,
    pub osc2: SignalRef,
    pub osc3: SignalRef,
    pub osc4: SignalRef,
    pub filt1: SignalRef,
    pub dca_left: SignalRef,
    pub dca_right: SignalRef,
}

/// The parameters and signals of the Kiro synth program.
#[derive(Debug, Clone, Copy, PartialEq, Eq, Structural)]
pub struct KiroModule {
    pub params: KiroParams,
    pub signals: KiroSignals,
}

/// The MIDI controllers of the Kiro synth and the parameter that each
/// changes, as a relative control: 26 and 27 the amplifier, 29 to 36 the
/// first envelope generator, 41 to 45 the third oscillator, 49 to 53 the
/// fourth, and 54 to 56 the filter.
pub open spec fn kiro_controllers(params: KiroParams) -> Seq<(u8, ParamRef)> {
    seq![
        (26u8, params.dca.amplitude.reference),
        (27u8, params.dca.pan.reference),
        (29u8, params.eg1.attack.reference),
        (30u8, params.eg1.decay.reference),
        (31u8, params.eg1.sustain.reference),
        (32u8, params.eg1.release.reference),
        (33u8, params.eg1.mode.reference),
        (34u8, params.eg1.legato.reference),
        (35u8, params.eg1.reset_to_zero.reference),
        (36u8, params.eg1.dca_mod.reference),
        (41u8, params.osc3.amplitude.reference),
        (42u8, params.osc3.shape.reference),
        (43u8, params.osc3.octaves.reference),
        (44u8, params.osc3.semitones.reference),
        (45u8, params.osc3.cents.reference),
        (49u8, params.osc4.amplitude.reference),
        (50u8, params.osc4.shape.reference),
        (51u8, params.osc4.octaves.reference),
        (52u8, params.osc4.semitones.reference),
        (53u8, params.osc4.cents.reference),
        (54u8, params.filt1.mode.reference),
        (55u8, params.filt1.freq.reference),
        (56u8, params.filt1.q.reference),
    ]
}

/// The parameter of the last entry of `table` for `controller` whose
/// parameter is one of the first `n` parameters of the program, if any.
pub open spec fn controller_param(table: Seq<(u8, ParamRef)>, n: nat, controller: u8) -> Option<ParamRef>
    decreases table.len(),
{
    if table.len() == 0 {
        None
    } else if table.last().0 == controller && table.last().1.0 < n {
        Some(table.last().1)
    } else {
        controller_param(table.drop_last(), n, controller)
    }
}

/// The message of a relative control of `param` for `midi_value`: none
/// without a parameter or at the centre value 64.
pub open spec fn relative_change(param: Option<ParamRef>, midi_value: u8) -> Option<ParamMessage> {
    match param {
        Some(param_ref) => relative_message(param_ref, midi_value),
        None => None,
    }
}

/// The pitch bend mapping of the Kiro synth: onto the pitch bend parameter,
/// when the program has it.
pub open spec fn kiro_pitch_bend(params: KiroParams, n: nat) -> Option<PitchBendMapping> {
    if params.pitch_bend.reference.0 < n {
        Some(PitchBendMapping { param_ref: params.pitch_bend.reference, transform: Transform::MinMaxU14 })
    } else {
        None
    }
}

/// The parameter `param_ref`, when `program` has it.
fn program_param<F>(program: &Program<F>, param_ref: ParamRef) -> (param: Option<ParamRef>)
    ensures
        param == (if param_ref.0 < program.params@.len() { Some(param_ref) } else { None::<ParamRef> }),
{
    match program.get_param(param_ref) {
        Some(_) => Some(param_ref),
        None => None,
    }
}

/// The MIDI mapper of the Kiro synth: pitch bend onto the pitch bend
/// parameter, and each controller of `kiro_controllers` onto its parameter
/// as a relative control; a parameter that the program lacks is not mapped.
pub fn create_midi_mapper<F>(program: &Program<F>, params: &KiroParams) -> (mapper: MidiMapper)
    ensures
        mapper@.wf(),
        mapper@.mappings.len() < MAX_MAPPINGS,
        forall|controller: u8| #[trigger] mapper@.controller_ready(controller),
        mapper@.pitch_bend == kiro_pitch_bend(*params, program.params@.len()),
        forall|controller: u8, midi_value: u8| #[trigger] mapper@.controller_message(controller, midi_value)
            == relative_change(controller_param(kiro_controllers(*params), program.params@.len(), controller), midi_value),
{
    let ghost n = program.params@.len();
    let mut midi_mapper = MidiMapper::new();
    midi_mapper.pitch_bend(program_param(program, params.pitch_bend.reference));
    let controllers: Vec<(u8, ParamRef)> = vec![
        (26u8, params.dca.amplitude.reference),
        (27u8, params.dca.pan.reference),
        (29u8, params.eg1.attack.reference),
        (30u8, params.eg1.decay.reference),
        (31u8, params.eg1.sustain.reference),
        (32u8, params.eg1.release.reference),
        (33u8, params.eg1.mode.reference),
        (34u8, params.eg1.legato.reference),
        (35u8, params.eg1.reset_to_zero.reference),
        (36u8, params.eg1.dca_mod.reference),
        (41u8, params.osc3.amplitude.reference),
        (42u8, params.osc3.shape.reference),
        (43u8, params.osc3.octaves.reference),
        (44u8, params.osc3.semitones.reference),
        (45u8, params.osc3.cents.reference),
        (49u8, params.osc4.amplitude.reference),
        (50u8, params.osc4.shape.reference),
        (51u8, params.osc4.octaves.reference),
        (52u8, params.osc4.semitones.reference),
        (53u8, params.osc4.cents.reference),
        (54u8, params.filt1.mode.reference),
        (55u8, params.filt1.freq.reference),
        (56u8, params.filt1.q.reference),
    ];
    assert(controllers@ =~= kiro_controllers(*params));
    let count = controllers.len();
    assert(controllers@.take(0) =~= Seq::<(u8, ParamRef)>::empty());
    for i in 0..count
        invariant
            count == controllers@.len(),
            count <= 23,
            n == program.params@.len(),
            midi_mapper@.wf(),
            midi_mapper@.mappings.len() <= i,
            midi_mapper@.pitch_bend == kiro_pitch_bend(*params, n),
            forall|controller: u8, midi_value: u8| #[trigger] midi_mapper@.controller_message(controller, midi_value)
                == relative_change(controller_param(controllers@.take(i as int), n, controller), midi_value),
    {
        let ghost before = midi_mapper@;
        let (controller, param_ref) = controllers[i];
        let param = program_param(program, param_ref);
        midi_mapper.rel_controller(controller, param);
        proof {
            assert(controllers@.take(i + 1).drop_last() =~= controllers@.take(i as int));
            assert(controllers@.take(i + 1).last() == controllers@[i as int]);
            assert forall|c: u8, v: u8| #[trigger] midi_mapper@.controller_message(c, v)
                == relative_change(controller_param(controllers@.take(i + 1), n, c), v) by {
                if param is Some {
                    if c == controller {
                        crate::midi::mapper::law_latest_controller_mapping_wins(before, controller, param_ref, v);
                    } else {
                        crate::midi::mapper::law_mapping_leaves_other_controllers(
                            before, controller, param_ref, Transform::Relative64, c, v, 0,
                        );
                    }
                }
            }
        }
    }
    assert(controllers@.take(count as int) =~= controllers@);
    midi_mapper
}

} // verus!
