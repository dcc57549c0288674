use std::collections::HashMap;

use kiro_synth_host::program::kiro::KiroParams;
use kiro_synth_host::program::params::{
    DcaParams, EnvGenParams, FilterParams, LfoParams, OscParams, ParamBlock, SignalRef,
};
use kiro_synth_host::program::{ParamModulation, ParamValues, Program, ProgramParam, ProgramSource};
use kiro_synth_host::refs::{ParamRef, SourceRef};
use kiro_synth_host::ui::data::header::SelectedView;
use kiro_synth_host::ui::knob::KnobModel;
use kiro_synth_host::ui::model::eg::EgFromSynth;
use kiro_synth_host::ui::model::filter::FilterFromSynth;
use kiro_synth_host::ui::model::lfo::{Lfo, LfoFromSynth};
use kiro_synth_host::ui::model::modulations::{ModulationCommand, View};
use kiro_synth_host::ui::model::oscillators::OscFromSynth;
use kiro_synth_host::ui::model::param::{KnobDataFromParam, Param, ParamToKnobData, ParamUpdate};
use kiro_synth_host::ui::model::synth::{AudioLevel, Synth};
use kiro_synth_host::ui::model::ZeroIndex;
use kiro_synth_host::ui::params::{ParamInfo, SynthParams};
use kiro_synth_host::ui::widgets::knob::{KnobData, KnobModulationData};

fn block(index: usize) -> ParamBlock {
    ParamBlock { reference: ParamRef(index), signal: SignalRef(index) }
}

fn osc(first: usize) -> OscParams {
    OscParams {
        shape: block(first),
        amplitude: block(first + 1),
        octaves: block(first + 2),
        semitones: block(first + 3),
        cents: block(first + 4),
    }
}

fn kiro_params() -> KiroParams {
    KiroParams {
        pitch_bend: block(0),
        eg1: EnvGenParams {
            attack: block(1),
            decay: block(2),
            sustain: block(3),
            release: block(4),
            mode: block(5),
            legato: block(6),
            reset_to_zero: block(7),
            dca_mod: block(8),
        },
        osc1: osc(9),
        osc2: osc(14),
        osc3: osc(19),
        osc4: osc(24),
        filt1: FilterParams { mode: block(29), freq: block(30), q: block(31) },
        dca: DcaParams { amplitude: block(32), pan: block(33) },
    }
}

fn program() -> Program<f64> {
    let params = (0..34)
        .map(|i| ProgramParam {
            id: format!("p{}", i),
            values: ParamValues {
                initial_value: i as f64,
                origin: 1.0,
                min: -(i as f64),
                max: 100.0 + i as f64,
                resolution: 0.5,
            },
            modulations: match i {
                1 => vec![ParamModulation { source_ref: SourceRef(0), amount: 0.5 }],
                30 => vec![
                    ParamModulation { source_ref: SourceRef(1), amount: 0.25 },
                    ParamModulation { source_ref: SourceRef(0), amount: 0.125 },
                ],
                _ => vec![],
            },
        })
        .collect();
    Program {
        sources: vec![ProgramSource { id: "eg1".to_string() }, ProgramSource { id: "lfo1".to_string() }],
        params,
    }
}

fn silence() -> AudioLevel<f64> {
    AudioLevel { peak: -90.0, level: -90.0 }
}

#[test]
fn param_from_program() {
    let program = program();
    let param = Param::new(&program, ParamRef(3), 0.0);
    assert_eq!(param.param_ref, ParamRef(3));
    assert_eq!(param.name, "p3");
    assert_eq!(param.value, 3.0);
    assert_eq!(param.origin, 1.0);
    assert_eq!(param.min, -3.0);
    assert_eq!(param.max, 103.0);
    assert_eq!(param.step, 0.5);
    assert_eq!(param.modulation, KnobModulationData::new(0.0, None, 0.0, 0.0));
    let moved = param.duplicate().with_origin(2.0);
    assert_eq!(moved.origin, 2.0);
    assert_eq!(moved.value, 3.0);
    let same = Param::from(ParamRef(3), &program.params[3], 0.0);
    assert_eq!(same.name, param.name);
}

#[test]
fn param_updates() {
    let program = program();
    let mut param = Param::new(&program, ParamRef(2), 0.0);
    let mut totals = HashMap::new();
    totals.insert(2usize, 0.75);
    param.apply(&ParamUpdate::TotalAmounts { totals: totals.clone(), zero: 0.0 });
    assert_eq!(param.modulation.total_amount, 0.75);

    let mut config = HashMap::new();
    config.insert(2usize, 0.25);
    param.apply(&ParamUpdate::StartConfig {
        config_source: Some(1),
        config_amounts: config,
        totals: HashMap::new(),
        zero: 0.0,
    });
    assert_eq!(param.modulation, KnobModulationData::new(0.0, Some(1), 0.25, 0.0));

    param.apply(&ParamUpdate::ParamAmounts { param_ref: ParamRef(5), config_amount: Some(9.0), total_amount: 9.0 });
    assert_eq!(param.modulation, KnobModulationData::new(0.0, Some(1), 0.25, 0.0));
    param.apply(&ParamUpdate::ParamAmounts { param_ref: ParamRef(2), config_amount: None, total_amount: 0.5 });
    assert_eq!(param.modulation, KnobModulationData::new(0.0, Some(1), 0.25, 0.5));
    param.apply(&ParamUpdate::ParamAmounts { param_ref: ParamRef(2), config_amount: Some(0.125), total_amount: 0.5 });
    assert_eq!(param.modulation.config_amount, 0.125);

    param.apply(&ParamUpdate::StopConfig { config_source: Some(1), zero: 0.0 });
    assert_eq!(param.modulation, KnobModulationData::new(0.0, Some(1), 0.125, 0.5));
    param.apply(&ParamUpdate::StopConfig { config_source: None, zero: 0.0 });
    assert_eq!(param.modulation, KnobModulationData::new(0.0, None, 0.0, 0.5));

    param.apply(&ParamUpdate::ModulationValues { values: vec![0.0, 0.0, 0.375] });
    assert_eq!(param.modulation.value, 0.375);
    assert_eq!(param.value, 2.0);
}

#[test]
fn knob_lenses() {
    let program = program();
    let mut param = Param::new(&program, ParamRef(4), 0.0);
    let knob = KnobDataFromParam.knob_data(&param);
    assert_eq!(knob.value, 4.0);
    assert_eq!(knob.min, -4.0);
    assert_eq!(knob.context.name, "p4");
    assert_eq!(KnobDataFromParam.with(&param, |k: &KnobData<f64, Param<f64>>| k.max), 104.0);
    let turned = KnobData::new(0.0, 0.0, 0.0, 0.0, 7.5, param.modulation, param.duplicate());
    KnobDataFromParam.write_back(&mut param, &turned);
    assert_eq!(param.value, 7.5);
    assert_eq!(param.min, -4.0);

    let model = ParamToKnobData.knob_model(&param);
    assert_eq!(model, KnobModel::new(7.5, 0.0));
    assert_eq!(ParamToKnobData.with(&param, |m: &KnobModel<f64>| m.value), 7.5);
    ParamToKnobData.write_back(&mut param, &KnobModel { value: 1.5, modulation: 99.0 });
    assert_eq!(param.value, 1.5);
    assert_eq!(param.modulation.value, 0.0);

    let data = KnobData::new(1.0, 0.0, 2.0, 0.1, 1.0, KnobModulationData::new(0.0, None, 0.0, 0.0), 3u8)
        .with_modulation(KnobModulationData::new(0.5, Some(2), 0.25, 0.75));
    assert_eq!(data.modulation.config_source, Some(2));
    assert_eq!(data.context, 3);
}

#[test]
fn synth_from_program() {
    let program = program();
    let params = kiro_params();
    let synth = Synth::new(&program, &params, silence(), 0.0);
    assert_eq!(synth.active_voices, 0);
    assert_eq!(synth.left_level, silence());
    assert_eq!(synth.osc.len(), 4);
    assert_eq!(synth.osc[2].shape.name, "p19");
    assert_eq!(synth.osc[0].octaves.origin, 0.0);
    assert_eq!(synth.osc[0].shape.origin, 1.0);
    assert_eq!(synth.eg.len(), 1);
    assert_eq!(synth.eg[0].dca_intensity.param_ref, ParamRef(8));
    assert!(synth.lfo.is_empty());
    assert_eq!(synth.filter[0].freq.value, 30.0);
    assert_eq!(synth.dca.pan.origin, 0.0);
    assert_eq!(synth.dca.amplitude.origin, 1.0);
    assert_eq!(synth.modulations.view, View::GroupBySource);
    assert_eq!(synth.modulations.modulations.len(), 3);
    assert_eq!(synth.modulations.params.len(), 34);
}

#[test]
fn lenses_on_the_synth() {
    let program = program();
    let mut synth = Synth::new(&program, &kiro_params(), silence(), 0.0);
    synth.osc_index = 3;
    assert_eq!(OscFromSynth.with(&synth, |o| o.cents.name.clone()), "p28");
    OscFromSynth.target_mut(&mut synth).amplitude.value = 0.5;
    assert_eq!(synth.osc[3].amplitude.value, 0.5);
    assert_eq!(synth.osc[0].amplitude.value, 10.0);
    assert_eq!(EgFromSynth.with(&synth, |e| e.attack.value), 1.0);
    EgFromSynth.target_mut(&mut synth).sustain.value = 0.25;
    assert_eq!(synth.eg[0].sustain.value, 0.25);
    assert_eq!(FilterFromSynth.with(&synth, |f| f.q.name.clone()), "p31");
    FilterFromSynth.target_mut(&mut synth).q.value = 2.0;
    assert_eq!(synth.filter[0].q.value, 2.0);
    assert_eq!(ZeroIndex.index(&synth), 0);
    assert_eq!(ZeroIndex.with(&synth, |i| *i + 1), 1);
    assert_eq!(kiro_synth_host::ui::data::synth::ZeroIndex.index(&synth), 0);

    let lfo = Lfo::new(
        &program,
        &LfoParams { shape: block(10), rate: block(11), phase: block(12), depth: block(13) },
        0.0,
    );
    synth.lfo.push(lfo);
    synth.mod_index = 1;
    assert_eq!(LfoFromSynth.with(&synth, |l| l.rate.name.clone()), "p11");
    LfoFromSynth.target_mut(&mut synth).depth.value = 0.0;
    assert_eq!(synth.lfo[0].depth.value, 0.0);
}

#[test]
fn synth_modulation_config() {
    let program = program();
    let synth = Synth::new(&program, &kiro_params(), silence(), 0.0);
    let mut totals = HashMap::new();
    totals.insert(1usize, 0.5);
    totals.insert(30usize, 0.375);
    let mut synth = synth.with_init_modulations_config(totals.clone(), 0.0);
    assert_eq!(synth.eg[0].attack.modulation.total_amount, 0.5);
    assert_eq!(synth.filter[0].freq.modulation.total_amount, 0.375);
    assert_eq!(synth.filter[0].q.modulation.total_amount, 0.0);

    synth.start_modulations_config(SourceRef(0), totals, 0.0);
    assert_eq!(synth.modulations.config_source, Some(SourceRef(0)));
    assert_eq!(synth.eg[0].attack.modulation.config_source, Some(0));
    assert_eq!(synth.eg[0].attack.modulation.config_amount, 0.5);
    assert_eq!(synth.filter[0].freq.modulation.config_amount, 0.125);
    assert_eq!(synth.filter[0].q.modulation.config_amount, 0.0);
    assert_eq!(synth.eg[0].mode.modulation.config_source, None);

    let (command, same_source) = synth.update_modulations_config(SourceRef(0), ParamRef(1), 0.625);
    assert_eq!(command, None);
    assert!(same_source);
    synth.show_modulation_amounts(SourceRef(0), ParamRef(1), 0.625, 0.625);
    assert_eq!(synth.eg[0].attack.modulation.config_amount, 0.625);
    assert_eq!(synth.eg[0].attack.modulation.total_amount, 0.625);
    synth.show_modulation_amounts(SourceRef(1), ParamRef(1), 0.25, 0.875);
    assert_eq!(synth.eg[0].attack.modulation.config_amount, 0.625);
    assert_eq!(synth.eg[0].attack.modulation.total_amount, 0.875);
    let (command, same_source) = synth.update_modulations_config(SourceRef(1), ParamRef(2), 0.25);
    assert_eq!(
        command,
        Some(ModulationCommand::Update { source_ref: SourceRef(1), param_ref: ParamRef(2), amount: 0.25 })
    );
    assert!(!same_source);
    assert_eq!(synth.modulations.modulations.len(), 4);

    let command = synth.delete_modulation(SourceRef(1), ParamRef(30));
    assert_eq!(command, ModulationCommand::Delete { source_ref: SourceRef(1), param_ref: ParamRef(30) });
    assert_eq!(synth.modulations.modulations.len(), 3);

    synth.stop_modulations_config(SourceRef(1), 0.0);
    assert_eq!(synth.modulations.config_source, Some(SourceRef(0)));
    assert_eq!(synth.eg[0].attack.modulation.config_source, Some(0));
    assert_eq!(synth.eg[0].attack.modulation.config_amount, 0.625);

    synth.stop_modulations_config(SourceRef(0), 0.0);
    assert_eq!(synth.modulations.config_source, None);
    assert_eq!(synth.eg[0].attack.modulation.config_source, None);
    assert_eq!(synth.eg[0].attack.modulation.config_amount, 0.0);
    assert_eq!(synth.eg[0].attack.modulation.total_amount, 0.875);
}

#[test]
fn synth_feedback() {
    let program = program();
    let mut synth = Synth::new(&program, &kiro_params(), silence(), 0.0);
    let values: Vec<f64> = (0..34).map(|i| i as f64 / 100.0).collect();
    let left = AudioLevel { peak: -3.0, level: -6.0 };
    let right = AudioLevel { peak: -4.0, level: -7.0 };
    synth.update_feedback(5, left, right, values);
    assert_eq!(synth.active_voices, 5);
    assert_eq!(synth.left_level, left);
    assert_eq!(synth.right_level, right);
    assert_eq!(synth.eg[0].release.modulation.value, 0.04);
    assert_eq!(synth.eg[0].legato.modulation.value, 0.0);
    assert_eq!(synth.osc[1].cents.modulation.value, 0.18);
    assert_eq!(synth.osc[1].shape.modulation.value, 0.0);
    assert_eq!(synth.dca.pan.modulation.value, 0.33);
    assert_eq!(synth.filter[0].mode.modulation.value, 0.0);
}

#[test]
fn earlier_interface_params() {
    let program = program();
    let info = ParamInfo::new(&program, ParamRef(5));
    assert_eq!(info.initial_value, 5.0);
    assert_eq!(info.center, -5.0);
    assert_eq!(info.min, -5.0);
    assert_eq!(info.max, 105.0);
    assert_eq!(info.step, 0.5);
    let params = SynthParams::new(&program, &kiro_params());
    assert_eq!(params.osc1.shape.param_ref, ParamRef(19));
    assert_eq!(params.osc2.octave.param_ref, ParamRef(26));
    assert_eq!(params.eg1.dca_intensity.param_ref, ParamRef(8));
    assert_eq!(SelectedView::Presets.title(), "Presets");
}

#[test]
fn total_amount_after_delete() {
    let program = program();
    let mut synth = Synth::new(&program, &kiro_params(), silence(), 0.0);
    synth.start_modulations_config(SourceRef(1), HashMap::new(), 0.0);
    let command = synth.delete_modulation(SourceRef(1), ParamRef(30));
    assert_eq!(command, ModulationCommand::Delete { source_ref: SourceRef(1), param_ref: ParamRef(30) });
    synth.show_total_amount(ParamRef(30), 0.125);
    assert_eq!(synth.filter[0].freq.modulation.total_amount, 0.125);
    assert_eq!(synth.filter[0].freq.modulation.config_amount, 0.25);
    assert_eq!(synth.filter[0].freq.modulation.config_source, Some(1));
    assert_eq!(synth.filter[0].q.modulation.total_amount, 0.0);
}
