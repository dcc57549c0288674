use kiro_synth_host::program::{ParamModulation, ParamValues, Program, ProgramParam, ProgramSource};
use kiro_synth_host::refs::{ParamRef, SourceRef};
use kiro_synth_host::ui::model::modulations::{
    ConfigMode, ConfigRequest, Group, InternalModulation, ModulationCommand, Modulations, Reference, Source, View,
};

fn values(initial_value: f64) -> ParamValues<f64> {
    ParamValues { initial_value, origin: 0.0, min: 0.0, max: 1.0, resolution: 0.01 }
}

fn param(id: &str, initial_value: f64, modulations: Vec<(usize, f64)>) -> ProgramParam<f64> {
    ProgramParam {
        id: id.to_string(),
        values: values(initial_value),
        modulations: modulations
            .into_iter()
            .map(|(source, amount)| ParamModulation { source_ref: SourceRef(source), amount })
            .collect(),
    }
}

fn program() -> Program<f64> {
    Program {
        sources: vec![ProgramSource { id: "eg1".to_string() }, ProgramSource { id: "lfo1".to_string() }],
        params: vec![
            param("osc1-amplitude", 0.5, vec![(0, 0.25), (1, 0.5)]),
            param("filter-freq", 0.75, vec![(1, 0.125), (5, 0.875)]),
            param("dca-pan", 0.0, vec![]),
        ],
    }
}

fn summary(mods: &Modulations<f64>) -> Vec<(usize, usize, f64)> {
    mods.modulations.iter().map(|m| (m.source_ref.0, m.param_ref.0, m.amount)).collect()
}

fn rows(group: &Group<f64>) -> Vec<(usize, String, f64)> {
    group.modulations.iter().map(|m| (m.index, m.name.clone(), m.amount)).collect()
}

#[test]
fn list_from_program() {
    let mods = Modulations::new(&program(), 0.0);
    assert_eq!(mods.view, View::GroupBySource);
    assert_eq!(mods.config_source, None);
    assert_eq!(mods.sources.len(), 2);
    assert_eq!(mods.sources[1].name, "lfo1");
    assert_eq!(mods.sources[1].reference, SourceRef(1));
    assert_eq!(mods.params.len(), 3);
    assert_eq!(mods.params[1].name, "filter-freq");
    assert_eq!(mods.params[1].value, 0.75);
    assert_eq!(mods.params[1].step, 0.01);
    assert_eq!(summary(&mods), vec![(0, 0, 0.25), (1, 0, 0.5), (1, 1, 0.125)]);
    assert_eq!(mods.modulations[2].source_name, "lfo1");
    assert_eq!(mods.modulations[2].param_name, "filter-freq");
}

#[test]
fn groups_by_source() {
    let mut mods = Modulations::new(&program(), 0.0);
    mods.start_config(SourceRef(1));
    let groups = mods.groups(View::GroupBySource);
    assert_eq!(groups.len(), 2);
    assert_eq!(groups[0].index, 0);
    assert_eq!(groups[0].reference, Reference::Source(SourceRef(0)));
    assert_eq!(groups[0].name, "eg1");
    assert_eq!(groups[0].config_mode, ConfigMode::Ready);
    assert_eq!(rows(&groups[0]), vec![(0, "osc1-amplitude".to_string(), 0.25)]);
    assert_eq!(groups[1].name, "lfo1");
    assert_eq!(groups[1].config_mode, ConfigMode::Ongoing);
    assert_eq!(
        rows(&groups[1]),
        vec![(1, "osc1-amplitude".to_string(), 0.5), (2, "filter-freq".to_string(), 0.125)]
    );
    assert_eq!(mods.count(View::GroupBySource), 5);
    assert_eq!(mods.data_len(), 5);
    assert_eq!(mods.view_groups().len(), 2);
}

#[test]
fn groups_by_param() {
    let mods = Modulations::new(&program(), 0.0);
    let groups = mods.groups(View::GroupByParam);
    assert_eq!(groups.len(), 2);
    assert_eq!(groups[0].reference, Reference::Param(ParamRef(0)));
    assert_eq!(groups[0].name, "osc1-amplitude");
    assert_eq!(rows(&groups[0]), vec![(0, "eg1".to_string(), 0.25), (1, "lfo1".to_string(), 0.5)]);
    assert_eq!(groups[1].index, 1);
    assert_eq!(groups[1].name, "filter-freq");
    assert_eq!(groups[1].config_mode, ConfigMode::Ready);
    assert_eq!(rows(&groups[1]), vec![(2, "lfo1".to_string(), 0.125)]);
    assert_eq!(mods.count(View::GroupByParam), 3);
}

#[test]
fn source_group_without_modulations() {
    let mut program = program();
    program.sources.push(ProgramSource { id: "eg2".to_string() });
    let mods = Modulations::new(&program, 0.0);
    let groups = mods.groups(View::GroupBySource);
    assert_eq!(groups.len(), 3);
    assert_eq!(groups[2].name, "eg2");
    assert!(groups[2].modulations.is_empty());
    assert_eq!(mods.count(View::GroupBySource), 6);
}

#[test]
fn config_starts_and_stops() {
    let mut mods = Modulations::new(&program(), 0.0);
    mods.start_config(SourceRef(0));
    assert_eq!(mods.config_source, Some(SourceRef(0)));
    mods.stop_config(SourceRef(1));
    assert_eq!(mods.config_source, Some(SourceRef(0)));
    mods.stop_config(SourceRef(0));
    assert_eq!(mods.config_source, None);
}

#[test]
fn amounts_by_param_and_source() {
    let mods = Modulations::new(&program(), 0.0);
    let config = mods.get_config_amounts_by_param(SourceRef(1));
    assert_eq!(config.len(), 2);
    assert_eq!(config.get(&0), Some(&0.5));
    assert_eq!(config.get(&1), Some(&0.125));
    assert_eq!(mods.get_config_amounts_by_param(SourceRef(7)).len(), 0);
    assert_eq!(mods.get_total_amounts_for_param(ParamRef(0)), vec![0.25, 0.5]);
    assert_eq!(mods.get_total_amounts_for_param(ParamRef(2)), Vec::<f64>::new());
    let by_param = mods.get_total_amounts_by_param();
    assert_eq!(by_param.len(), 2);
    assert_eq!(by_param.get(&0), Some(&vec![0.25, 0.5]));
    assert_eq!(by_param.get(&1), Some(&vec![0.125]));
    assert_eq!(by_param.get(&2), None);
}

#[test]
fn update_existing_modulation() {
    let mut mods = Modulations::new(&program(), 0.0);
    let command = mods.update_modulation(SourceRef(1), ParamRef(0), 0.375);
    assert_eq!(command, None);
    assert_eq!(summary(&mods), vec![(0, 0, 0.25), (1, 0, 0.375), (1, 1, 0.125)]);
    assert_eq!(mods.get_config_amounts_by_param(SourceRef(1)).get(&0), Some(&0.375));
}

#[test]
fn update_adds_missing_modulation() {
    let mut mods = Modulations::new(&program(), 0.0);
    let command = mods.update_modulation(SourceRef(0), ParamRef(2), 0.625);
    assert_eq!(
        command,
        Some(ModulationCommand::Update { source_ref: SourceRef(0), param_ref: ParamRef(2), amount: 0.625 })
    );
    assert_eq!(mods.modulations.len(), 4);
    let added = &mods.modulations[3];
    assert_eq!(added.source_name, "eg1");
    assert_eq!(added.param_name, "dca-pan");
    assert_eq!(added.amount, 0.625);
    assert_eq!(added.max, 1.0);
    assert_eq!(mods.get_config_amounts_by_param(SourceRef(0)).get(&2), Some(&0.625));
    assert_eq!(mods.get_total_amounts_for_param(ParamRef(2)), vec![0.625]);
}

#[test]
fn delete_then_add_again() {
    let mut mods = Modulations::new(&program(), 0.0);
    let command = mods.delete_modulation(SourceRef(0), ParamRef(0));
    assert_eq!(command, ModulationCommand::Delete { source_ref: SourceRef(0), param_ref: ParamRef(0) });
    assert_eq!(summary(&mods), vec![(1, 0, 0.5), (1, 1, 0.125)]);
    let again = mods.delete_modulation(SourceRef(0), ParamRef(0));
    assert_eq!(again, ModulationCommand::Delete { source_ref: SourceRef(0), param_ref: ParamRef(0) });
    assert_eq!(mods.modulations.len(), 2);

    let mut added = Modulations::new(&program(), 0.0);
    let modulation = InternalModulation {
        source_ref: SourceRef(0),
        source_name: "eg1".to_string(),
        param_ref: ParamRef(2),
        param_name: "dca-pan".to_string(),
        origin: 0.0,
        min: 0.0,
        max: 1.0,
        step: 0.01,
        amount: 0.5,
    };
    let command = added.add_modulation(modulation);
    assert_eq!(command, ModulationCommand::Update { source_ref: SourceRef(0), param_ref: ParamRef(2), amount: 0.5 });
    added.delete_modulation(SourceRef(0), ParamRef(2));
    assert_eq!(summary(&added), summary(&Modulations::new(&program(), 0.0)));
}

#[test]
fn edited_group_writes_amounts_back() {
    let mut mods = Modulations::new(&program(), 0.0);
    let mut group = mods.groups(View::GroupBySource).remove(1);
    group.modulations[0].amount = 0.0625;
    group.modulations[1].amount = 0.9375;
    mods.update_amounts_from_group(&group);
    assert_eq!(summary(&mods), vec![(0, 0, 0.25), (1, 0, 0.0625), (1, 1, 0.9375)]);
}

#[test]
fn lookups_by_reference() {
    let mods = Modulations::new(&program(), 0.0);
    assert_eq!(mods.get_source(SourceRef(1)).map(|s| s.name.clone()), Some("lfo1".to_string()));
    assert!(mods.get_source(SourceRef(2)).is_none());
    assert_eq!(mods.get_param(ParamRef(2)).map(|p| p.name.clone()), Some("dca-pan".to_string()));
    assert!(mods.get_param(ParamRef(3)).is_none());
    let program = program();
    assert_eq!(program.get_source(SourceRef(0)).map(|s| s.id.clone()), Some("eg1".to_string()));
    assert!(program.get_source(SourceRef(2)).is_none());
    assert_eq!(program.get_param(ParamRef(1)).map(|p| p.values.initial_value), Some(0.75));
    assert!(program.get_param(ParamRef(3)).is_none());
}

#[test]
fn references_and_rows() {
    assert!(Reference::Source(SourceRef(2)).matches(Some(SourceRef(2))));
    assert!(!Reference::Source(SourceRef(2)).matches(Some(SourceRef(1))));
    assert!(!Reference::Source(SourceRef(2)).matches(None));
    assert!(!Reference::Param(ParamRef(2)).matches(Some(SourceRef(2))));
    assert_eq!(Reference::Param(ParamRef(4)).key(), 4);
    assert_eq!(usize::from(Reference::Source(SourceRef(3))), 3);
    let source = Source { name: "eg1".to_string(), reference: SourceRef(0) };
    assert_eq!(source.name(), "eg1");
    assert_eq!(source.reference(), Reference::Source(SourceRef(0)));
    let mods = Modulations::new(&program(), 0.0);
    let row = mods.modulations[1].as_modulation(1, "lfo1".to_string());
    assert_eq!(row.index, 1);
    assert_eq!(row.name, "lfo1");
    assert_eq!(row.amount, 0.5);
    assert_eq!(row.param_ref, ParamRef(0));
}

#[test]
fn config_arrow_requests() {
    let mut mods = Modulations::new(&program(), 0.0);
    mods.start_config(SourceRef(1));
    let groups = mods.groups(View::GroupBySource);
    assert_eq!(groups[0].config_request(), Some(ConfigRequest::Start(SourceRef(0))));
    assert_eq!(groups[1].config_request(), Some(ConfigRequest::Stop(SourceRef(1))));
    let by_param = mods.groups(View::GroupByParam);
    assert_eq!(by_param[0].config_request(), None);
    mods.stop_config(SourceRef(1));
    let groups = mods.groups(View::GroupBySource);
    assert_eq!(groups[1].config_request(), Some(ConfigRequest::Start(SourceRef(1))));
    let mut disabled = groups[1].clone();
    disabled.config_mode = ConfigMode::Disabled;
    assert_eq!(disabled.config_request(), None);
}
