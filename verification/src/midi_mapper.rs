//! A MIDI mapper, which addresses parameters by their index and maps
//! every controller to an absolute parameter value.
use vstd::prelude::*;

use crate::midi::mapper::MidiInput;
use crate::midi::tables::{
    index_table_entries, mapping_list_items, IndexTable, MappingList, MAX_MAPPINGS,
};

verus! {

/// A 7-bit MIDI controller number.
pub type MidiController = u8;

/// The index of a parameter in the synth program.
pub type ParamIndex = usize;

/// How a raw MIDI value becomes a value of the mapped parameter. The `MinMax`
/// transforms scale onto the mapped parameter's own range and resolution,
/// which whoever holds the parameter's values applies.
#[derive(Debug, Clone, Copy, PartialEq, Eq, Structural)]
pub enum Transform {
    /// The low 7 bits onto `0..=1`.
    UnipolarU7,
    /// The low 14 bits onto `0..=1`.
    UnipolarU14,
    /// The low 7 bits onto `-1..=1`.
    BipolarU7,
    /// The low 14 bits onto `-1..=1`.
    BipolarU14,
    /// The low 7 bits onto the parameter's range.
    MinMaxU7,
    /// The low 14 bits onto the parameter's range.
    MinMaxU14,
}

/// The input that `transform` reads from `midi_value`: its low 7 or 14 bits.
pub open spec fn transform_input(transform: Transform, midi_value: usize) -> MidiInput {
    match transform {
        Transform::UnipolarU7 | Transform::BipolarU7 | Transform::MinMaxU7 => MidiInput::U7(
            (midi_value % 128) as u8,
        ),
        _ => MidiInput::U14((midi_value % 16384) as u16),
    }
}

impl Transform {
    /// The integer input that this transform reads from a raw MIDI value.
    pub fn param_input_from(&self, midi_value: usize) -> (input: MidiInput)
        ensures
            input == transform_input(*self, midi_value),
    {
        match self {
            Transform::UnipolarU7 | Transform::BipolarU7 | Transform::MinMaxU7 => {
                let v = midi_value & 0x7f;
                assert(midi_value & 0x7f == midi_value % 128) by (bit_vector);
                MidiInput::U7(v as u8)
            },
            _ => {
                let v = midi_value & 0x3fff;
                assert(midi_value & 0x3fff == midi_value % 16384) by (bit_vector);
                MidiInput::U14(v as u16)
            },
        }
    }
}

/// The transform stored under `tag` in a mapping table.
pub open spec fn transform_of_tag(tag: u8) -> Transform {
    if tag == 0 {
        Transform::UnipolarU7
    } else if tag == 1 {
        Transform::UnipolarU14
    } else if tag == 2 {
        Transform::BipolarU7
    } else if tag == 3 {
        Transform::BipolarU14
    } else if tag == 4 {
        Transform::MinMaxU7
    } else {
        Transform::MinMaxU14
    }
}

fn tag_of(transform: Transform) -> (tag: u8)
    ensures
        transform_of_tag(tag) == transform,
{
    match transform {
        Transform::UnipolarU7 => 0,
        Transform::UnipolarU14 => 1,
        Transform::BipolarU7 => 2,
        Transform::BipolarU14 => 3,
        Transform::MinMaxU7 => 4,
        Transform::MinMaxU14 => 5,
    }
}

fn transform_from_tag(tag: u8) -> (transform: Transform)
    ensures
        transform == transform_of_tag(tag),
{
    if tag == 0 {
        Transform::UnipolarU7
    } else if tag == 1 {
        Transform::UnipolarU14
    } else if tag == 2 {
        Transform::BipolarU7
    } else if tag == 3 {
        Transform::BipolarU14
    } else if tag == 4 {
        Transform::MinMaxU7
    } else {
        Transform::MinMaxU14
    }
}

/// The message that sets parameter `index` to the value that `transform`
/// gives for `input`.
#[derive(Debug, Clone, Copy, PartialEq, Eq, Structural)]
pub struct ParamMessage {
    pub index: ParamIndex,
    pub transform: Transform,
    pub input: MidiInput,
}

/// The mapping of MIDI pitch bend to one parameter.
#[derive(Debug, Clone, Copy, PartialEq, Eq, Structural)]
pub struct PitchBendMapping {
    pub param_index: ParamIndex,
    pub transform: Transform,
}

/// The mapping of one MIDI controller to one parameter.
#[derive(Debug, Clone, Copy, PartialEq, Eq, Structural)]
pub struct ControllerMapping {
    pub param_index: ParamIndex,
    pub controller: MidiController,
    pub transform: Transform,
}

impl ControllerMapping {
    pub open spec fn from_entry(entry: (usize, u8, u8)) -> ControllerMapping {
        ControllerMapping {
            param_index: entry.0,
            controller: entry.1,
            transform: transform_of_tag(entry.2),
        }
    }
}

/// The contents of a `MidiMapper`.
pub struct MapperModel {
    pub pitch_bend: Option<PitchBendMapping>,
    pub mappings: Seq<ControllerMapping>,
    pub controller_to_mapping: Map<usize, usize>,
    pub param_to_mapping: Map<usize, usize>,
}

impl MapperModel {
    /// The invariant of a mapper, as for the current mapper: every index
    /// entry points at a mapping of its key, except, once the list is full,
    /// an entry added when the list had no room, which points one past it.
    pub open spec fn wf(self) -> bool {
        &&& self.mappings.len() <= MAX_MAPPINGS
        &&& self.controller_to_mapping.dom().finite()
        &&& self.param_to_mapping.dom().finite()
        &&& self.controller_to_mapping.dom().len() <= MAX_MAPPINGS
        &&& self.param_to_mapping.dom().len() <= MAX_MAPPINGS
        &&& self.mappings.len() < MAX_MAPPINGS ==> self.controller_to_mapping.dom().len() <= self.mappings.len()
        &&& self.mappings.len() < MAX_MAPPINGS ==> self.param_to_mapping.dom().len() <= self.mappings.len()
        &&& forall|c: usize| #[trigger] self.controller_to_mapping.dom().contains(c) ==> {
            ||| self.controller_to_mapping[c] < self.mappings.len()
                && self.mappings[self.controller_to_mapping[c] as int].controller as usize == c
            ||| self.controller_to_mapping[c] == self.mappings.len() && self.mappings.len() == MAX_MAPPINGS
        }
        &&& forall|p: usize| #[trigger] self.param_to_mapping.dom().contains(p) ==> {
            ||| self.param_to_mapping[p] < self.mappings.len()
                && self.mappings[self.param_to_mapping[p] as int].param_index == p
            ||| self.param_to_mapping[p] == self.mappings.len() && self.mappings.len() == MAX_MAPPINGS
        }
    }

    /// Whether the entry of `controller`, if any, points at a mapping.
    pub open spec fn controller_ready(self, controller: MidiController) -> bool {
        self.controller_to_mapping.dom().contains(controller as usize)
            ==> self.controller_to_mapping[controller as usize] < self.mappings.len()
    }

    /// The mapper after a mapping of `controller` to parameter `param_index`
    /// is added: appended where the list has room, and bound in each index
    /// map where that map has room.
    pub open spec fn add_mapping(self, controller: MidiController, param_index: ParamIndex, transform: Transform) -> MapperModel {
        let index = self.mappings.len() as usize;
        MapperModel {
            pitch_bend: self.pitch_bend,
            mappings: if self.mappings.len() < MAX_MAPPINGS {
                self.mappings.push(ControllerMapping { param_index, controller, transform })
            } else {
                self.mappings
            },
            controller_to_mapping: if self.controller_to_mapping.dom().len() < MAX_MAPPINGS {
                self.controller_to_mapping.insert(controller as usize, index)
            } else {
                self.controller_to_mapping
            },
            param_to_mapping: if self.param_to_mapping.dom().len() < MAX_MAPPINGS {
                self.param_to_mapping.insert(param_index, index)
            } else {
                self.param_to_mapping
            },
        }
    }

    /// The message for a pitch bend of `midi_value`.
    pub open spec fn pitch_bend_message(self, midi_value: u16) -> Option<ParamMessage> {
        match self.pitch_bend {
            Some(mapping) => Some(ParamMessage {
                index: mapping.param_index,
                transform: mapping.transform,
                input: transform_input(mapping.transform, midi_value as usize),
            }),
            None => None,
        }
    }

    /// The message for `midi_value` on `controller`, if it is mapped.
    pub open spec fn controller_message(self, controller: MidiController, midi_value: u8) -> Option<ParamMessage> {
        if self.controller_to_mapping.dom().contains(controller as usize) {
            let mapping = self.mappings[self.controller_to_mapping[controller as usize] as int];
            Some(ParamMessage {
                index: mapping.param_index,
                transform: mapping.transform,
                input: transform_input(mapping.transform, midi_value as usize),
            })
        } else {
            None
        }
    }
}

/// Maps MIDI pitch bend and controller events to parameter values.
pub struct MidiMapper {
    pitch_bend_mapping: Option<PitchBendMapping>,
    controller_mappings: MappingList,
    controller_to_param: IndexTable,
    param_to_controller: IndexTable,
}

impl View for MidiMapper {
    type V = MapperModel;

    closed spec fn view(&self) -> MapperModel {
        MapperModel {
            pitch_bend: self.pitch_bend_mapping,
            mappings: mapping_list_items(self.controller_mappings).map_values(
                |e: (usize, u8, u8)| ControllerMapping::from_entry(e),
            ),
            controller_to_mapping: index_table_entries(self.controller_to_param),
            param_to_mapping: index_table_entries(self.param_to_controller),
        }
    }
}

impl MidiMapper {
    /// Every mapper is well formed.
    #[verifier::type_invariant]
    spec fn well_formed(self) -> bool {
        self@.wf()
    }

    /// A mapper that maps nothing.
    pub fn new() -> (mapper: MidiMapper)
        ensures
            mapper@.wf(),
            mapper@.pitch_bend == None::<PitchBendMapping>,
            mapper@.mappings == Seq::<ControllerMapping>::empty(),
            mapper@.controller_to_mapping =~= Map::empty(),
            mapper@.param_to_mapping =~= Map::empty(),
    {
        let mapper = MidiMapper {
            pitch_bend_mapping: None,
            controller_mappings: MappingList::new(),
            controller_to_param: IndexTable::new(),
            param_to_controller: IndexTable::new(),
        };
        assert(mapper@.mappings =~= Seq::<ControllerMapping>::empty());
        mapper
    }

    /// Maps pitch bend to parameter `param_index` over its whole range; with
    /// no parameter the mapper is left as it was.
    pub fn pitch_bend(&mut self, param_index: Option<ParamIndex>)
        ensures
            final(self)@.wf(),
            final(self)@.pitch_bend == (match param_index {
                Some(i) => Some(PitchBendMapping { param_index: i, transform: Transform::MinMaxU14 }),
                None => old(self)@.pitch_bend,
            }),
            final(self)@.mappings == old(self)@.mappings,
            final(self)@.controller_to_mapping == old(self)@.controller_to_mapping,
            final(self)@.param_to_mapping == old(self)@.param_to_mapping,
    {
        proof {
            use_type_invariant(&*self);
        }
        if let Some(index) = param_index {
            let transform = Transform::MinMaxU14;
            self.pitch_bend_mapping = Some(PitchBendMapping { param_index: index, transform });
        }
        proof {
            use_type_invariant(&*self);
        }
    }

    /// The message for a pitch bend of `midi_value`, if pitch bend is mapped.
    pub fn map_midi_pitch_bend(&self, midi_value: u16) -> (message: Option<ParamMessage>)
        ensures
            self@.wf(),
            message == self@.pitch_bend_message(midi_value),
    {
        proof {
            use_type_invariant(self);
        }
        match &self.pitch_bend_mapping {
            Some(mapping) => Some(ParamMessage {
                index: mapping.param_index,
                transform: mapping.transform,
                input: mapping.transform.param_input_from(midi_value as usize),
            }),
            None => None,
        }
    }

    /// Maps `midi_controller` to parameter `param_index` over its whole range;
    /// with no parameter the mapper is left as it was.
    pub fn controller(&mut self, midi_controller: MidiController, param_index: Option<ParamIndex>)
        ensures
            final(self)@.wf(),
            final(self)@ == (match param_index {
                Some(i) => old(self)@.add_mapping(midi_controller, i, Transform::MinMaxU7),
                None => old(self)@,
            }),
    {
        proof {
            use_type_invariant(&*self);
        }
        if let Some(index) = param_index {
            let transform = Transform::MinMaxU7;
            self.add_controller_mapping(midi_controller, index, transform)
        }
    }

    fn add_controller_mapping(&mut self, midi_controller: MidiController, param_index: ParamIndex, transform: Transform)
        ensures
            final(self)@.wf(),
            final(self)@ == old(self)@.add_mapping(midi_controller, param_index, transform),
    {
        proof {
            use_type_invariant(&*self);
        }
        let ghost before = self@;
        // The tables are taken out of the mapper while they change, so that the
        // mapper is well formed at every step.
        let mut taken = MidiMapper::new();
        std::mem::swap(&mut taken, self);
        proof {
            use_type_invariant(&taken);
        }
        let MidiMapper { pitch_bend_mapping, mut controller_mappings, mut controller_to_param, mut param_to_controller } =
            taken;
        let mapping_index = controller_mappings.len();
        let tag = tag_of(transform);
        let pushed = controller_mappings.push((param_index, midi_controller, tag));
        let inserted_controller = controller_to_param.insert(midi_controller as usize, mapping_index);
        let inserted_param = param_to_controller.insert(param_index, mapping_index);
        let updated = MidiMapper { pitch_bend_mapping, controller_mappings, controller_to_param, param_to_controller };
        proof {
            let expected = before.add_mapping(midi_controller, param_index, transform);
            let mapping = ControllerMapping { param_index, controller: midi_controller, transform };
            assert(ControllerMapping::from_entry((param_index, midi_controller, tag)) == mapping);
            if pushed {
                assert(updated@.mappings =~= before.mappings.push(mapping));
            } else {
                assert(updated@.mappings =~= before.mappings);
            }
            assert(updated@.mappings == expected.mappings);
            assert(updated@.controller_to_mapping == expected.controller_to_mapping);
            assert(updated@.param_to_mapping == expected.param_to_mapping);
            lemma_legacy_add_mapping_wf(before, midi_controller, param_index, transform);
        }
        *self = updated;
    }

    fn get_controller_mapping(&self, controller: MidiController) -> (mapping: Option<ControllerMapping>)
        requires
            self@.controller_ready(controller),
        ensures
            mapping == (if self@.controller_to_mapping.dom().contains(controller as usize) {
                Some(self@.mappings[self@.controller_to_mapping[controller as usize] as int])
            } else {
                None::<ControllerMapping>
            }),
    {
        proof {
            use_type_invariant(self);
        }
        match self.controller_to_param.get(controller as usize) {
            Some(mapping_index) => {
                let entry = self.controller_mappings.get(mapping_index);
                let transform = transform_from_tag(entry.2);
                Some(ControllerMapping { param_index: entry.0, controller: entry.1, transform })
            },
            None => None,
        }
    }

    /// The message for `midi_value` on `controller`, if it is mapped.
    pub fn map_midi_controller(&self, controller: MidiController, midi_value: u8) -> (message: Option<ParamMessage>)
        requires
            self@.controller_ready(controller),
        ensures
            self@.wf(),
            message == self@.controller_message(controller, midi_value),
    {
        proof {
            use_type_invariant(self);
        }
        match self.get_controller_mapping(controller) {
            Some(mapping) => Some(ParamMessage {
                index: mapping.param_index,
                transform: mapping.transform,
                input: mapping.transform.param_input_from(midi_value as usize),
            }),
            None => None,
        }
    }
}

/// Adding a mapping keeps a mapper well formed, whether or not its tables
/// have room.
proof fn lemma_legacy_add_mapping_wf(model: MapperModel, controller: MidiController, param_index: ParamIndex, transform: Transform)
    requires
        model.wf(),
    ensures
        model.add_mapping(controller, param_index, transform).wf(),
{
    let after = model.add_mapping(controller, param_index, transform);
    let len = model.mappings.len();
    let key = controller as usize;
    if model.controller_to_mapping.dom().len() < MAX_MAPPINGS {
        assert(after.controller_to_mapping.dom() =~= model.controller_to_mapping.dom().insert(key));
    }
    if model.param_to_mapping.dom().len() < MAX_MAPPINGS {
        assert(after.param_to_mapping.dom() =~= model.param_to_mapping.dom().insert(param_index));
    }
    assert forall|c: usize| #[trigger] after.controller_to_mapping.dom().contains(c) implies {
        ||| after.controller_to_mapping[c] < after.mappings.len()
            && after.mappings[after.controller_to_mapping[c] as int].controller as usize == c
        ||| after.controller_to_mapping[c] == after.mappings.len() && after.mappings.len() == MAX_MAPPINGS
    } by {
        if c == key && model.controller_to_mapping.dom().len() < MAX_MAPPINGS {
            if len < MAX_MAPPINGS {
                assert(after.mappings[len as int].controller == controller);
            }
        } else {
            assert(model.controller_to_mapping.dom().contains(c));
            let i = model.controller_to_mapping[c];
            if i < len {
                assert(after.mappings[i as int] == model.mappings[i as int]);
            }
        }
    }
    assert forall|p: usize| #[trigger] after.param_to_mapping.dom().contains(p) implies {
        ||| after.param_to_mapping[p] < after.mappings.len()
            && after.mappings[after.param_to_mapping[p] as int].param_index == p
        ||| after.param_to_mapping[p] == after.mappings.len() && after.mappings.len() == MAX_MAPPINGS
    } by {
        if p == param_index && model.param_to_mapping.dom().len() < MAX_MAPPINGS {
            if len < MAX_MAPPINGS {
                assert(after.mappings[len as int].param_index == param_index);
            }
        } else {
            assert(model.param_to_mapping.dom().contains(p));
            let i = model.param_to_mapping[p];
            if i < len {
                assert(after.mappings[i as int] == model.mappings[i as int]);
            }
        }
    }
}

/// A controller that has just been mapped to a parameter, while the list had
/// room, answers every MIDI value with a value of that parameter, whatever it
/// was mapped to before.
pub proof fn law_legacy_latest_mapping_wins(
    model: MapperModel,
    controller: MidiController,
    param_index: ParamIndex,
    transform: Transform,
    midi_value: u8,
)
    requires
        model.wf(),
        model.mappings.len() < MAX_MAPPINGS,
    ensures
        model.add_mapping(controller, param_index, transform).wf(),
        model.add_mapping(controller, param_index, transform).controller_ready(controller),
        model.add_mapping(controller, param_index, transform).controller_message(controller, midi_value)
            == Some(ParamMessage { index: param_index, transform, input: transform_input(transform, midi_value as usize) }),
{
    lemma_legacy_add_mapping_wf(model, controller, param_index, transform);
    let after = model.add_mapping(controller, param_index, transform);
    assert(after.mappings[model.mappings.len() as int].param_index == param_index);
}

/// Mapping one controller, whether or not the tables have room, leaves every
/// other controller, and pitch bend, answering as before.
pub proof fn law_legacy_mapping_leaves_others(
    model: MapperModel,
    controller: MidiController,
    param_index: ParamIndex,
    transform: Transform,
    other: MidiController,
    midi_value: u8,
    bend: u16,
)
    requires
        model.wf(),
        other != controller,
    ensures
        model.add_mapping(controller, param_index, transform).controller_ready(other) == model.controller_ready(other),
        model.add_mapping(controller, param_index, transform).controller_message(other, midi_value)
            == model.controller_message(other, midi_value),
        model.add_mapping(controller, param_index, transform).pitch_bend_message(bend)
            == model.pitch_bend_message(bend),
{
    let after = model.add_mapping(controller, param_index, transform);
    let key = other as usize;
    assert(after.controller_to_mapping.dom().contains(key) == model.controller_to_mapping.dom().contains(key));
    if model.controller_to_mapping.dom().contains(key) {
        let i = model.controller_to_mapping[key];
        assert(after.controller_to_mapping[key] == i);
        if i < model.mappings.len() {
            assert(after.mappings[i as int] == model.mappings[i as int]);
        } else {
            assert(after.mappings == model.mappings);
        }
    }
}

} // verus!
