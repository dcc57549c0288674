use vstd::prelude::*;

use crate::midi::tables::{
    index_table_entries, mapping_list_items, IndexTable, MappingList, MAX_MAPPINGS,
};
use crate::refs::ParamRef;

verus! {

/// A 7-bit MIDI controller number.
pub type MidiController = u8;

/// How a raw MIDI value becomes a value of the mapped parameter. The numeric
/// ends of each transform (the parameter's minimum, maximum and resolution)
/// are the values of the mapped parameter itself; the conversion to them is
/// done by whoever holds those values.
#[derive(Debug, Clone, Copy, PartialEq, Eq, Structural)]
pub enum Transform {
    /// The low 14 bits of the MIDI value scaled from `0..=16383` onto the
    /// parameter's range, and rounded to its resolution.
    MinMaxU14,
    /// The low 7 bits of the MIDI value read as a step count around 64,
    /// multiplied by the parameter's resolution: a relative change.
    Relative64,
}

/// The integer input that a transform reads from a raw MIDI value.
#[derive(Debug, Clone, Copy, PartialEq, Eq, Structural)]
pub enum MidiInput {
    /// A 7-bit position, `0..=127`.
    U7(u8),
    /// A 14-bit position, `0..=16383`.
    U14(u16),
    /// A signed step count, `-64..=63`.
    Steps(i8),
}

/// The parameter message that a MIDI event is mapped to.
#[derive(Debug, Clone, Copy, PartialEq, Eq, Structural)]
pub enum ParamMessage {
    /// Set the parameter to the value that the transform gives for the input.
    ParamValue { param_ref: ParamRef, transform: Transform, input: MidiInput },
    /// Change the parameter by the amount that the transform gives for the input.
    ParamChange { param_ref: ParamRef, transform: Transform, input: MidiInput },
}

/// The input that `transform` reads from `midi_value`.
pub open spec fn transform_input(transform: Transform, midi_value: usize) -> MidiInput {
    match transform {
        Transform::MinMaxU14 => MidiInput::U14((midi_value % 16384) as u16),
        Transform::Relative64 => MidiInput::Steps(((midi_value % 128) - 64) as i8),
    }
}

impl Transform {
    /// The integer input that this transform reads from a raw MIDI value.
    pub fn param_input_from(&self, midi_value: usize) -> (input: MidiInput)
        ensures
            input == transform_input(*self, midi_value),
    {
        match self {
            Transform::MinMaxU14 => {
                let v = midi_value & 0x3fff;
                assert(midi_value & 0x3fff == midi_value % 16384) by (bit_vector);
                MidiInput::U14(v as u16)
            },
            Transform::Relative64 => {
                let v = midi_value & 0x7f;
                assert(midi_value & 0x7f == midi_value % 128) by (bit_vector);
                let steps: i16 = (v as i16) - 64;
                MidiInput::Steps(steps as i8)
            },
        }
    }

    /// The tag under which the transform is stored in a mapping table.
    pub open spec fn tag(self) -> u8 {
        match self {
            Transform::MinMaxU14 => 0,
            Transform::Relative64 => 1,
        }
    }
}

/// The message of a relative control of `param_ref` for `midi_value`: a
/// change by the value's step count around 64, and none at 64 itself.
pub open spec fn relative_message(param_ref: ParamRef, midi_value: u8) -> Option<ParamMessage> {
    if midi_value % 128 == 64 {
        None
    } else {
        Some(ParamMessage::ParamChange {
            param_ref,
            transform: Transform::Relative64,
            input: MidiInput::Steps(((midi_value % 128) - 64) as i8),
        })
    }
}

/// The transform stored under `tag`.
pub open spec fn transform_of_tag(tag: u8) -> Transform {
    if tag == 0 {
        Transform::MinMaxU14
    } else {
        Transform::Relative64
    }
}

fn tag_of(transform: Transform) -> (tag: u8)
    ensures
        tag == transform.tag(),
        transform_of_tag(tag) == transform,
{
    match transform {
        Transform::MinMaxU14 => 0,
        Transform::Relative64 => 1,
    }
}

fn transform_from_tag(tag: u8) -> (transform: Transform)
    ensures
        transform == transform_of_tag(tag),
{
    if tag == 0 {
        Transform::MinMaxU14
    } else {
        Transform::Relative64
    }
}

/// The mapping of MIDI pitch bend to one parameter.
#[derive(Debug, Clone, Copy, PartialEq, Eq, Structural)]
pub struct PitchBendMapping {
    pub param_ref: ParamRef,
    pub transform: Transform,
}

/// The mapping of one MIDI controller to one parameter.
#[derive(Debug, Clone, Copy, PartialEq, Eq, Structural)]
pub struct ControllerMapping {
    pub param_ref: ParamRef,
    pub controller: MidiController,
    pub transform: Transform,
}

impl ControllerMapping {
    pub open spec fn from_entry(entry: (usize, u8, u8)) -> ControllerMapping {
        ControllerMapping {
            param_ref: ParamRef(entry.0),
            controller: entry.1,
            transform: transform_of_tag(entry.2),
        }
    }
}

/// The contents of a `MidiMapper`.
pub struct MapperModel {
    pub pitch_bend: Option<PitchBendMapping>,
    /// Every controller mapping ever added, in order.
    pub mappings: Seq<ControllerMapping>,
    /// For each controller (as an index), the position of its mapping.
    pub controller_to_mapping: Map<usize, usize>,
    /// For each parameter (as an index), the position of the mapping that
    /// was last added for it.
    pub param_to_mapping: Map<usize, usize>,
}

impl MapperModel {
    /// The invariant of a mapper: at most `MAX_MAPPINGS` mappings and index
    /// entries; while the list has room, each index map has no more keys than
    /// there are mappings; and every index entry points at a mapping of its
    /// key, except, once the list is full, an entry that was added when the
    /// list had no room: it points one past the last mapping.
    pub open spec fn wf(self) -> bool {
        &&& self.mappings.len() <= MAX_MAPPINGS
        &&& self.controller_to_mapping.dom().finite()
        &&& self.param_to_mapping.dom().finite()
        &&& self.controller_to_mapping.dom().len() <= MAX_MAPPINGS
        &&& self.param_to_mapping.dom().len() <= MAX_MAPPINGS
        &&& self.mappings.len() < MAX_MAPPINGS ==> self.controller_to_mapping.dom().len() <= self.mappings.len()
        &&& self.mappings.len() < MAX_MAPPINGS ==> self.param_to_mapping.dom().len() <= self.mappings.len()
        &&& forall|c: usize| #[trigger] self.controller_to_mapping.dom().contains(c) ==> {
            ||| self.controller_to_mapping[c] < self.mappings.len()
                && self.mappings[self.controller_to_mapping[c] as int].controller as usize == c
            ||| self.controller_to_mapping[c] == self.mappings.len() && self.mappings.len() == MAX_MAPPINGS
        }
        &&& forall|p: usize| #[trigger] self.param_to_mapping.dom().contains(p) ==> {
            ||| self.param_to_mapping[p] < self.mappings.len()
                && self.mappings[self.param_to_mapping[p] as int].param_ref.0 == p
            ||| self.param_to_mapping[p] == self.mappings.len() && self.mappings.len() == MAX_MAPPINGS
        }
    }

    /// Whether the entry of `controller`, if any, points at a mapping.
    pub open spec fn controller_ready(self, controller: MidiController) -> bool {
        self.controller_to_mapping.dom().contains(controller as usize)
            ==> self.controller_to_mapping[controller as usize] < self.mappings.len()
    }

    /// The mapper after a mapping of `controller` to `param_ref` is added:
    /// the mapping is appended where the list has room, and each index map
    /// binds its key to the mapping's position where the map has room, even
    /// when the list had none.
    pub open spec fn add_mapping(self, controller: MidiController, param_ref: ParamRef, transform: Transform) -> MapperModel {
        let index = self.mappings.len() as usize;
        MapperModel {
            pitch_bend: self.pitch_bend,
            mappings: if self.mappings.len() < MAX_MAPPINGS {
                self.mappings.push(ControllerMapping { param_ref, controller, transform })
            } else {
                self.mappings
            },
            controller_to_mapping: if self.controller_to_mapping.dom().len() < MAX_MAPPINGS {
                self.controller_to_mapping.insert(controller as usize, index)
            } else {
                self.controller_to_mapping
            },
            param_to_mapping: if self.param_to_mapping.dom().len() < MAX_MAPPINGS {
                self.param_to_mapping.insert(param_ref.0, index)
            } else {
                self.param_to_mapping
            },
        }
    }

    /// The mapping that `controller` currently goes through, if any.
    pub open spec fn controller_mapping(self, controller: MidiController) -> Option<ControllerMapping> {
        if self.controller_to_mapping.dom().contains(controller as usize) {
            Some(self.mappings[self.controller_to_mapping[controller as usize] as int])
        } else {
            None
        }
    }

    /// The message for a pitch bend of `midi_value`.
    pub open spec fn pitch_bend_message(self, midi_value: u16) -> Option<ParamMessage> {
        match self.pitch_bend {
            Some(mapping) => Some(ParamMessage::ParamValue {
                param_ref: mapping.param_ref,
                transform: mapping.transform,
                input: transform_input(mapping.transform, midi_value as usize),
            }),
            None => None,
        }
    }

    /// The message for `midi_value` on `controller`: a change for a relative
    /// mapping, except at the centre value 64, which changes nothing and gives
    /// no message; a value for any other mapping; and nothing for an unmapped
    /// controller.
    pub open spec fn controller_message(self, controller: MidiController, midi_value: u8) -> Option<ParamMessage> {
        match self.controller_mapping(controller) {
            Some(mapping) => {
                let input = transform_input(mapping.transform, midi_value as usize);
                if mapping.transform == Transform::Relative64 {
                    if midi_value % 128 == 64 {
                        None
                    } else {
                        Some(ParamMessage::ParamChange {
                            param_ref: mapping.param_ref,
                            transform: mapping.transform,
                            input,
                        })
                    }
                } else {
                    Some(ParamMessage::ParamValue {
                        param_ref: mapping.param_ref,
                        transform: mapping.transform,
                        input,
                    })
                }
            },
            None => None,
        }
    }
}

/// A call that changes a `MidiMapper`.
pub enum MapperCall {
    /// `pitch_bend` with this parameter, if any.
    PitchBend(Option<ParamRef>),
    /// `rel_controller` of this controller with this parameter, if any.
    RelController(MidiController, Option<ParamRef>),
}

impl MapperModel {
    /// The contents of a mapper that maps nothing.
    pub open spec fn empty() -> MapperModel {
        MapperModel {
            pitch_bend: None,
            mappings: Seq::empty(),
            controller_to_mapping: Map::empty(),
            param_to_mapping: Map::empty(),
        }
    }

    /// The mapper after `call`.
    pub open spec fn after_call(self, call: MapperCall) -> MapperModel {
        match call {
            MapperCall::PitchBend(Some(param_ref)) => MapperModel {
                pitch_bend: Some(PitchBendMapping { param_ref, transform: Transform::MinMaxU14 }),
                ..self
            },
            MapperCall::PitchBend(None) => self,
            MapperCall::RelController(controller, Some(param_ref)) => self.add_mapping(
                controller,
                param_ref,
                Transform::Relative64,
            ),
            MapperCall::RelController(_, None) => self,
        }
    }

    /// The mapper after `calls`, in order.
    pub open spec fn after_calls(self, calls: Seq<MapperCall>) -> MapperModel
        decreases calls.len(),
    {
        if calls.len() == 0 {
            self
        } else {
            self.after_calls(calls.drop_last()).after_call(calls.last())
        }
    }
}

/// How many of `calls` map a controller to a parameter.
pub open spec fn mapping_calls(calls: Seq<MapperCall>) -> nat
    decreases calls.len(),
{
    if calls.len() == 0 {
        0
    } else {
        mapping_calls(calls.drop_last()) + if calls.last() matches MapperCall::RelController(_, Some(_)) {
            1nat
        } else {
            0nat
        }
    }
}

/// The parameter of the last of `calls` that maps pitch bend to one, if any.
pub open spec fn last_pitch_bend(calls: Seq<MapperCall>) -> Option<ParamRef>
    decreases calls.len(),
{
    if calls.len() == 0 {
        None
    } else {
        match calls.last() {
            MapperCall::PitchBend(Some(param_ref)) => Some(param_ref),
            _ => last_pitch_bend(calls.drop_last()),
        }
    }
}

/// Maps MIDI pitch bend and controller events to parameter messages.
pub struct MidiMapper {
    pitch_bend_mapping: Option<PitchBendMapping>,
    controller_mappings: MappingList,
    controller_to_param: IndexTable,
    param_to_controller: IndexTable,
}

impl View for MidiMapper {
    type V = MapperModel;

    closed spec fn view(&self) -> MapperModel {
        MapperModel {
            pitch_bend: self.pitch_bend_mapping,
            mappings: mapping_list_items(self.controller_mappings).map_values(
                |e: (usize, u8, u8)| ControllerMapping::from_entry(e),
            ),
            controller_to_mapping: index_table_entries(self.controller_to_param),
            param_to_mapping: index_table_entries(self.param_to_controller),
        }
    }
}

impl MidiMapper {
    /// Every mapper is well formed.
    #[verifier::type_invariant]
    spec fn well_formed(self) -> bool {
        self@.wf()
    }

    /// A mapper that maps nothing.
    pub fn new() -> (mapper: MidiMapper)
        ensures
            mapper@.wf(),
            mapper@.pitch_bend == None::<PitchBendMapping>,
            mapper@.mappings == Seq::<ControllerMapping>::empty(),
            mapper@.controller_to_mapping =~= Map::empty(),
            mapper@.param_to_mapping =~= Map::empty(),
            mapper@ == MapperModel::empty(),
    {
        let mapper = MidiMapper {
            pitch_bend_mapping: None,
            controller_mappings: MappingList::new(),
            controller_to_param: IndexTable::new(),
            param_to_controller: IndexTable::new(),
        };
        assert(mapper@.mappings =~= Seq::<ControllerMapping>::empty());
        mapper
    }

    /// Maps pitch bend to the given parameter; with no parameter the mapper
    /// is left as it was.
    pub fn pitch_bend(&mut self, param_ref: Option<ParamRef>)
        ensures
            final(self)@.wf(),
            final(self)@.pitch_bend == (match param_ref {
                Some(p) => Some(PitchBendMapping { param_ref: p, transform: Transform::MinMaxU14 }),
                None => old(self)@.pitch_bend,
            }),
            final(self)@.mappings == old(self)@.mappings,
            final(self)@.controller_to_mapping == old(self)@.controller_to_mapping,
            final(self)@.param_to_mapping == old(self)@.param_to_mapping,
            final(self)@ == old(self)@.after_call(MapperCall::PitchBend(param_ref)),
    {
        proof {
            use_type_invariant(&*self);
        }
        if let Some(param_ref) = param_ref {
            let transform = Transform::MinMaxU14;
            self.pitch_bend_mapping = Some(PitchBendMapping { param_ref, transform });
        }
        proof {
            use_type_invariant(&*self);
        }
    }

    /// The message for a pitch bend of `midi_value`, if pitch bend is mapped.
    pub fn map_midi_pitch_bend(&self, midi_value: u16) -> (message: Option<ParamMessage>)
        ensures
            self@.wf(),
            message == self@.pitch_bend_message(midi_value),
    {
        proof {
            use_type_invariant(self);
        }
        match &self.pitch_bend_mapping {
            Some(mapping) => Some(ParamMessage::ParamValue {
                param_ref: mapping.param_ref,
                transform: mapping.transform,
                input: mapping.transform.param_input_from(midi_value as usize),
            }),
            None => None,
        }
    }

    /// Maps `midi_controller` to the given parameter as a relative control;
    /// with no parameter the mapper is left as it was.
    pub fn rel_controller(&mut self, midi_controller: MidiController, param_ref: Option<ParamRef>)
        ensures
            final(self)@.wf(),
            final(self)@ == (match param_ref {
                Some(p) => old(self)@.add_mapping(midi_controller, p, Transform::Relative64),
                None => old(self)@,
            }),
            final(self)@ == old(self)@.after_call(MapperCall::RelController(midi_controller, param_ref)),
    {
        proof {
            use_type_invariant(&*self);
        }
        if let Some(param_ref) = param_ref {
            let transform = Transform::Relative64;
            self.add_controller_mapping(midi_controller, param_ref, transform)
        }
    }

    fn add_controller_mapping(
        &mut self,
        midi_controller: MidiController,
        param_ref: ParamRef,
        transform: Transform,
    )
        ensures
            final(self)@.wf(),
            final(self)@ == old(self)@.add_mapping(midi_controller, param_ref, transform),
    {
        proof {
            use_type_invariant(&*self);
        }
        let ghost before = self@;
        // The tables are taken out of the mapper while they change, so that the
        // mapper is well formed at every step.
        let mut taken = MidiMapper::new();
        std::mem::swap(&mut taken, self);
        proof {
            use_type_invariant(&taken);
        }
        let MidiMapper { pitch_bend_mapping, mut controller_mappings, mut controller_to_param, mut param_to_controller } =
            taken;
        let mapping_index = controller_mappings.len();
        let tag = tag_of(transform);
        let pushed = controller_mappings.push((param_ref.0, midi_controller, tag));
        let inserted_controller = controller_to_param.insert(midi_controller as usize, mapping_index);
        let inserted_param = param_to_controller.insert(param_ref.0, mapping_index);
        let updated = MidiMapper { pitch_bend_mapping, controller_mappings, controller_to_param, param_to_controller };
        proof {
            let expected = before.add_mapping(midi_controller, param_ref, transform);
            let entry = (param_ref.0, midi_controller, tag);
            let mapping = ControllerMapping { param_ref, controller: midi_controller, transform };
            assert(ControllerMapping::from_entry(entry) == mapping);
            if pushed {
                assert(updated@.mappings =~= before.mappings.push(mapping));
            } else {
                assert(updated@.mappings =~= before.mappings);
            }
            assert(updated@.mappings == expected.mappings);
            assert(updated@.controller_to_mapping == expected.controller_to_mapping);
            assert(updated@.param_to_mapping == expected.param_to_mapping);
            lemma_add_mapping_wf(before, midi_controller, param_ref, transform);
        }
        *self = updated;
    }

    fn get_controller_mapping(&self, controller: MidiController) -> (mapping: Option<ControllerMapping>)
        requires
            self@.controller_ready(controller),
        ensures
            mapping == self@.controller_mapping(controller),
    {
        proof {
            use_type_invariant(self);
        }
        match self.controller_to_param.get(controller as usize) {
            Some(mapping_index) => {
                let entry = self.controller_mappings.get(mapping_index);
                let transform = transform_from_tag(entry.2);
                Some(ControllerMapping { param_ref: ParamRef(entry.0), controller: entry.1, transform })
            },
            None => None,
        }
    }

    /// The message for `midi_value` on `midi_controller`: a parameter change
    /// for a relative mapping (none at the centre value 64, a change of zero
    /// steps), a parameter value for any other, and nothing for an unmapped
    /// controller. A controller whose entry points past the
    /// mappings (it was mapped when the list was full) cannot be looked up.
    pub fn map_midi_controller(&self, controller: MidiController, midi_value: u8) -> (message: Option<ParamMessage>)
        requires
            self@.controller_ready(controller),
        ensures
            self@.wf(),
            message == self@.controller_message(controller, midi_value),
    {
        proof {
            use_type_invariant(self);
        }
        match self.get_controller_mapping(controller) {
            Some(mapping) => {
                let is_relative = Self::is_relative_controller(&mapping);
                let input = mapping.transform.param_input_from(midi_value as usize);
                if is_relative {
                    match input {
                        MidiInput::Steps(0) => None,
                        _ => Some(ParamMessage::ParamChange {
                            param_ref: mapping.param_ref,
                            transform: mapping.transform,
                            input,
                        }),
                    }
                } else {
                    Some(ParamMessage::ParamValue { param_ref: mapping.param_ref, transform: mapping.transform, input })
                }
            },
            None => None,
        }
    }

    fn is_relative_controller(mapping: &ControllerMapping) -> (relative: bool)
        ensures
            relative == (mapping.transform == Transform::Relative64),
    {
        match mapping.transform {
            Transform::Relative64 => true,
            _ => false,
        }
    }
}

/// Adding a mapping keeps a mapper well formed, whether or not its tables
/// have room.
proof fn lemma_add_mapping_wf(model: MapperModel, controller: MidiController, param_ref: ParamRef, transform: Transform)
    requires
        model.wf(),
    ensures
        model.add_mapping(controller, param_ref, transform).wf(),
{
    let after = model.add_mapping(controller, param_ref, transform);
    let len = model.mappings.len();
    let key = controller as usize;
    if model.controller_to_mapping.dom().len() < MAX_MAPPINGS {
        assert(after.controller_to_mapping.dom() =~= model.controller_to_mapping.dom().insert(key));
    }
    if model.param_to_mapping.dom().len() < MAX_MAPPINGS {
        assert(after.param_to_mapping.dom() =~= model.param_to_mapping.dom().insert(param_ref.0));
    }
    assert forall|c: usize| #[trigger] after.controller_to_mapping.dom().contains(c) implies {
        ||| after.controller_to_mapping[c] < after.mappings.len()
            && after.mappings[after.controller_to_mapping[c] as int].controller as usize == c
        ||| after.controller_to_mapping[c] == after.mappings.len() && after.mappings.len() == MAX_MAPPINGS
    } by {
        if c == key && model.controller_to_mapping.dom().len() < MAX_MAPPINGS {
            if len < MAX_MAPPINGS {
                assert(after.mappings[len as int].controller == controller);
            }
        } else {
            assert(model.controller_to_mapping.dom().contains(c));
            let i = model.controller_to_mapping[c];
            if i < len {
                assert(after.mappings[i as int] == model.mappings[i as int]);
            }
        }
    }
    assert forall|p: usize| #[trigger] after.param_to_mapping.dom().contains(p) implies {
        ||| after.param_to_mapping[p] < after.mappings.len()
            && after.mappings[after.param_to_mapping[p] as int].param_ref.0 == p
        ||| after.param_to_mapping[p] == after.mappings.len() && after.mappings.len() == MAX_MAPPINGS
    } by {
        if p == param_ref.0 && model.param_to_mapping.dom().len() < MAX_MAPPINGS {
            if len < MAX_MAPPINGS {
                assert(after.mappings[len as int].param_ref == param_ref);
            }
        } else {
            assert(model.param_to_mapping.dom().contains(p));
            let i = model.param_to_mapping[p];
            if i < len {
                assert(after.mappings[i as int] == model.mappings[i as int]);
            }
        }
    }
}

/// A controller that has just been mapped as a relative control, while the
/// list had room, answers every MIDI value with a change of its parameter by
/// the value's step count around 64 (and nothing at 64), whatever it was
/// mapped to before.
pub proof fn law_latest_controller_mapping_wins(
    model: MapperModel,
    controller: MidiController,
    param_ref: ParamRef,
    midi_value: u8,
)
    requires
        model.wf(),
        model.mappings.len() < MAX_MAPPINGS,
    ensures
        model.add_mapping(controller, param_ref, Transform::Relative64).wf(),
        model.add_mapping(controller, param_ref, Transform::Relative64).controller_ready(controller),
        model.add_mapping(controller, param_ref, Transform::Relative64).controller_message(controller, midi_value)
            == relative_message(param_ref, midi_value),
{
    lemma_add_mapping_wf(model, controller, param_ref, Transform::Relative64);
    let after = model.add_mapping(controller, param_ref, Transform::Relative64);
    assert(after.mappings[model.mappings.len() as int].param_ref == param_ref);
}

/// Mapping one controller, whether or not the tables have room, leaves the
/// messages of every other controller, and of pitch bend, as they were.
pub proof fn law_mapping_leaves_other_controllers(
    model: MapperModel,
    controller: MidiController,
    param_ref: ParamRef,
    transform: Transform,
    other: MidiController,
    midi_value: u8,
    bend: u16,
)
    requires
        model.wf(),
        other != controller,
    ensures
        model.add_mapping(controller, param_ref, transform).controller_ready(other) == model.controller_ready(other),
        model.add_mapping(controller, param_ref, transform).controller_message(other, midi_value)
            == model.controller_message(other, midi_value),
        model.add_mapping(controller, param_ref, transform).pitch_bend_message(bend)
            == model.pitch_bend_message(bend),
{
    let after = model.add_mapping(controller, param_ref, transform);
    let key = other as usize;
    assert(after.controller_to_mapping.dom().contains(key) == model.controller_to_mapping.dom().contains(key));
    if model.controller_to_mapping.dom().contains(key) {
        let i = model.controller_to_mapping[key];
        assert(after.controller_to_mapping[key] == i);
        if i < model.mappings.len() {
            assert(after.mappings[i as int] == model.mappings[i as int]);
        } else {
            assert(after.mappings == model.mappings);
        }
    }
}

/// A mapper whose list is full keeps its mappings when another is added; the
/// controller then points past them, where the index map still had room, and
/// can no longer be looked up.
pub proof fn law_full_mapper_keeps_mappings(
    model: MapperModel,
    controller: MidiController,
    param_ref: ParamRef,
    transform: Transform,
)
    requires
        model.wf(),
        model.mappings.len() == MAX_MAPPINGS,
    ensures
        model.add_mapping(controller, param_ref, transform).wf(),
        model.add_mapping(controller, param_ref, transform).mappings == model.mappings,
        model.controller_to_mapping.dom().len() < MAX_MAPPINGS
            ==> !model.add_mapping(controller, param_ref, transform).controller_ready(controller),
{
    lemma_add_mapping_wf(model, controller, param_ref, transform);
}

/// A controller that no call has mapped to a parameter stays silent,
/// whatever else the calls map.
pub proof fn law_unmapped_controller_stays_silent(calls: Seq<MapperCall>, controller: MidiController, midi_value: u8)
    requires
        forall|i: int| 0 <= i < calls.len() ==> !(#[trigger] calls[i] matches MapperCall::RelController(c, Some(_))
            && c == controller),
    ensures
        !MapperModel::empty().after_calls(calls).controller_to_mapping.dom().contains(controller as usize),
        MapperModel::empty().after_calls(calls).controller_message(controller, midi_value) == None::<ParamMessage>,
    decreases calls.len(),
{
    if calls.len() > 0 {
        let rest = calls.drop_last();
        assert forall|i: int| 0 <= i < rest.len() implies !(#[trigger] rest[i] matches MapperCall::RelController(c, Some(_))
            && c == controller) by {
            assert(rest[i] == calls[i]);
        }
        law_unmapped_controller_stays_silent(rest, controller, midi_value);
        assert(calls.last() == calls[calls.len() - 1]);
    }
}

proof fn lemma_few_mappings(calls: Seq<MapperCall>)
    requires
        mapping_calls(calls) <= MAX_MAPPINGS,
    ensures
        MapperModel::empty().after_calls(calls).wf(),
        MapperModel::empty().after_calls(calls).mappings.len() == mapping_calls(calls),
        forall|k: usize| #[trigger] MapperModel::empty().after_calls(calls).controller_to_mapping.dom().contains(k)
            ==> MapperModel::empty().after_calls(calls).controller_to_mapping[k]
            < MapperModel::empty().after_calls(calls).mappings.len(),
    decreases calls.len(),
{
    let model = MapperModel::empty().after_calls(calls);
    if calls.len() == 0 {
        assert(model.controller_to_mapping.dom() =~= Set::<usize>::empty());
        assert(model.param_to_mapping.dom() =~= Set::<usize>::empty());
    } else {
        let rest = calls.drop_last();
        lemma_few_mappings(rest);
        let before = MapperModel::empty().after_calls(rest);
        match calls.last() {
            MapperCall::RelController(controller, Some(param_ref)) => {
                lemma_add_mapping_wf(before, controller, param_ref, Transform::Relative64);
                assert forall|k: usize| #[trigger] model.controller_to_mapping.dom().contains(k) implies
                    model.controller_to_mapping[k] < model.mappings.len() by {
                    if k != controller as usize {
                        assert(before.controller_to_mapping.dom().contains(k));
                    }
                }
            },
            _ => {},
        }
    }
}

/// After at most `MAX_MAPPINGS` calls that map a controller, every mapping
/// was kept, and every controller entry points at a mapping, so that every
/// controller can be looked up.
pub proof fn law_few_mappings_stay_ready(calls: Seq<MapperCall>)
    requires
        mapping_calls(calls) <= MAX_MAPPINGS,
    ensures
        MapperModel::empty().after_calls(calls).wf(),
        MapperModel::empty().after_calls(calls).mappings.len() == mapping_calls(calls),
        forall|controller: MidiController| #[trigger] MapperModel::empty().after_calls(calls).controller_ready(controller),
{
    lemma_few_mappings(calls);
}

/// The last call that maps pitch bend decides it: a pitch bend gives a value
/// of that parameter, over its whole range; with no such call, nothing.
pub proof fn law_last_pitch_bend_wins(calls: Seq<MapperCall>, midi_value: u16)
    ensures
        MapperModel::empty().after_calls(calls).pitch_bend_message(midi_value) == (match last_pitch_bend(calls) {
            Some(param_ref) => Some(ParamMessage::ParamValue {
                param_ref,
                transform: Transform::MinMaxU14,
                input: transform_input(Transform::MinMaxU14, midi_value as usize),
            }),
            None => None,
        }),
    decreases calls.len(),
{
    if calls.len() > 0 {
        law_last_pitch_bend_wins(calls.drop_last(), midi_value);
    }
}

/// A controller that was never mapped gives no message.
pub proof fn law_unmapped_controller_is_silent(model: MapperModel, controller: MidiController, midi_value: u8)
    requires
        !model.controller_to_mapping.dom().contains(controller as usize),
    ensures
        model.controller_message(controller, midi_value) == None::<ParamMessage>,
{
}

/// The inputs that the transforms read stay within their ranges: 14-bit
/// positions below 16384, and step counts in `-64..=63`, zero exactly at 64.
pub proof fn law_transform_input_ranges(midi_value: usize)
    ensures
        transform_input(Transform::MinMaxU14, midi_value) matches MidiInput::U14(v) && v < 16384,
        transform_input(Transform::Relative64, midi_value) matches MidiInput::Steps(s)
            && -64 <= s <= 63 && (s == 0 <==> midi_value % 128 == 64),
{
}

} // verus!
