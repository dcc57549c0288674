use vstd::prelude::*;

use crate::refs::{ParamRef, SourceRef};
use crate::program::{ParamModulation, Program, ProgramParam, ProgramSource};
use crate::ui::model::param::{param_from, Param};
use vstd::view::View as DeepModel;

verus! {

/// How the modulation list is grouped.
#[derive(Debug, Clone, Copy, PartialEq, Eq, Structural)]
pub enum View {
    GroupBySource,
    GroupByParam,
}

/// What a group of the modulation list stands for.
#[derive(Debug, Clone, Copy, PartialEq, Eq, Structural)]
pub enum Reference {
    Source(SourceRef),
    Param(ParamRef),
}

/// Whether `reference` is the source `source` (a parameter never is).
pub open spec fn reference_matches(reference: Reference, source: Option<SourceRef>) -> bool {
    match reference {
        Reference::Source(source_ref) => source == Some(source_ref),
        Reference::Param(_) => false,
    }
}

/// The index that a reference stands for: that of its source or of its parameter.
pub open spec fn reference_key(reference: Reference) -> usize {
    match reference {
        Reference::Source(source_ref) => source_ref.0,
        Reference::Param(param_ref) => param_ref.0,
    }
}

impl Reference {
    /// Whether this reference is the given source.
    pub fn matches(&self, source: Option<SourceRef>) -> (matched: bool)
        ensures
            matched == reference_matches(*self, source),
    {
        match self {
            Reference::Source(source_ref) => match source {
                Some(s) => s == *source_ref,
                None => false,
            },
            Reference::Param(_) => false,
        }
    }

    /// The index of the source or parameter that this reference stands for.
    pub fn key(&self) -> (key: usize)
        ensures
            key == reference_key(*self),
    {
        match self {
            Reference::Source(reference) => reference.0,
            Reference::Param(reference) => reference.0,
        }
    }
}

impl From<Reference> for usize {
    fn from(reference: Reference) -> (key: usize) {
        reference.key()
    }
}

impl vstd::std_specs::convert::FromSpecImpl<Reference> for usize {
    open spec fn obeys_from_spec() -> bool {
        true
    }

    open spec fn from_spec(reference: Reference) -> usize {
        reference_key(reference)
    }
}

/// Whether the modulations of a group can be configured from the knobs.
#[derive(Debug, Clone, Copy, PartialEq, Eq, Structural)]
pub enum ConfigMode {
    Ready,
    Ongoing,
    Disabled,
}

/// What a click on the configuration arrow of a group asks for.
#[derive(Debug, Clone, Copy, PartialEq, Eq, Structural)]
pub enum ConfigRequest {
    /// Start configuring the modulations of the source.
    Start(SourceRef),
    /// Stop configuring the modulations of the source.
    Stop(SourceRef),
}

/// What a click on the configuration arrow of a group that stands for
/// `reference`, in `config_mode`, asks for: a source group that is ready
/// starts its configuration, one whose configuration is ongoing stops it, and
/// a disabled group or a parameter group (which shows no arrow) asks nothing.
pub open spec fn spec_config_request(reference: Reference, config_mode: ConfigMode) -> Option<ConfigRequest> {
    match reference {
        Reference::Source(source_ref) => match config_mode {
            ConfigMode::Ready => Some(ConfigRequest::Start(source_ref)),
            ConfigMode::Ongoing => Some(ConfigRequest::Stop(source_ref)),
            ConfigMode::Disabled => None,
        },
        Reference::Param(_) => None,
    }
}

impl<N> Group<N> {
    /// What a click on the configuration arrow of this group asks for.
    pub fn config_request(&self) -> (request: Option<ConfigRequest>)
        ensures
            request == spec_config_request(self.reference, self.config_mode),
    {
        match self.reference {
            Reference::Source(source_ref) => match self.config_mode {
                ConfigMode::Ready => Some(ConfigRequest::Start(source_ref)),
                ConfigMode::Ongoing => Some(ConfigRequest::Stop(source_ref)),
                ConfigMode::Disabled => None,
            },
            Reference::Param(_) => None,
        }
    }
}

/// One modulation of a parameter by a source, as the synth program holds it.
/// `N` is the number type of the amounts (the user interface uses `f64`).
#[derive(Debug, Clone)]
pub struct InternalModulation<N> {
    pub source_ref: SourceRef,
    pub source_name: String,
    pub param_ref: ParamRef,
    pub param_name: String,
    pub origin: N,
    pub min: N,
    pub max: N,
    pub step: N,
    pub amount: N,
}

/// One modulation as a row of the grouped list shows it: `index` is its
/// position in the list of all modulations.
#[derive(Debug, Clone)]
pub struct Modulation<N> {
    pub index: usize,
    pub name: String,
    pub source_ref: SourceRef,
    pub param_ref: ParamRef,
    pub origin: N,
    pub min: N,
    pub max: N,
    pub step: N,
    pub amount: N,
}

/// The row for `modulation` at position `index`, named `name`.
pub open spec fn row_of<N>(modulation: InternalModulation<N>, index: usize, name: String) -> Modulation<N> {
    Modulation {
        index,
        name,
        source_ref: modulation.source_ref,
        param_ref: modulation.param_ref,
        origin: modulation.origin,
        min: modulation.min,
        max: modulation.max,
        step: modulation.step,
        amount: modulation.amount,
    }
}

impl<N: Copy> InternalModulation<N> {
    /// The row that shows this modulation at position `index` under `name`.
    pub fn as_modulation(&self, index: usize, name: String) -> (row: Modulation<N>)
        ensures
            row == row_of(*self, index, name),
    {
        Modulation {
            index,
            name,
            source_ref: self.source_ref,
            param_ref: self.param_ref,
            origin: self.origin,
            min: self.min,
            max: self.max,
            step: self.step,
            amount: self.amount,
        }
    }
}

/// A modulation source as the list names it.
#[derive(Debug, Clone)]
pub struct Source {
    pub name: String,
    pub reference: SourceRef,
}

impl Source {
    /// The source's name.
    pub fn name(&self) -> (name: String)
        ensures
            name == self.name,
    {
        self.name.clone()
    }

    /// The reference that a group of this source stands for.
    pub fn reference(&self) -> (reference: Reference)
        ensures
            reference == Reference::Source(self.reference),
    {
        Reference::Source(self.reference)
    }
}

/// A group of the modulation list: its key `index`, what it stands for, its
/// name and its rows.
#[derive(Debug, Clone)]
pub struct Group<N> {
    pub index: usize,
    pub reference: Reference,
    pub name: String,
    pub modulations: Vec<Modulation<N>>,
    pub config_mode: ConfigMode,
}

/// What the user interface must tell the synth after a change of the list.
#[derive(Debug, Clone, Copy, PartialEq, Eq)]
pub enum ModulationCommand<N> {
    /// Set the amount by which the source modulates the parameter.
    Update { source_ref: SourceRef, param_ref: ParamRef, amount: N },
    /// Remove the modulation of the parameter by the source.
    Delete { source_ref: SourceRef, param_ref: ParamRef },
}

/// All modulations of the synth, how the list groups them, and which source
/// (if any) is being configured.
#[derive(Debug, Clone)]
pub struct Modulations<N> {
    pub view: View,
    pub modulations: Vec<InternalModulation<N>>,
    pub config_source: Option<SourceRef>,
    pub sources: Vec<Source>,
    pub params: Vec<Param<N>>,
}

/// The source being configured after configuring `source` stops: none if
/// it was `source`, and otherwise the same as before.
pub open spec fn stopped_config(config_source: Option<SourceRef>, source: SourceRef) -> Option<SourceRef> {
    if config_source == Some(source) {
        None
    } else {
        config_source
    }
}

/// Whether position `i` holds the first modulation of parameter `p` by source `s`.
pub open spec fn is_first_modulation<N>(mods: Seq<InternalModulation<N>>, s: SourceRef, p: ParamRef, i: int) -> bool {
    &&& 0 <= i < mods.len()
    &&& mods[i].source_ref == s && mods[i].param_ref == p
    &&& forall|j: int| 0 <= j < i ==> !(#[trigger] mods[j].source_ref == s && mods[j].param_ref == p)
}

/// Whether some modulation of parameter `p` by source `s` is held.
pub open spec fn has_modulation<N>(mods: Seq<InternalModulation<N>>, s: SourceRef, p: ParamRef) -> bool {
    exists|i: int| 0 <= i < mods.len() && #[trigger] mods[i].source_ref == s && mods[i].param_ref == p
}

/// The position of the first modulation of parameter `p` by source `s`.
pub open spec fn first_modulation<N>(mods: Seq<InternalModulation<N>>, s: SourceRef, p: ParamRef) -> int {
    choose|i: int| is_first_modulation(mods, s, p, i)
}

/// Whether position `i` holds the first source with reference `s`.
pub open spec fn is_first_source(sources: Seq<Source>, s: SourceRef, i: int) -> bool {
    &&& 0 <= i < sources.len()
    &&& sources[i].reference == s
    &&& forall|j: int| 0 <= j < i ==> #[trigger] sources[j].reference != s
}

/// Whether some source has reference `s`.
pub open spec fn has_source(sources: Seq<Source>, s: SourceRef) -> bool {
    exists|i: int| 0 <= i < sources.len() && #[trigger] sources[i].reference == s
}

/// The position of the first source with reference `s`.
pub open spec fn first_source(sources: Seq<Source>, s: SourceRef) -> int {
    choose|i: int| is_first_source(sources, s, i)
}

/// Whether position `i` holds the first parameter with reference `p`.
pub open spec fn is_first_param<N>(params: Seq<Param<N>>, p: ParamRef, i: int) -> bool {
    &&& 0 <= i < params.len()
    &&& params[i].param_ref == p
    &&& forall|j: int| 0 <= j < i ==> #[trigger] params[j].param_ref != p
}

/// Whether some parameter has reference `p`.
pub open spec fn has_param<N>(params: Seq<Param<N>>, p: ParamRef) -> bool {
    exists|i: int| 0 <= i < params.len() && #[trigger] params[i].param_ref == p
}

/// The position of the first parameter with reference `p`.
pub open spec fn first_param<N>(params: Seq<Param<N>>, p: ParamRef) -> int {
    choose|i: int| is_first_param(params, p, i)
}

/// `modulation` with its amount replaced.
pub open spec fn with_amount<N>(modulation: InternalModulation<N>, amount: N) -> InternalModulation<N> {
    InternalModulation { amount, ..modulation }
}

/// The amount that the rows leave at position `i`: that of the last row at
/// that position, or `current` when no row is there.
pub open spec fn written_amount<N>(rows: Seq<Modulation<N>>, i: usize, current: N) -> N
    decreases rows.len(),
{
    if rows.len() == 0 {
        current
    } else if rows.last().index == i {
        rows.last().amount
    } else {
        written_amount(rows.drop_last(), i, current)
    }
}

/// The sources of the program as the list names them.
pub open spec fn program_sources(sources: Seq<ProgramSource>) -> Seq<Source> {
    Seq::new(sources.len(), |i: int| Source { name: sources[i].id, reference: SourceRef(i as usize) })
}

/// The parameters of the program as the list shows them.
pub open spec fn program_params<N>(params: Seq<ProgramParam<N>>, zero: N) -> Seq<Param<N>> {
    Seq::new(params.len(), |i: int| param_from(ParamRef(i as usize), params[i], zero))
}

/// The modulations of parameter `param_ref`, described by `param`, that act
/// from sources that the program has, in the program's order.
pub open spec fn param_modulations<N>(
    sources: Seq<ProgramSource>,
    param_ref: ParamRef,
    param: ProgramParam<N>,
    modulations: Seq<ParamModulation<N>>,
) -> Seq<InternalModulation<N>>
    decreases modulations.len(),
{
    if modulations.len() == 0 {
        Seq::empty()
    } else {
        let rest = param_modulations(sources, param_ref, param, modulations.drop_last());
        let m = modulations.last();
        if m.source_ref.0 < sources.len() {
            rest.push(InternalModulation {
                source_ref: m.source_ref,
                source_name: sources[m.source_ref.0 as int].id,
                param_ref,
                param_name: param.id,
                origin: param.values.origin,
                min: param.values.min,
                max: param.values.max,
                step: param.values.resolution,
                amount: m.amount,
            })
        } else {
            rest
        }
    }
}

/// The modulations of all the parameters of the program, parameter by
/// parameter, leaving out those from sources that the program lacks.
pub open spec fn program_modulations<N>(sources: Seq<ProgramSource>, params: Seq<ProgramParam<N>>) -> Seq<InternalModulation<N>>
    decreases params.len(),
{
    if params.len() == 0 {
        Seq::empty()
    } else {
        let i = params.len() - 1;
        program_modulations(sources, params.drop_last()) + param_modulations(
            sources,
            ParamRef(i as usize),
            params.last(),
            params.last().modulations@,
        )
    }
}

/// The modulation of `param` by `source` by `amount`, as the list adds it.
pub open spec fn new_modulation<N>(source: Source, param: Param<N>, amount: N) -> InternalModulation<N> {
    InternalModulation {
        source_ref: source.reference,
        source_name: source.name,
        param_ref: param.param_ref,
        param_name: param.name,
        origin: param.origin,
        min: param.min,
        max: param.max,
        step: param.step,
        amount,
    }
}

/// The modulations after the amount of parameter `p` by source `s` is set
/// to `amount`: the first such modulation gets the amount, or, where there is
/// none, one is added at the end from the first source `s` and the first
/// parameter `p`.
pub open spec fn updated_modulations<N>(
    mods: Seq<InternalModulation<N>>,
    sources: Seq<Source>,
    params: Seq<Param<N>>,
    s: SourceRef,
    p: ParamRef,
    amount: N,
) -> Seq<InternalModulation<N>> {
    if has_modulation(mods, s, p) {
        let i = first_modulation(mods, s, p);
        mods.update(i, with_amount(mods[i], amount))
    } else {
        mods.push(new_modulation(sources[first_source(sources, s)], params[first_param(params, p)], amount))
    }
}

/// The modulations after the first modulation of parameter `p` by source `s`
/// (if any) is removed.
pub open spec fn deleted_modulations<N>(mods: Seq<InternalModulation<N>>, s: SourceRef, p: ParamRef) -> Seq<InternalModulation<N>> {
    if has_modulation(mods, s, p) {
        mods.remove(first_modulation(mods, s, p))
    } else {
        mods
    }
}

/// The amounts of the modulations of parameter `p`, in list order.
pub open spec fn amounts_for_param<N>(mods: Seq<InternalModulation<N>>, p: ParamRef) -> Seq<N>
    decreases mods.len(),
{
    if mods.len() == 0 {
        Seq::empty()
    } else {
        let rest = amounts_for_param(mods.drop_last(), p);
        if mods.last().param_ref == p {
            rest.push(mods.last().amount)
        } else {
            rest
        }
    }
}

/// For each parameter index, the amount of the last modulation of that
/// parameter by source `s`.
pub open spec fn config_amounts<N>(mods: Seq<InternalModulation<N>>, s: SourceRef) -> Map<usize, N>
    decreases mods.len(),
{
    if mods.len() == 0 {
        Map::empty()
    } else {
        let rest = config_amounts(mods.drop_last(), s);
        if mods.last().source_ref == s {
            rest.insert(mods.last().param_ref.0, mods.last().amount)
        } else {
            rest
        }
    }
}

/// Whether some modulation in `mods` is of the parameter with index `k`.
pub open spec fn modulates_param<N>(mods: Seq<InternalModulation<N>>, k: usize) -> bool {
    exists|i: int| 0 <= i < mods.len() && #[trigger] mods[i].param_ref.0 == k
}

/// Whether `amounts` holds, for each parameter index that some modulation
/// has and for no other, the amounts of its modulations in list order.
pub open spec fn is_amounts_by_param<N>(amounts: Map<usize, Vec<N>>, mods: Seq<InternalModulation<N>>) -> bool {
    &&& forall|k: usize| #[trigger] amounts.contains_key(k) <==> modulates_param(mods, k)
    &&& forall|k: usize| #[trigger] amounts.contains_key(k) ==> amounts[k]@ == amounts_for_param(mods, ParamRef(k))
}

proof fn lemma_amounts_for_param_step<N>(mods: Seq<InternalModulation<N>>, i: int, p: ParamRef)
    requires
        0 <= i < mods.len(),
    ensures
        amounts_for_param(mods.take(i + 1), p) == (if mods[i].param_ref == p {
            amounts_for_param(mods.take(i), p).push(mods[i].amount)
        } else {
            amounts_for_param(mods.take(i), p)
        }),
{
    assert(mods.take(i + 1).drop_last() =~= mods.take(i));
}

proof fn lemma_no_modulation_no_amounts<N>(mods: Seq<InternalModulation<N>>, p: ParamRef)
    requires
        !modulates_param(mods, p.0),
    ensures
        amounts_for_param(mods, p) == Seq::<N>::empty(),
    decreases mods.len(),
{
    if mods.len() > 0 {
        assert(mods.drop_last().len() < mods.len());
        assert forall|i: int| 0 <= i < mods.drop_last().len() implies #[trigger] mods.drop_last()[i].param_ref.0 != p.0 by {
            assert(mods[i].param_ref.0 != p.0);
        }
        lemma_no_modulation_no_amounts(mods.drop_last(), p);
        assert(mods[mods.len() - 1].param_ref.0 != p.0);
    }
}

/// The key of the group that shows `m` in `view`.
pub open spec fn group_key<N>(view: View, m: InternalModulation<N>) -> usize {
    match view {
        View::GroupBySource => m.source_ref.0,
        View::GroupByParam => m.param_ref.0,
    }
}

/// What the group that shows `m` in `view` stands for.
pub open spec fn group_reference<N>(view: View, m: InternalModulation<N>) -> Reference {
    match view {
        View::GroupBySource => Reference::Source(m.source_ref),
        View::GroupByParam => Reference::Param(m.param_ref),
    }
}

/// The name of the group that `m` opens in `view`.
pub open spec fn group_name<N>(view: View, m: InternalModulation<N>) -> String {
    match view {
        View::GroupBySource => m.source_name,
        View::GroupByParam => m.param_name,
    }
}

/// The name of the row of `m` in `view`: what it is grouped with.
pub open spec fn row_name<N>(view: View, m: InternalModulation<N>) -> String {
    match view {
        View::GroupBySource => m.param_name,
        View::GroupByParam => m.source_name,
    }
}

/// The groups that `view` shows even without modulations: one per source
/// when grouping by source, none when grouping by parameter.
pub open spec fn base_groups(view: View, sources: Seq<Source>) -> Seq<Source> {
    match view {
        View::GroupBySource => sources,
        View::GroupByParam => Seq::empty(),
    }
}

/// The configuration mode of a group that stands for `reference`, while
/// `config_source` (if any) is being configured.
pub open spec fn config_mode_for(reference: Reference, config_source: Option<SourceRef>) -> ConfigMode {
    if reference_matches(reference, config_source) {
        ConfigMode::Ongoing
    } else {
        ConfigMode::Ready
    }
}

/// The rows of the group with key `k`: every modulation of that key, in
/// list order, with its position.
pub open spec fn group_rows<N>(view: View, mods: Seq<InternalModulation<N>>, k: usize) -> Seq<Modulation<N>>
    decreases mods.len(),
{
    if mods.len() == 0 {
        Seq::empty()
    } else {
        let rest = group_rows(view, mods.drop_last(), k);
        let m = mods.last();
        if group_key(view, m) == k {
            rest.push(row_of(m, (mods.len() - 1) as usize, row_name(view, m)))
        } else {
            rest
        }
    }
}

/// Whether some base group has key `k`.
pub open spec fn has_base_key(base: Seq<Source>, k: usize) -> bool {
    exists|i: int| 0 <= i < base.len() && #[trigger] base[i].reference.0 == k
}

/// Whether some modulation has key `k` in `view`.
pub open spec fn has_modulation_key<N>(view: View, mods: Seq<InternalModulation<N>>, k: usize) -> bool {
    exists|j: int| 0 <= j < mods.len() && #[trigger] group_key(view, mods[j]) == k
}

/// Whether `k` is the key of some group: that of a base group or of a modulation.
pub open spec fn is_group_key<N>(view: View, base: Seq<Source>, mods: Seq<InternalModulation<N>>, k: usize) -> bool {
    has_base_key(base, k) || has_modulation_key(view, mods, k)
}

/// The keys of the base groups.
pub open spec fn base_key_set(base: Seq<Source>) -> Set<usize> {
    Set::new(|k: usize| has_base_key(base, k))
}

/// Whether position `i` holds the last base group with key `k`.
pub open spec fn is_last_base(base: Seq<Source>, k: usize, i: int) -> bool {
    &&& 0 <= i < base.len()
    &&& base[i].reference.0 == k
    &&& forall|j: int| i < j < base.len() ==> #[trigger] base[j].reference.0 != k
}

/// Whether position `f` holds the first modulation with key `k` in `view`.
pub open spec fn is_first_of_key<N>(view: View, mods: Seq<InternalModulation<N>>, k: usize, f: int) -> bool {
    &&& 0 <= f < mods.len()
    &&& group_key(view, mods[f]) == k
    &&& forall|j: int| 0 <= j < f ==> #[trigger] group_key(view, mods[j]) != k
}

/// Whether a group with key `k` stands for `reference` and is named `name`:
/// as the last base group with that key, if there is one, and otherwise as
/// the first modulation with that key.
pub open spec fn is_group_head<N>(
    view: View,
    base: Seq<Source>,
    mods: Seq<InternalModulation<N>>,
    k: usize,
    reference: Reference,
    name: String,
) -> bool {
    if has_base_key(base, k) {
        exists|i: int| #[trigger] is_last_base(base, k, i) && reference == Reference::Source(base[i].reference)
            && name == base[i].name
    } else {
        exists|f: int| #[trigger] is_first_of_key(view, mods, k, f) && reference == group_reference(view, mods[f])
            && name == group_name(view, mods[f])
    }
}

/// Whether `g` is the group with key `g.index` of the list of `mods` in
/// `view`: its rows, its head, and its configuration mode.
pub open spec fn is_group<N>(
    g: Group<N>,
    view: View,
    base: Seq<Source>,
    mods: Seq<InternalModulation<N>>,
    config_source: Option<SourceRef>,
) -> bool {
    &&& g.modulations@ == group_rows(view, mods, g.index)
    &&& is_group_head(view, base, mods, g.index, g.reference, g.name)
    &&& reference_key(g.reference) == g.index
    &&& g.config_mode == config_mode_for(g.reference, config_source)
}

/// Whether `groups` is the grouped list of `mods` in `view`: one group per
/// key of a base group or of a modulation, in increasing key order, each with
/// its head, its configuration mode and all its rows.
pub open spec fn is_group_list<N>(
    groups: Seq<Group<N>>,
    view: View,
    base: Seq<Source>,
    mods: Seq<InternalModulation<N>>,
    config_source: Option<SourceRef>,
) -> bool {
    &&& forall|p: int, q: int| 0 <= p < q < groups.len() ==> #[trigger] groups[p].index < #[trigger] groups[q].index
    &&& forall|k: usize| (exists|p: int| 0 <= p < groups.len() && #[trigger] groups[p].index == k)
        <==> is_group_key(view, base, mods, k)
    &&& forall|p: int| 0 <= p < groups.len() ==> is_group(#[trigger] groups[p], view, base, mods, config_source)
}

proof fn lemma_group_rows_step<N>(view: View, mods: Seq<InternalModulation<N>>, j: int, k: usize)
    requires
        0 <= j < mods.len(),
    ensures
        group_rows(view, mods.take(j + 1), k) == (if group_key(view, mods[j]) == k {
            group_rows(view, mods.take(j), k).push(row_of(mods[j], j as usize, row_name(view, mods[j])))
        } else {
            group_rows(view, mods.take(j), k)
        }),
{
    assert(mods.take(j + 1).drop_last() =~= mods.take(j));
}

proof fn lemma_group_rows_none<N>(view: View, mods: Seq<InternalModulation<N>>, k: usize)
    requires
        !has_modulation_key(view, mods, k),
    ensures
        group_rows(view, mods, k) == Seq::<Modulation<N>>::empty(),
    decreases mods.len(),
{
    if mods.len() > 0 {
        let rest = mods.drop_last();
        assert forall|j: int| 0 <= j < rest.len() implies #[trigger] group_key(view, rest[j]) != k by {
            assert(group_key(view, mods[j]) != k);
        }
        lemma_group_rows_none(view, rest, k);
        assert(group_key(view, mods[mods.len() - 1]) != k);
    }
}

proof fn lemma_group_next_modulation<N>(
    g: Group<N>,
    view: View,
    base: Seq<Source>,
    mods: Seq<InternalModulation<N>>,
    j: int,
    config_source: Option<SourceRef>,
)
    requires
        0 <= j < mods.len(),
        is_group(g, view, base, mods.take(j), config_source),
        g.index != group_key(view, mods[j]),
    ensures
        is_group(g, view, base, mods.take(j + 1), config_source),
{
    lemma_group_rows_step(view, mods, j, g.index);
    if !has_base_key(base, g.index) {
        let f = choose|f: int| #[trigger] is_first_of_key(view, mods.take(j), g.index, f)
            && g.reference == group_reference(view, mods.take(j)[f]) && g.name == group_name(view, mods.take(j)[f]);
        assert(is_first_of_key(view, mods.take(j + 1), g.index, f)) by {
            assert forall|i: int| 0 <= i < f implies #[trigger] group_key(view, mods.take(j + 1)[i]) != g.index by {
                assert(mods.take(j + 1)[i] == mods.take(j)[i]);
            }
        }
    }
}

proof fn lemma_group_next_base<N>(
    g: Group<N>,
    view: View,
    base: Seq<Source>,
    b: int,
    config_source: Option<SourceRef>,
)
    requires
        0 <= b < base.len(),
        is_group(g, view, base.take(b), Seq::<InternalModulation<N>>::empty(), config_source),
        has_base_key(base.take(b), g.index),
        g.index != base[b].reference.0,
    ensures
        is_group(g, view, base.take(b + 1), Seq::<InternalModulation<N>>::empty(), config_source),
{
    let i = choose|i: int| #[trigger] is_last_base(base.take(b), g.index, i)
        && g.reference == Reference::Source(base.take(b)[i].reference) && g.name == base.take(b)[i].name;
    assert(is_last_base(base.take(b + 1), g.index, i));
    assert(base.take(b + 1)[i] == base.take(b)[i]);
    assert(base.take(b + 1)[i].reference.0 == g.index);
}

proof fn lemma_first_modulation_unique<N>(mods: Seq<InternalModulation<N>>, s: SourceRef, p: ParamRef, i: int)
    requires
        is_first_modulation(mods, s, p, i),
    ensures
        first_modulation(mods, s, p) == i,
{
    let k = first_modulation(mods, s, p);
    assert(is_first_modulation(mods, s, p, k));
    if k < i {
        assert(mods[k].source_ref == s && mods[k].param_ref == p);
    } else if i < k {
        assert(mods[i].source_ref == s && mods[i].param_ref == p);
    }
}

proof fn lemma_first_source_unique(sources: Seq<Source>, s: SourceRef, i: int)
    requires
        is_first_source(sources, s, i),
    ensures
        first_source(sources, s) == i,
{
    let k = first_source(sources, s);
    assert(is_first_source(sources, s, k));
    if k < i {
        assert(sources[k].reference == s);
    } else if i < k {
        assert(sources[i].reference == s);
    }
}

proof fn lemma_first_param_unique<N>(params: Seq<Param<N>>, p: ParamRef, i: int)
    requires
        is_first_param(params, p, i),
    ensures
        first_param(params, p) == i,
{
    let k = first_param(params, p);
    assert(is_first_param(params, p, k));
    if k < i {
        assert(params[k].param_ref == p);
    } else if i < k {
        assert(params[i].param_ref == p);
    }
}

impl<N: Copy> Modulations<N> {
    /// The list of the sources, parameters and modulations of `program`,
    /// grouped by source, with no source being configured; `zero` is the
    /// modulation that the parameters show at first.
    pub fn new(program: &Program<N>, zero: N) -> (list: Modulations<N>)
        ensures
            list.view == View::GroupBySource,
            list.config_source == None::<SourceRef>,
            list.sources@ == program_sources(program.sources@),
            list.params@ == program_params(program.params@, zero),
            list.modulations@ == program_modulations(program.sources@, program.params@),
    {
        let mut sources: Vec<Source> = Vec::new();
        let ns = program.sources.len();
        for index in 0..ns
            invariant
                ns == program.sources@.len(),
                sources@ == program_sources(program.sources@).take(index as int),
        {
            let source = Source { name: program.sources[index].id.clone(), reference: SourceRef::new(index) };
            sources.push(source);
            assert(sources@ =~= program_sources(program.sources@).take(index + 1));
        }
        assert(sources@ =~= program_sources(program.sources@));
        let mut params: Vec<Param<N>> = Vec::new();
        let mut modulations: Vec<InternalModulation<N>> = Vec::new();
        let np = program.params.len();
        assert(program.params@.take(0) =~= Seq::<ProgramParam<N>>::empty());
        for index in 0..np
            invariant
                np == program.params@.len(),
                params@ == program_params(program.params@, zero).take(index as int),
                modulations@ == program_modulations(program.sources@, program.params@.take(index as int)),
        {
            let param_ref = ParamRef::new(index);
            let param = &program.params[index];
            params.push(Param::from(param_ref, param, zero));
            assert(params@ =~= program_params(program.params@, zero).take(index + 1));
            let ghost start = modulations@;
            let nm = param.modulations.len();
            assert(param.modulations@.take(0) =~= Seq::<ParamModulation<N>>::empty());
            for k in 0..nm
                invariant
                    nm == param.modulations@.len(),
                    param == program.params@[index as int],
                    modulations@ == start + param_modulations(
                        program.sources@,
                        param_ref,
                        *param,
                        param.modulations@.take(k as int),
                    ),
            {
                let param_modulation = param.modulations[k];
                assert(param.modulations@.take(k + 1).drop_last() =~= param.modulations@.take(k as int));
                match program.get_source(param_modulation.source_ref) {
                    Some(source) => {
                        let modulation = InternalModulation {
                            source_ref: param_modulation.source_ref,
                            source_name: source.id.clone(),
                            param_ref,
                            param_name: param.id.clone(),
                            origin: param.values.origin,
                            min: param.values.min,
                            max: param.values.max,
                            step: param.values.resolution,
                            amount: param_modulation.amount,
                        };
                        modulations.push(modulation);
                    },
                    None => {},
                }
                assert(modulations@ =~= start + param_modulations(
                    program.sources@,
                    param_ref,
                    *param,
                    param.modulations@.take(k + 1),
                ));
            }
            assert(param.modulations@.take(nm as int) =~= param.modulations@);
            assert(program.params@.take(index + 1).drop_last() =~= program.params@.take(index as int));
            assert(modulations@ =~= program_modulations(program.sources@, program.params@.take(index + 1)));
        }
        assert(program.params@.take(np as int) =~= program.params@);
        assert(params@ =~= program_params(program.params@, zero));
        Modulations { view: View::GroupBySource, modulations, config_source: None, sources, params }
    }

    /// Starts configuring the modulations of `source_ref`.
    pub fn start_config(&mut self, source_ref: SourceRef)
        ensures
            final(self).config_source == Some(source_ref),
            final(self).view == old(self).view,
            final(self).modulations@ == old(self).modulations@,
            final(self).sources@ == old(self).sources@,
            final(self).params@ == old(self).params@,
    {
        self.config_source = Some(source_ref);
    }

    /// Stops configuring `source_ref`; configuring another source goes on.
    pub fn stop_config(&mut self, source_ref: SourceRef)
        ensures
            final(self).config_source == stopped_config(old(self).config_source, source_ref),
            final(self).view == old(self).view,
            final(self).modulations@ == old(self).modulations@,
            final(self).sources@ == old(self).sources@,
            final(self).params@ == old(self).params@,
    {
        self.config_source = match self.config_source {
            Some(v) => if v != source_ref { Some(v) } else { None },
            None => None,
        };
    }

    /// For each parameter that `source_ref` modulates, the amount of its
    /// (last) modulation.
    pub fn get_config_amounts_by_param(&self, source_ref: SourceRef) -> (amounts: std::collections::HashMap<usize, N>)
        ensures
            amounts@ == config_amounts(self.modulations@, source_ref),
    {
        broadcast use vstd::std_specs::hash::group_hash_axioms;
        let mut amounts: std::collections::HashMap<usize, N> = std::collections::HashMap::new();
        let n = self.modulations.len();
        for i in 0..n
            invariant
                n == self.modulations@.len(),
                amounts@ == config_amounts(self.modulations@.take(i as int), source_ref),
        {
            let modulation = &self.modulations[i];
            assert(self.modulations@.take(i + 1).drop_last() =~= self.modulations@.take(i as int));
            if modulation.source_ref == source_ref {
                amounts.insert(modulation.param_ref.0, modulation.amount);
            }
        }
        assert(self.modulations@.take(n as int) =~= self.modulations@);
        amounts
    }

    /// The terms of the total modulation of `param_ref`: the amounts of its
    /// modulations, in list order. Their sum, in the number type of the
    /// amounts, is the parameter's total amount.
    pub fn get_total_amounts_for_param(&self, param_ref: ParamRef) -> (amounts: Vec<N>)
        ensures
            amounts@ == amounts_for_param(self.modulations@, param_ref),
    {
        let mut amounts: Vec<N> = Vec::new();
        let n = self.modulations.len();
        for i in 0..n
            invariant
                n == self.modulations@.len(),
                amounts@ == amounts_for_param(self.modulations@.take(i as int), param_ref),
        {
            let modulation = &self.modulations[i];
            assert(self.modulations@.take(i + 1).drop_last() =~= self.modulations@.take(i as int));
            if modulation.param_ref == param_ref {
                amounts.push(modulation.amount);
            }
        }
        assert(self.modulations@.take(n as int) =~= self.modulations@);
        amounts
    }

    /// For each parameter that is modulated, the terms of its total
    /// modulation: the amounts of its modulations, in list order.
    pub fn get_total_amounts_by_param(&self) -> (amounts: std::collections::HashMap<usize, Vec<N>>)
        ensures
            is_amounts_by_param(amounts@, self.modulations@),
    {
        broadcast use vstd::std_specs::hash::group_hash_axioms;
        let mut amounts: std::collections::HashMap<usize, Vec<N>> = std::collections::HashMap::new();
        let n = self.modulations.len();
        for i in 0..n
            invariant
                n == self.modulations@.len(),
                is_amounts_by_param(amounts@, self.modulations@.take(i as int)),
        {
            let ghost before = amounts@;
            let modulation = &self.modulations[i];
            let key = modulation.param_ref.0;
            let mut list = match amounts.remove(&key) {
                Some(list) => list,
                None => Vec::new(),
            };
            list.push(modulation.amount);
            amounts.insert(key, list);
            proof {
                let mods = self.modulations@;
                let prefix = mods.take(i as int);
                let next = mods.take(i + 1);
                assert forall|k: usize| #[trigger] amounts@.contains_key(k) <==> modulates_param(next, k) by {
                    if k == key {
                        assert(next[i as int].param_ref.0 == k);
                    } else if modulates_param(next, k) {
                        let j = choose|j: int| 0 <= j < next.len() && #[trigger] next[j].param_ref.0 == k;
                        assert(prefix[j].param_ref.0 == k);
                    } else if before.contains_key(k) {
                        let j = choose|j: int| 0 <= j < prefix.len() && #[trigger] prefix[j].param_ref.0 == k;
                        assert(next[j].param_ref.0 == k);
                    }
                }
                assert forall|k: usize| #[trigger] amounts@.contains_key(k) implies amounts@[k]@ == amounts_for_param(next, ParamRef(k)) by {
                    lemma_amounts_for_param_step(mods, i as int, ParamRef(k));
                    if k == key && !before.contains_key(k) {
                        lemma_no_modulation_no_amounts(prefix, ParamRef(k));
                    }
                }
            }
        }
        assert(self.modulations@.take(n as int) =~= self.modulations@);
        amounts
    }

    /// The position at which the group with key `key` is, or would be, in
    /// a list of groups in increasing key order.
    fn find_group(groups: &Vec<Group<N>>, key: usize) -> (found: (usize, bool))
        requires
            forall|p: int, q: int| 0 <= p < q < groups@.len() ==> #[trigger] groups@[p].index < #[trigger] groups@[q].index,
        ensures
            found.0 <= groups@.len(),
            forall|p: int| 0 <= p < found.0 ==> #[trigger] groups@[p].index < key,
            found.1 ==> found.0 < groups@.len() && groups@[found.0 as int].index == key,
            !found.1 ==> forall|p: int| found.0 <= p < groups@.len() ==> #[trigger] groups@[p].index > key,
    {
        let n = groups.len();
        let mut i: usize = 0;
        while i < n
            invariant
                n == groups@.len(),
                i <= n,
                forall|p: int| 0 <= p < i ==> #[trigger] groups@[p].index < key,
                forall|p: int, q: int| 0 <= p < q < groups@.len() ==> #[trigger] groups@[p].index < #[trigger] groups@[q].index,
            decreases n - i,
        {
            let index = groups[i].index;
            if index == key {
                return (i, true);
            }
            if index > key {
                assert forall|p: int| i <= p < groups@.len() implies #[trigger] groups@[p].index > key by {
                    if p > i {
                        assert(groups@[i as int].index < groups@[p].index);
                    }
                }
                return (i, false);
            }
            i = i + 1;
        }
        (i, false)
    }

    /// The grouped list of all modulations in `view`: when grouping by
    /// source, one group per source (named after it) even without
    /// modulations; besides, one group per key of a modulation; in increasing
    /// key order, each with the rows of its modulations in list order.
    pub fn groups(&self, view: View) -> (groups: Vec<Group<N>>)
        ensures
            is_group_list(groups@, view, base_groups(view, self.sources@), self.modulations@, self.config_source),
    {
        let mut groups: Vec<Group<N>> = Vec::new();
        let ghost base = base_groups(view, self.sources@);
        let ghost no_mods = Seq::<InternalModulation<N>>::empty();
        let nb: usize = match view {
            View::GroupBySource => self.sources.len(),
            View::GroupByParam => 0,
        };
        assert(base.take(0) =~= Seq::<Source>::empty());
        for b in 0..nb
            invariant
                nb == base.len(),
                base == base_groups(view, self.sources@),
                nb > 0 ==> base == self.sources@,
                no_mods == Seq::<InternalModulation<N>>::empty(),
                is_group_list(groups@, view, base.take(b as int), no_mods, self.config_source),
        {
            let ghost before = groups@;
            let source = &self.sources[b];
            let key = source.reference.0;
            let reference = Reference::Source(source.reference);
            let config_mode = if reference.matches(self.config_source) {
                ConfigMode::Ongoing
            } else {
                ConfigMode::Ready
            };
            let group = Group { index: key, reference, name: source.name.clone(), modulations: Vec::new(), config_mode };
            let found = Self::find_group(&groups, key);
            let pos = found.0;
            if found.1 {
                groups.set(pos, group);
            } else {
                groups.insert(pos, group);
            }
            proof {
                let b0 = base.take(b as int);
                let b1 = base.take(b + 1);
                assert(b1[b as int] == base[b as int]);
                assert(is_last_base(b1, key, b as int));
                assert(has_base_key(b1, key));
                assert(group.modulations@ =~= group_rows(view, no_mods, key));
                assert(is_group(group, view, b1, no_mods, self.config_source));
                assert forall|k: usize| has_base_key(b1, k) <==> (has_base_key(b0, k) || k == key) by {
                    if has_base_key(b1, k) && k != key {
                        let i = choose|i: int| 0 <= i < b1.len() && #[trigger] b1[i].reference.0 == k;
                        assert(b0[i] == b1[i]);
                    }
                    if has_base_key(b0, k) {
                        let i = choose|i: int| 0 <= i < b0.len() && #[trigger] b0[i].reference.0 == k;
                        assert(b0[i] == b1[i]);
                    }
                }
                assert forall|k: usize| !has_modulation_key(view, no_mods, k) by {}
                let after = groups@;
                assert forall|q: int| 0 <= q < after.len() implies is_group(#[trigger] after[q], view, b1, no_mods, self.config_source) by {
                    if after[q].index != key {
                        let p = if !found.1 && q > pos { q - 1 } else { q };
                        assert(after[q] == before[p]);
                        assert(has_base_key(b0, before[p].index));
                        lemma_group_next_base(before[p], view, base, b as int, self.config_source);
                    }
                }
                if found.1 {
                    assert(after =~= before.update(pos as int, group));
                } else {
                    assert(after =~= before.insert(pos as int, group));
                }
                assert forall|p: int, q: int| 0 <= p < q < after.len() implies #[trigger] after[p].index < #[trigger] after[q].index by {
                    if !found.1 {
                        if p < pos && q > pos {
                            assert(after[q] == before[q - 1]);
                        } else if p > pos {
                            assert(after[p] == before[p - 1]);
                            assert(after[q] == before[q - 1]);
                        }
                    }
                }
                assert forall|k: usize| (exists|q: int| 0 <= q < after.len() && #[trigger] after[q].index == k)
                    <==> is_group_key(view, b1, no_mods, k) by {
                    if is_group_key(view, b1, no_mods, k) && k != key {
                        assert(has_base_key(b0, k));
                        assert(is_group_key(view, b0, no_mods, k));
                        let p = choose|p: int| 0 <= p < before.len() && #[trigger] before[p].index == k;
                        let q = if !found.1 && p >= pos { p + 1 } else { p };
                        assert(after[q] == before[p]);
                    }
                    if k == key {
                        assert(after[pos as int].index == key);
                    }
                    if exists|q: int| 0 <= q < after.len() && #[trigger] after[q].index == k {
                        let q = choose|q: int| 0 <= q < after.len() && #[trigger] after[q].index == k;
                        if k != key {
                            let p = if !found.1 && q > pos { q - 1 } else { q };
                            assert(after[q] == before[p]);
                        }
                    }
                }
            }
        }
        assert(base.take(nb as int) =~= base);
        assert(self.modulations@.take(0) =~= no_mods);
        let n = self.modulations.len();
        for j in 0..n
            invariant
                n == self.modulations@.len(),
                base == base_groups(view, self.sources@),
                is_group_list(groups@, view, base, self.modulations@.take(j as int), self.config_source),
        {
            let ghost before = groups@;
            let ghost mods = self.modulations@;
            let modulation = &self.modulations[j];
            let key = match view {
                View::GroupBySource => modulation.source_ref.0,
                View::GroupByParam => modulation.param_ref.0,
            };
            let found = Self::find_group(&groups, key);
            let pos = found.0;
            if !found.1 {
                let (reference, name) = match view {
                    View::GroupBySource => (Reference::Source(modulation.source_ref), modulation.source_name.clone()),
                    View::GroupByParam => (Reference::Param(modulation.param_ref), modulation.param_name.clone()),
                };
                let config_mode = if reference.matches(self.config_source) {
                    ConfigMode::Ongoing
                } else {
                    ConfigMode::Ready
                };
                groups.insert(pos, Group { index: key, reference, name, modulations: Vec::new(), config_mode });
            }
            let ghost middle = groups@;
            let row_name = match view {
                View::GroupBySource => modulation.param_name.clone(),
                View::GroupByParam => modulation.source_name.clone(),
            };
            let row = modulation.as_modulation(j, row_name);
            let mut group = groups.remove(pos);
            let ghost old_group = group;
            group.modulations.push(row);
            groups.insert(pos, group);
            proof {
                let m0 = mods.take(j as int);
                let m1 = mods.take(j + 1);
                assert(m1[j as int] == mods[j as int]);
                lemma_group_rows_step(view, mods, j as int, key);
                if !found.1 {
                    assert(!is_group_key(view, base, m0, key));
                    lemma_group_rows_none(view, m0, key);
                    assert(is_first_of_key(view, m1, key, j as int));
                    assert(middle[pos as int].modulations@ =~= group_rows(view, m0, key));
                } else {
                    assert(middle[pos as int] == before[pos as int]);
                    assert(is_group(before[pos as int], view, base, m0, self.config_source));
                    if !has_base_key(base, key) {
                        let f = choose|f: int| #[trigger] is_first_of_key(view, m0, key, f)
                            && old_group.reference == group_reference(view, m0[f]) && old_group.name == group_name(view, m0[f]);
                        assert(is_first_of_key(view, m1, key, f)) by {
                            assert forall|i: int| 0 <= i < f implies #[trigger] group_key(view, m1[i]) != key by {
                                assert(m1[i] == m0[i]);
                            }
                        }
                        assert(m1[f] == m0[f]);
                    }
                }
                assert(is_group(group, view, base, m1, self.config_source));
                assert forall|k: usize| has_modulation_key(view, m1, k) <==> (has_modulation_key(view, m0, k) || k == key) by {
                    if has_modulation_key(view, m1, k) && k != key {
                        let i = choose|i: int| 0 <= i < m1.len() && #[trigger] group_key(view, m1[i]) == k;
                        assert(m0[i] == m1[i]);
                    }
                    if has_modulation_key(view, m0, k) {
                        let i = choose|i: int| 0 <= i < m0.len() && #[trigger] group_key(view, m0[i]) == k;
                        assert(m0[i] == m1[i]);
                    }
                    if k == key {
                        assert(group_key(view, m1[j as int]) == k);
                    }
                }
                let after = groups@;
                if found.1 {
                    assert(after =~= before.update(pos as int, group));
                } else {
                    assert(after =~= before.insert(pos as int, group));
                }
                assert forall|q: int| 0 <= q < after.len() implies is_group(#[trigger] after[q], view, base, m1, self.config_source) by {
                    if after[q].index != key {
                        let p = if !found.1 && q > pos { q - 1 } else { q };
                        assert(after[q] == before[p]);
                        lemma_group_next_modulation(before[p], view, base, mods, j as int, self.config_source);
                    }
                }
                assert forall|p: int, q: int| 0 <= p < q < after.len() implies #[trigger] after[p].index < #[trigger] after[q].index by {
                    if !found.1 {
                        if p < pos && q > pos {
                            assert(after[q] == before[q - 1]);
                        } else if p > pos {
                            assert(after[p] == before[p - 1]);
                            assert(after[q] == before[q - 1]);
                        }
                    }
                }
                assert forall|k: usize| (exists|q: int| 0 <= q < after.len() && #[trigger] after[q].index == k)
                    <==> is_group_key(view, base, m1, k) by {
                    if is_group_key(view, base, m1, k) && k != key {
                        assert(is_group_key(view, base, m0, k));
                        let p = choose|p: int| 0 <= p < before.len() && #[trigger] before[p].index == k;
                        let q = if !found.1 && p >= pos { p + 1 } else { p };
                        assert(after[q] == before[p]);
                    }
                    if k == key {
                        assert(after[pos as int].index == key);
                    }
                    if exists|q: int| 0 <= q < after.len() && #[trigger] after[q].index == k {
                        let q = choose|q: int| 0 <= q < after.len() && #[trigger] after[q].index == k;
                        if k != key {
                            let p = if !found.1 && q > pos { q - 1 } else { q };
                            assert(after[q] == before[p]);
                        }
                    }
                }
            }
        }
        assert(self.modulations@.take(n as int) =~= self.modulations@);
        groups
    }

    /// How many rows the grouped list has in `view`: one per distinct key of
    /// a base group, plus one per modulation.
    pub fn count(&self, view: View) -> (n: usize)
        requires
            view == View::GroupBySource ==> self.sources@.len() + self.modulations@.len() <= usize::MAX,
        ensures
            n == base_key_set(base_groups(view, self.sources@)).len() + self.modulations@.len(),
    {
        let ghost base = base_groups(view, self.sources@);
        let nb: usize = match view {
            View::GroupBySource => self.sources.len(),
            View::GroupByParam => 0,
        };
        let mut keys: Vec<usize> = Vec::new();
        assert(keys@.to_set() =~= base_key_set(base.take(0)));
        for b in 0..nb
            invariant
                nb == base.len(),
                nb > 0 ==> base == self.sources@,
                keys@.no_duplicates(),
                keys@.len() <= b,
                keys@.to_set() == base_key_set(base.take(b as int)),
        {
            let key = self.sources[b].reference.0;
            let mut seen = false;
            let nk = keys.len();
            for i in 0..nk
                invariant
                    nk == keys@.len(),
                    seen <==> exists|j: int| 0 <= j < i && keys@[j] == key,
            {
                if keys[i] == key {
                    seen = true;
                }
            }
            let ghost before = keys@;
            if !seen {
                keys.push(key);
            }
            proof {
                let b0 = base.take(b as int);
                let b1 = base.take(b + 1);
                assert(b1[b as int].reference.0 == key);
                assert forall|k: usize| #[trigger] keys@.to_set().contains(k) <==> base_key_set(b1).contains(k) by {
                    if has_base_key(b1, k) && k != key {
                        let i = choose|i: int| 0 <= i < b1.len() && #[trigger] b1[i].reference.0 == k;
                        assert(b0[i] == b1[i]);
                        assert(base_key_set(b0).contains(k));
                        assert(before.contains(k));
                        let j = choose|j: int| 0 <= j < before.len() && before[j] == k;
                        assert(keys@[j] == k);
                    }
                    if keys@.contains(k) && k != key {
                        let j = choose|j: int| 0 <= j < keys@.len() && keys@[j] == k;
                        assert(before[j] == k);
                        assert(before.to_set().contains(k));
                        assert(base_key_set(b0).contains(k));
                        let i = choose|i: int| 0 <= i < b0.len() && #[trigger] b0[i].reference.0 == k;
                        assert(b0[i] == b1[i]);
                    }
                    if k == key {
                        assert(has_base_key(b1, k));
                        if seen {
                            let j = choose|j: int| 0 <= j < nk && before[j] == key;
                            assert(keys@[j] == key);
                        } else {
                            assert(keys@[keys@.len() - 1] == key);
                        }
                    }
                }
                assert(keys@.to_set() =~= base_key_set(b1));
            }
        }
        assert(base.take(nb as int) =~= base);
        proof {
            keys@.unique_seq_to_set();
        }
        keys.len() + self.modulations.len()
    }

    /// How many rows the grouped list has in its current view.
    pub fn data_len(&self) -> (n: usize)
        requires
            self.view == View::GroupBySource ==> self.sources@.len() + self.modulations@.len() <= usize::MAX,
        ensures
            n == base_key_set(base_groups(self.view, self.sources@)).len() + self.modulations@.len(),
    {
        self.count(self.view)
    }

    /// The grouped list in its current view.
    pub fn view_groups(&self) -> (groups: Vec<Group<N>>)
        ensures
            is_group_list(groups@, self.view, base_groups(self.view, self.sources@), self.modulations@, self.config_source),
    {
        self.groups(self.view)
    }

    /// Copies the amount of each row of `group` back to the modulation at
    /// the row's position, as the list does after a group was edited; where
    /// two rows share a position the later one wins.
    pub fn update_amounts_from_group(&mut self, group: &Group<N>)
        requires
            forall|r: int| 0 <= r < group.modulations@.len() ==> #[trigger] group.modulations@[r].index
                < old(self).modulations@.len(),
        ensures
            final(self).modulations@.len() == old(self).modulations@.len(),
            forall|i: int| 0 <= i < old(self).modulations@.len() ==> #[trigger] final(self).modulations@[i] == with_amount(
                old(self).modulations@[i],
                written_amount(group.modulations@, i as usize, old(self).modulations@[i].amount),
            ),
            final(self).view == old(self).view,
            final(self).config_source == old(self).config_source,
            final(self).sources@ == old(self).sources@,
            final(self).params@ == old(self).params@,
    {
        let nr = group.modulations.len();
        let nm = self.modulations.len();
        assert forall|i: int| 0 <= i < self.modulations@.len() implies #[trigger] self.modulations@[i] == with_amount(
            old(self).modulations@[i],
            written_amount(group.modulations@.take(0), i as usize, old(self).modulations@[i].amount),
        ) by {
            assert(group.modulations@.take(0).len() == 0);
        }
        for r in 0..nr
            invariant
                nr == group.modulations@.len(),
                nm == old(self).modulations@.len(),
                self.modulations@.len() == old(self).modulations@.len(),
                forall|q: int| 0 <= q < group.modulations@.len() ==> #[trigger] group.modulations@[q].index
                    < old(self).modulations@.len(),
                forall|i: int| 0 <= i < old(self).modulations@.len() ==> #[trigger] self.modulations@[i] == with_amount(
                    old(self).modulations@[i],
                    written_amount(group.modulations@.take(r as int), i as usize, old(self).modulations@[i].amount),
                ),
                self.view == old(self).view,
                self.config_source == old(self).config_source,
                self.sources@ == old(self).sources@,
                self.params@ == old(self).params@,
        {
            let row = &group.modulations[r];
            let index = row.index;
            let m = &self.modulations[index];
            let updated = InternalModulation {
                source_ref: m.source_ref,
                source_name: m.source_name.clone(),
                param_ref: m.param_ref,
                param_name: m.param_name.clone(),
                origin: m.origin,
                min: m.min,
                max: m.max,
                step: m.step,
                amount: row.amount,
            };
            self.modulations.set(index, updated);
            proof {
                let rows = group.modulations@;
                assert(rows.take(r + 1).drop_last() =~= rows.take(r as int));
                assert(rows.take(r + 1).last() == rows[r as int]);
                assert forall|i: int| 0 <= i < old(self).modulations@.len() implies #[trigger] self.modulations@[i] == with_amount(
                    old(self).modulations@[i],
                    written_amount(rows.take(r + 1), i as usize, old(self).modulations@[i].amount),
                ) by {
                    if i == index as int {
                        assert(self.modulations@[i].amount == row.amount);
                    } else {
                        assert((i as usize) != index);
                    }
                }
            }
        }
        assert(group.modulations@.take(nr as int) =~= group.modulations@);
    }

    /// The first source with reference `source_ref`.
    pub fn get_source(&self, source_ref: SourceRef) -> (source: Option<&Source>)
        ensures
            source is Some <==> has_source(self.sources@, source_ref),
            source matches Some(s) ==> is_first_source(self.sources@, source_ref, first_source(self.sources@, source_ref))
                && *s == self.sources@[first_source(self.sources@, source_ref)],
    {
        let n = self.sources.len();
        for i in 0..n
            invariant
                n == self.sources@.len(),
                forall|j: int| 0 <= j < i ==> #[trigger] self.sources@[j].reference != source_ref,
        {
            if self.sources[i].reference == source_ref {
                proof {
                    lemma_first_source_unique(self.sources@, source_ref, i as int);
                }
                return Some(&self.sources[i]);
            }
        }
        None
    }

    /// The first parameter with reference `param_ref`.
    pub fn get_param(&self, param_ref: ParamRef) -> (param: Option<&Param<N>>)
        ensures
            param is Some <==> has_param(self.params@, param_ref),
            param matches Some(p) ==> is_first_param(self.params@, param_ref, first_param(self.params@, param_ref))
                && *p == self.params@[first_param(self.params@, param_ref)],
    {
        let n = self.params.len();
        for i in 0..n
            invariant
                n == self.params@.len(),
                forall|j: int| 0 <= j < i ==> #[trigger] self.params@[j].param_ref != param_ref,
        {
            if self.params[i].param_ref == param_ref {
                proof {
                    lemma_first_param_unique(self.params@, param_ref, i as int);
                }
                return Some(&self.params[i]);
            }
        }
        None
    }

    /// Adds `modulation` at the end of the list; the synth must then be told
    /// its amount.
    pub fn add_modulation(&mut self, modulation: InternalModulation<N>) -> (command: ModulationCommand<N>)
        ensures
            final(self).modulations@ == old(self).modulations@.push(modulation),
            command == (ModulationCommand::Update {
                source_ref: modulation.source_ref,
                param_ref: modulation.param_ref,
                amount: modulation.amount,
            }),
            final(self).view == old(self).view,
            final(self).config_source == old(self).config_source,
            final(self).sources@ == old(self).sources@,
            final(self).params@ == old(self).params@,
    {
        let command = ModulationCommand::Update {
            source_ref: modulation.source_ref,
            param_ref: modulation.param_ref,
            amount: modulation.amount,
        };
        self.modulations.push(modulation);
        command
    }

    /// Sets the amount of the (first) modulation of `param_ref` by
    /// `source_ref`; where there is none, adds one from the source's and the
    /// parameter's descriptions, and the synth must be told of it.
    pub fn update_modulation(&mut self, source_ref: SourceRef, param_ref: ParamRef, config_amount: N) -> (command: Option<ModulationCommand<N>>)
        requires
            has_modulation(old(self).modulations@, source_ref, param_ref)
                || (has_source(old(self).sources@, source_ref) && has_param(old(self).params@, param_ref)),
        ensures
            final(self).modulations@ == updated_modulations(
                old(self).modulations@,
                old(self).sources@,
                old(self).params@,
                source_ref,
                param_ref,
                config_amount,
            ),
            command == (if has_modulation(old(self).modulations@, source_ref, param_ref) {
                None
            } else {
                Some(ModulationCommand::Update { source_ref, param_ref, amount: config_amount })
            }),
            final(self).view == old(self).view,
            final(self).config_source == old(self).config_source,
            final(self).sources@ == old(self).sources@,
            final(self).params@ == old(self).params@,
    {
        let n = self.modulations.len();
        let mut i: usize = 0;
        while i < n
            invariant
                n == self.modulations@.len(),
                i <= n,
                self.modulations@ == old(self).modulations@,
                self.sources@ == old(self).sources@,
                self.params@ == old(self).params@,
                self.view == old(self).view,
                self.config_source == old(self).config_source,
                forall|j: int| 0 <= j < i ==> !(#[trigger] self.modulations@[j].source_ref == source_ref
                    && self.modulations@[j].param_ref == param_ref),
            decreases n - i,
        {
            if self.modulations[i].source_ref == source_ref && self.modulations[i].param_ref == param_ref {
                proof {
                    lemma_first_modulation_unique(self.modulations@, source_ref, param_ref, i as int);
                }
                let m = &self.modulations[i];
                let updated = InternalModulation {
                    source_ref: m.source_ref,
                    source_name: m.source_name.clone(),
                    param_ref: m.param_ref,
                    param_name: m.param_name.clone(),
                    origin: m.origin,
                    min: m.min,
                    max: m.max,
                    step: m.step,
                    amount: config_amount,
                };
                self.modulations.set(i, updated);
                return None;
            }
            i = i + 1;
        }
        let source_name = match self.get_source(source_ref) {
            Some(source) => source.name.clone(),
            None => {
                proof {
                    assert(false);
                }
                String::new()
            },
        };
        let param = self.get_param(param_ref);
        let modulation = match param {
            Some(param) => InternalModulation {
                source_ref,
                source_name,
                param_ref,
                param_name: param.name.clone(),
                amount: config_amount,
                origin: param.origin,
                min: param.min,
                max: param.max,
                step: param.step,
            },
            None => {
                proof {
                    assert(false);
                }
                return None;
            },
        };
        Some(self.add_modulation(modulation))
    }

    /// Removes the first modulation of `param_ref` by `source_ref`, if there
    /// is one; the synth must be told to delete it in any case.
    pub fn delete_modulation(&mut self, source_ref: SourceRef, param_ref: ParamRef) -> (command: ModulationCommand<N>)
        ensures
            final(self).modulations@ == deleted_modulations(old(self).modulations@, source_ref, param_ref),
            command == (ModulationCommand::<N>::Delete { source_ref, param_ref }),
            final(self).view == old(self).view,
            final(self).config_source == old(self).config_source,
            final(self).sources@ == old(self).sources@,
            final(self).params@ == old(self).params@,
    {
        let n = self.modulations.len();
        let mut i: usize = 0;
        while i < n
            invariant
                n == self.modulations@.len(),
                i <= n,
                self.modulations@ == old(self).modulations@,
                self.sources@ == old(self).sources@,
                self.params@ == old(self).params@,
                self.view == old(self).view,
                self.config_source == old(self).config_source,
                forall|j: int| 0 <= j < i ==> !(#[trigger] self.modulations@[j].source_ref == source_ref
                    && self.modulations@[j].param_ref == param_ref),
            decreases n - i,
        {
            if self.modulations[i].source_ref == source_ref && self.modulations[i].param_ref == param_ref {
                proof {
                    lemma_first_modulation_unique(self.modulations@, source_ref, param_ref, i as int);
                }
                self.modulations.remove(i);
                return ModulationCommand::Delete { source_ref, param_ref };
            }
            i = i + 1;
        }
        ModulationCommand::Delete { source_ref, param_ref }
    }
}

/// Whether no two modulations are of the same parameter by the same source.
pub open spec fn unique_modulations<N>(mods: Seq<InternalModulation<N>>) -> bool {
    forall|i: int, j: int| 0 <= i < j < mods.len() ==> !(#[trigger] mods[i].source_ref == #[trigger] mods[j].source_ref
        && mods[i].param_ref == mods[j].param_ref)
}

proof fn lemma_first_modulation_exists<N>(mods: Seq<InternalModulation<N>>, s: SourceRef, p: ParamRef)
    requires
        has_modulation(mods, s, p),
    ensures
        is_first_modulation(mods, s, p, first_modulation(mods, s, p)),
    decreases mods.len(),
{
    let rest = mods.drop_last();
    if has_modulation(rest, s, p) {
        lemma_first_modulation_exists(rest, s, p);
        let f = first_modulation(rest, s, p);
        assert(is_first_modulation(mods, s, p, f)) by {
            assert forall|j: int| 0 <= j < f implies !(#[trigger] mods[j].source_ref == s && mods[j].param_ref == p) by {
                assert(rest[j] == mods[j]);
            }
            assert(rest[f] == mods[f]);
        }
    } else {
        let f = mods.len() - 1;
        assert(is_first_modulation(mods, s, p, f)) by {
            assert forall|j: int| 0 <= j < f implies !(#[trigger] mods[j].source_ref == s && mods[j].param_ref == p) by {
                assert(rest[j] == mods[j]);
                if mods[j].source_ref == s && mods[j].param_ref == p {
                    assert(rest[j].source_ref == s && rest[j].param_ref == p);
                }
            }
            let i = choose|i: int| 0 <= i < mods.len() && #[trigger] mods[i].source_ref == s && mods[i].param_ref == p;
            if i < f {
                assert(rest[i] == mods[i]);
            }
        }
    }
    assert(is_first_modulation(mods, s, p, first_modulation(mods, s, p)));
}

proof fn lemma_first_source_exists(sources: Seq<Source>, s: SourceRef)
    requires
        has_source(sources, s),
    ensures
        is_first_source(sources, s, first_source(sources, s)),
    decreases sources.len(),
{
    let rest = sources.drop_last();
    if has_source(rest, s) {
        lemma_first_source_exists(rest, s);
        let f = first_source(rest, s);
        assert(is_first_source(sources, s, f)) by {
            assert forall|j: int| 0 <= j < f implies #[trigger] sources[j].reference != s by {
                assert(rest[j] == sources[j]);
            }
            assert(rest[f] == sources[f]);
        }
    } else {
        let f = sources.len() - 1;
        assert(is_first_source(sources, s, f)) by {
            assert forall|j: int| 0 <= j < f implies #[trigger] sources[j].reference != s by {
                assert(rest[j] == sources[j]);
            }
            let i = choose|i: int| 0 <= i < sources.len() && #[trigger] sources[i].reference == s;
            if i < f {
                assert(rest[i] == sources[i]);
            }
        }
    }
    assert(is_first_source(sources, s, first_source(sources, s)));
}

/// Configuring a source and then stopping it leaves no source configured;
/// stopping another source leaves it configured; stopping when none is
/// configured changes nothing.
pub proof fn law_stop_config_after_start(source: SourceRef, other: SourceRef)
    requires
        other != source,
    ensures
        stopped_config(Some(source), source) == None::<SourceRef>,
        stopped_config(Some(source), other) == Some(source),
        stopped_config(None, other) == None::<SourceRef>,
{
}

/// The arrow of a source group stops the configuration of that source
/// exactly while it is the source being configured, and starts it otherwise;
/// a parameter group asks for nothing.
pub proof fn law_config_arrow_toggles(source: SourceRef, param: ParamRef, config_source: Option<SourceRef>)
    ensures
        spec_config_request(
            Reference::Source(source),
            config_mode_for(Reference::Source(source), config_source),
        ) == (if config_source == Some(source) {
            Some(ConfigRequest::Stop(source))
        } else {
            Some(ConfigRequest::Start(source))
        }),
        spec_config_request(Reference::Param(param), config_mode_for(Reference::Param(param), config_source))
            == None::<ConfigRequest>,
{
}

/// Setting the amount of a modulation keeps every (source, parameter) pair
/// in the list at most once.
pub proof fn law_update_keeps_modulations_unique<N>(
    mods: Seq<InternalModulation<N>>,
    sources: Seq<Source>,
    params: Seq<Param<N>>,
    s: SourceRef,
    p: ParamRef,
    amount: N,
)
    requires
        unique_modulations(mods),
        has_modulation(mods, s, p) || (has_source(sources, s) && has_param(params, p)),
    ensures
        unique_modulations(updated_modulations(mods, sources, params, s, p, amount)),
        has_modulation(updated_modulations(mods, sources, params, s, p, amount), s, p),
{
    let after = updated_modulations(mods, sources, params, s, p, amount);
    if has_modulation(mods, s, p) {
        lemma_first_modulation_exists(mods, s, p);
        let f = first_modulation(mods, s, p);
        assert forall|i: int, j: int| 0 <= i < j < after.len() implies !(#[trigger] after[i].source_ref == #[trigger] after[j].source_ref
            && after[i].param_ref == after[j].param_ref) by {
            assert(mods[i].source_ref == mods[i].source_ref);
            assert(after[i].source_ref == mods[i].source_ref && after[i].param_ref == mods[i].param_ref);
            assert(after[j].source_ref == mods[j].source_ref && after[j].param_ref == mods[j].param_ref);
        }
        assert(after[f].source_ref == s && after[f].param_ref == p);
    } else {
        lemma_first_source_exists(sources, s);
        let pi = first_param(params, p);
        assert(is_first_param(params, p, pi)) by {
            let k = choose|k: int| 0 <= k < params.len() && #[trigger] params[k].param_ref == p;
            lemma_first_param_exists(params, p);
        }
        let n = mods.len() as int;
        assert(after[n].source_ref == s && after[n].param_ref == p);
        assert forall|i: int, j: int| 0 <= i < j < after.len() implies !(#[trigger] after[i].source_ref == #[trigger] after[j].source_ref
            && after[i].param_ref == after[j].param_ref) by {
            if j == n {
                assert(after[i] == mods[i]);
                if mods[i].source_ref == s && mods[i].param_ref == p {
                    assert(has_modulation(mods, s, p));
                }
            } else {
                assert(after[i] == mods[i]);
                assert(after[j] == mods[j]);
            }
        }
    }
}

proof fn lemma_first_param_exists<N>(params: Seq<Param<N>>, p: ParamRef)
    requires
        has_param(params, p),
    ensures
        is_first_param(params, p, first_param(params, p)),
    decreases params.len(),
{
    let rest = params.drop_last();
    if has_param(rest, p) {
        lemma_first_param_exists(rest, p);
        let f = first_param(rest, p);
        assert(is_first_param(params, p, f)) by {
            assert forall|j: int| 0 <= j < f implies #[trigger] params[j].param_ref != p by {
                assert(rest[j] == params[j]);
            }
            assert(rest[f] == params[f]);
        }
    } else {
        let f = params.len() - 1;
        assert(is_first_param(params, p, f)) by {
            assert forall|j: int| 0 <= j < f implies #[trigger] params[j].param_ref != p by {
                assert(rest[j] == params[j]);
            }
            let i = choose|i: int| 0 <= i < params.len() && #[trigger] params[i].param_ref == p;
            if i < f {
                assert(rest[i] == params[i]);
            }
        }
    }
    assert(is_first_param(params, p, first_param(params, p)));
}

proof fn lemma_config_amount_of<N>(mods: Seq<InternalModulation<N>>, s: SourceRef, i: int)
    requires
        0 <= i < mods.len(),
        mods[i].source_ref == s,
        forall|j: int| 0 <= j < mods.len() && j != i ==> !(#[trigger] mods[j].source_ref == s
            && mods[j].param_ref.0 == mods[i].param_ref.0),
    ensures
        config_amounts(mods, s).contains_key(mods[i].param_ref.0),
        config_amounts(mods, s)[mods[i].param_ref.0] == mods[i].amount,
    decreases mods.len(),
{
    let rest = mods.drop_last();
    if i < mods.len() - 1 {
        assert forall|j: int| 0 <= j < rest.len() && j != i implies !(#[trigger] rest[j].source_ref == s
            && rest[j].param_ref.0 == rest[i].param_ref.0) by {
            assert(rest[j] == mods[j]);
        }
        assert(rest[i] == mods[i]);
        lemma_config_amount_of(rest, s, i);
        let last = mods.len() - 1;
        assert(!(mods[last].source_ref == s && mods[last].param_ref.0 == mods[i].param_ref.0));
    }
}

/// After the amount of the modulation of parameter `p` by source `s` is set,
/// the amounts configured for `s` give that amount to `p` (for a list that
/// holds each pair at most once).
pub proof fn law_update_then_config_amount<N>(
    mods: Seq<InternalModulation<N>>,
    sources: Seq<Source>,
    params: Seq<Param<N>>,
    s: SourceRef,
    p: ParamRef,
    amount: N,
)
    requires
        unique_modulations(mods),
        has_modulation(mods, s, p) || (has_source(sources, s) && has_param(params, p)),
    ensures
        config_amounts(updated_modulations(mods, sources, params, s, p, amount), s).contains_key(p.0),
        config_amounts(updated_modulations(mods, sources, params, s, p, amount), s)[p.0] == amount,
{
    let after = updated_modulations(mods, sources, params, s, p, amount);
    law_update_keeps_modulations_unique(mods, sources, params, s, p, amount);
    let f = if has_modulation(mods, s, p) {
        lemma_first_modulation_exists(mods, s, p);
        first_modulation(mods, s, p)
    } else {
        lemma_first_source_exists(sources, s);
        lemma_first_param_exists(params, p);
        mods.len() as int
    };
    assert(after[f].source_ref == s && after[f].param_ref == p && after[f].amount == amount);
    assert forall|j: int| 0 <= j < after.len() && j != f implies !(#[trigger] after[j].source_ref == s
        && after[j].param_ref.0 == after[f].param_ref.0) by {
        if after[j].source_ref == s && after[j].param_ref.0 == p.0 {
            assert(after[j].param_ref == p);
            if j < f {
                assert(!(after[j].source_ref == after[f].source_ref && after[j].param_ref == after[f].param_ref));
            } else {
                assert(!(after[f].source_ref == after[j].source_ref && after[f].param_ref == after[j].param_ref));
            }
        }
    }
    lemma_config_amount_of(after, s, f);
}

/// After the modulation of parameter `p` by source `s` is deleted, the list
/// holds no such modulation (for a list that holds each pair at most once).
pub proof fn law_delete_removes_modulation<N>(mods: Seq<InternalModulation<N>>, s: SourceRef, p: ParamRef)
    requires
        unique_modulations(mods),
    ensures
        !has_modulation(deleted_modulations(mods, s, p), s, p),
        unique_modulations(deleted_modulations(mods, s, p)),
{
    if has_modulation(mods, s, p) {
        lemma_first_modulation_exists(mods, s, p);
        let f = first_modulation(mods, s, p);
        let after = deleted_modulations(mods, s, p);
        if has_modulation(after, s, p) {
            let j = choose|j: int| 0 <= j < after.len() && #[trigger] after[j].source_ref == s && after[j].param_ref == p;
            if j < f {
                assert(after[j] == mods[j]);
            } else {
                assert(after[j] == mods[j + 1]);
                assert(!(mods[f].source_ref == mods[j + 1].source_ref && mods[f].param_ref == mods[j + 1].param_ref));
            }
        }
        assert forall|i: int, j: int| 0 <= i < j < after.len() implies !(#[trigger] after[i].source_ref == #[trigger] after[j].source_ref
            && after[i].param_ref == after[j].param_ref) by {
            let i0 = if i < f { i } else { i + 1 };
            let j0 = if j < f { j } else { j + 1 };
            assert(after[i] == mods[i0]);
            assert(after[j] == mods[j0]);
            assert(!(mods[i0].source_ref == mods[j0].source_ref && mods[i0].param_ref == mods[j0].param_ref));
        }
    }
}

/// Adding a modulation that the list did not hold, and then deleting it,
/// gives back the list as it was.
pub proof fn law_delete_undoes_add<N>(
    mods: Seq<InternalModulation<N>>,
    sources: Seq<Source>,
    params: Seq<Param<N>>,
    s: SourceRef,
    p: ParamRef,
    amount: N,
)
    requires
        !has_modulation(mods, s, p),
        has_source(sources, s),
        has_param(params, p),
    ensures
        deleted_modulations(updated_modulations(mods, sources, params, s, p, amount), s, p) == mods,
{
    lemma_first_source_exists(sources, s);
    lemma_first_param_exists(params, p);
    let after = updated_modulations(mods, sources, params, s, p, amount);
    let n = mods.len() as int;
    assert(after[n].source_ref == s && after[n].param_ref == p);
    assert(is_first_modulation(after, s, p, n)) by {
        assert forall|j: int| 0 <= j < n implies !(#[trigger] after[j].source_ref == s && after[j].param_ref == p) by {
            assert(after[j] == mods[j]);
        }
    }
    lemma_first_modulation_unique(after, s, p, n);
    assert(after.remove(n) =~= mods);
}

proof fn lemma_row_in_group<N>(view: View, mods: Seq<InternalModulation<N>>, j: int)
    requires
        0 <= j < mods.len(),
    ensures
        group_rows(view, mods, group_key(view, mods[j])).contains(row_of(mods[j], j as usize, row_name(view, mods[j]))),
    decreases mods.len(),
{
    let k = group_key(view, mods[j]);
    let rest = mods.drop_last();
    let row = row_of(mods[j], j as usize, row_name(view, mods[j]));
    if j == mods.len() - 1 {
        let rows = group_rows(view, mods, k);
        assert(rows[rows.len() - 1] == row);
    } else {
        assert(rest[j] == mods[j]);
        lemma_row_in_group(view, rest, j);
        let before = group_rows(view, rest, k);
        let i = choose|i: int| 0 <= i < before.len() && before[i] == row;
        let rows = group_rows(view, mods, k);
        assert(rows[i] == row);
    }
}

/// In a grouped list, every modulation shows as a row of the group of its key.
pub proof fn law_every_modulation_in_its_group<N>(
    groups: Seq<Group<N>>,
    view: View,
    base: Seq<Source>,
    mods: Seq<InternalModulation<N>>,
    config_source: Option<SourceRef>,
    j: int,
)
    requires
        is_group_list(groups, view, base, mods, config_source),
        0 <= j < mods.len(),
    ensures
        exists|p: int| 0 <= p < groups.len() && #[trigger] groups[p].index == group_key(view, mods[j])
            && groups[p].modulations@.contains(row_of(mods[j], j as usize, row_name(view, mods[j]))),
{
    let k = group_key(view, mods[j]);
    assert(has_modulation_key(view, mods, k));
    assert(is_group_key(view, base, mods, k));
    let p = choose|p: int| 0 <= p < groups.len() && #[trigger] groups[p].index == k;
    assert(is_group(groups[p], view, base, mods, config_source));
    lemma_row_in_group(view, mods, j);
}

/// Grouped by parameter, the list has one row per modulation and no other.
pub proof fn law_group_by_param_rows(sources: Seq<Source>)
    ensures
        base_key_set(base_groups(View::GroupByParam, sources)).len() == 0,
{
    assert(base_key_set(base_groups(View::GroupByParam, sources)) =~= Set::<usize>::empty());
}

/// Whether `m` shows a modulation that the program holds: its parameter and
/// its source are the program's and are named by their identifiers, it spans
/// the parameter's own range (origin, minimum, maximum and step), and the
/// program modulates that parameter by that source by its amount.
pub open spec fn shows_program_modulation<N>(
    sources: Seq<ProgramSource>,
    params: Seq<ProgramParam<N>>,
    m: InternalModulation<N>,
) -> bool {
    let p = m.param_ref.0 as int;
    &&& p < params.len()
    &&& m.source_ref.0 < sources.len()
    &&& m.param_name == params[p].id
    &&& m.source_name == sources[m.source_ref.0 as int].id
    &&& m.origin == params[p].values.origin
    &&& m.min == params[p].values.min
    &&& m.max == params[p].values.max
    &&& m.step == params[p].values.resolution
    &&& exists|k: int| 0 <= k < params[p].modulations@.len()
        && #[trigger] params[p].modulations@[k] == (ParamModulation { source_ref: m.source_ref, amount: m.amount })
}

/// Whether `r` shows, for the parameter `param` at `param_ref`, one of the
/// modulations `ms` from a source that the program has.
spec fn shows_param_modulation<N>(
    sources: Seq<ProgramSource>,
    param_ref: ParamRef,
    param: ProgramParam<N>,
    ms: Seq<ParamModulation<N>>,
    r: InternalModulation<N>,
) -> bool {
    &&& r.param_ref == param_ref
    &&& r.source_ref.0 < sources.len()
    &&& r.param_name == param.id
    &&& r.source_name == sources[r.source_ref.0 as int].id
    &&& r.origin == param.values.origin
    &&& r.min == param.values.min
    &&& r.max == param.values.max
    &&& r.step == param.values.resolution
    &&& exists|k: int| 0 <= k < ms.len() && #[trigger] ms[k] == (ParamModulation { source_ref: r.source_ref, amount: r.amount })
}

proof fn lemma_param_modulations_shown<N>(
    sources: Seq<ProgramSource>,
    param_ref: ParamRef,
    param: ProgramParam<N>,
    ms: Seq<ParamModulation<N>>,
)
    ensures
        forall|j: int| 0 <= j < param_modulations(sources, param_ref, param, ms).len()
            ==> shows_param_modulation(sources, param_ref, param, ms, #[trigger] param_modulations(sources, param_ref, param, ms)[j]),
        forall|k: int| 0 <= k < ms.len() && (#[trigger] ms[k]).source_ref.0 < sources.len() ==>
            exists|j: int| 0 <= j < param_modulations(sources, param_ref, param, ms).len()
                && #[trigger] param_modulations(sources, param_ref, param, ms)[j].source_ref == ms[k].source_ref
                && param_modulations(sources, param_ref, param, ms)[j].amount == ms[k].amount,
    decreases ms.len(),
{
    if ms.len() > 0 {
        let front = ms.drop_last();
        lemma_param_modulations_shown(sources, param_ref, param, front);
        let rest = param_modulations(sources, param_ref, param, front);
        let rows = param_modulations(sources, param_ref, param, ms);
        assert forall|j: int| 0 <= j < rows.len() implies shows_param_modulation(sources, param_ref, param, ms, #[trigger] rows[j]) by {
            if j < rest.len() {
                assert(rows[j] == rest[j]);
                assert(shows_param_modulation(sources, param_ref, param, front, rest[j]));
                let r = rest[j];
                let k = choose|k: int| 0 <= k < front.len() && #[trigger] front[k] == (ParamModulation { source_ref: r.source_ref, amount: r.amount });
                assert(ms[k] == front[k]);
            } else {
                let k = ms.len() - 1;
                assert(ms[k] == (ParamModulation { source_ref: rows[j].source_ref, amount: rows[j].amount }));
            }
        }
        assert forall|k: int| 0 <= k < ms.len() && (#[trigger] ms[k]).source_ref.0 < sources.len() implies
            exists|j: int| 0 <= j < rows.len() && #[trigger] rows[j].source_ref == ms[k].source_ref && rows[j].amount == ms[k].amount by {
            if k < front.len() {
                assert(front[k] == ms[k]);
                let j = choose|j: int| 0 <= j < rest.len() && #[trigger] rest[j].source_ref == front[k].source_ref && rest[j].amount == front[k].amount;
                assert(rows[j] == rest[j]);
            } else {
                let j = rest.len() as int;
                assert(rows[j].source_ref == ms[k].source_ref);
            }
        }
    }
}

proof fn lemma_program_modulations_shown<N>(sources: Seq<ProgramSource>, params: Seq<ProgramParam<N>>)
    requires
        params.len() <= usize::MAX,
    ensures
        forall|j: int| 0 <= j < program_modulations(sources, params).len()
            ==> shows_program_modulation(sources, params, #[trigger] program_modulations(sources, params)[j]),
        forall|i: int, k: int| 0 <= i < params.len() && 0 <= k < params[i].modulations@.len()
            && (#[trigger] params[i].modulations@[k]).source_ref.0 < sources.len() ==>
            exists|j: int| 0 <= j < program_modulations(sources, params).len()
                && (#[trigger] program_modulations(sources, params)[j]).param_ref.0 == i
                && program_modulations(sources, params)[j].source_ref == params[i].modulations@[k].source_ref
                && program_modulations(sources, params)[j].amount == params[i].modulations@[k].amount,
    decreases params.len(),
{
    if params.len() > 0 {
        let front = params.drop_last();
        let last = params.len() - 1;
        let param_ref = ParamRef(last as usize);
        let ms = params.last().modulations@;
        lemma_program_modulations_shown(sources, front);
        lemma_param_modulations_shown(sources, param_ref, params.last(), ms);
        let before = program_modulations(sources, front);
        let added = param_modulations(sources, param_ref, params.last(), ms);
        let all = program_modulations(sources, params);
        assert(all == before + added);
        assert forall|j: int| 0 <= j < all.len() implies shows_program_modulation(sources, params, #[trigger] all[j]) by {
            if j < before.len() {
                assert(all[j] == before[j]);
                assert(shows_program_modulation(sources, front, before[j]));
                let p = before[j].param_ref.0 as int;
                assert(front[p] == params[p]);
            } else {
                assert(all[j] == added[j - before.len()]);
                assert(shows_param_modulation(sources, param_ref, params.last(), ms, added[j - before.len()]));
                assert(params[last] == params.last());
            }
        }
        assert forall|i: int, k: int| 0 <= i < params.len() && 0 <= k < params[i].modulations@.len()
            && (#[trigger] params[i].modulations@[k]).source_ref.0 < sources.len() implies
            exists|j: int| 0 <= j < all.len() && (#[trigger] all[j]).param_ref.0 == i
                && all[j].source_ref == params[i].modulations@[k].source_ref
                && all[j].amount == params[i].modulations@[k].amount by {
            if i < last {
                assert(front[i] == params[i]);
                assert(front[i].modulations@[k] == params[i].modulations@[k]);
                let j = choose|j: int| 0 <= j < before.len() && (#[trigger] before[j]).param_ref.0 == i
                    && before[j].source_ref == front[i].modulations@[k].source_ref
                    && before[j].amount == front[i].modulations@[k].amount;
                assert(all[j] == before[j]);
            } else {
                assert(ms[k] == params[i].modulations@[k]);
                let j = choose|j: int| 0 <= j < added.len() && #[trigger] added[j].source_ref == ms[k].source_ref && added[j].amount == ms[k].amount;
                assert(shows_param_modulation(sources, param_ref, params.last(), ms, added[j]));
                assert(all[before.len() + j] == added[j]);
            }
        }
    }
}

/// The list that `Modulations::new` builds from `program` shows the
/// program's modulations and nothing else: every row spans the range of its
/// own parameter (its origin, minimum, maximum and step), carries the names
/// of its parameter and its source and an amount by which the program
/// modulates that parameter from that source; and every modulation that the
/// program holds from one of its sources has a row for its parameter, with
/// its source and its amount.
pub proof fn law_modulations_show_program<N>(program: Program<N>)
    ensures
        forall|j: int| 0 <= j < program_modulations(program.sources@, program.params@).len()
            ==> shows_program_modulation(program.sources@, program.params@,
                #[trigger] program_modulations(program.sources@, program.params@)[j]),
        forall|i: int, k: int| 0 <= i < program.params@.len() && 0 <= k < program.params@[i].modulations@.len()
            && (#[trigger] program.params@[i].modulations@[k]).source_ref.0 < program.sources@.len() ==>
            exists|j: int| 0 <= j < program_modulations(program.sources@, program.params@).len()
                && (#[trigger] program_modulations(program.sources@, program.params@)[j]).param_ref.0 == i
                && program_modulations(program.sources@, program.params@)[j].source_ref
                    == program.params@[i].modulations@[k].source_ref
                && program_modulations(program.sources@, program.params@)[j].amount
                    == program.params@[i].modulations@[k].amount,
{
    vstd::std_specs::vec::axiom_spec_len(&program.params);
    lemma_program_modulations_shown(program.sources@, program.params@);
}

/// Whether `after` is `before` with at most its amount changed: the same
/// source and parameter, with the same names, origin, range and step.
pub open spec fn same_but_amount<N>(after: InternalModulation<N>, before: InternalModulation<N>) -> bool {
    &&& after.source_ref == before.source_ref
    &&& after.source_name == before.source_name
    &&& after.param_ref == before.param_ref
    &&& after.param_name == before.param_name
    &&& after.origin == before.origin
    &&& after.min == before.min
    &&& after.max == before.max
    &&& after.step == before.step
}

/// Setting the amount of parameter `p` by source `s` from the knobs: where
/// the list holds such a modulation, the first one takes the amount and
/// nothing else changes; where it holds none, the list keeps every modulation
/// in place and gains one at its end, from source `s` to parameter `p` by
/// the amount, that carries the name of the first source `s` and the name,
/// origin, minimum, maximum and step of the first parameter `p`.
pub proof fn law_update_sets_or_adds<N>(
    mods: Seq<InternalModulation<N>>,
    sources: Seq<Source>,
    params: Seq<Param<N>>,
    s: SourceRef,
    p: ParamRef,
    amount: N,
)
    requires
        has_modulation(mods, s, p) || (has_source(sources, s) && has_param(params, p)),
    ensures
        has_modulation(mods, s, p) ==> exists|i: int| #[trigger] is_first_modulation(mods, s, p, i) && {
            &&& updated_modulations(mods, sources, params, s, p, amount).len() == mods.len()
            &&& forall|j: int| 0 <= j < mods.len() ==> same_but_amount(
                #[trigger] updated_modulations(mods, sources, params, s, p, amount)[j], mods[j])
            &&& updated_modulations(mods, sources, params, s, p, amount)[i].amount == amount
            &&& forall|j: int| 0 <= j < mods.len() && j != i
                ==> (#[trigger] updated_modulations(mods, sources, params, s, p, amount)[j]).amount == mods[j].amount
        },
        !has_modulation(mods, s, p) ==> exists|a: int, b: int| #[trigger] is_first_source(sources, s, a)
            && #[trigger] is_first_param(params, p, b) && {
            let after = updated_modulations(mods, sources, params, s, p, amount);
            let added = after[mods.len() as int];
            &&& after.len() == mods.len() + 1
            &&& after.take(mods.len() as int) == mods
            &&& added.source_ref == s
            &&& added.param_ref == p
            &&& added.amount == amount
            &&& added.source_name == sources[a].name
            &&& added.param_name == params[b].name
            &&& added.origin == params[b].origin
            &&& added.min == params[b].min
            &&& added.max == params[b].max
            &&& added.step == params[b].step
        },
{
    let after = updated_modulations(mods, sources, params, s, p, amount);
    if has_modulation(mods, s, p) {
        lemma_first_modulation_exists(mods, s, p);
        let i = first_modulation(mods, s, p);
        assert(after.len() == mods.len());
        assert forall|j: int| 0 <= j < mods.len() implies same_but_amount(#[trigger] after[j], mods[j]) by {}
        assert(after[i].amount == amount);
    } else {
        lemma_first_source_exists(sources, s);
        lemma_first_param_exists(params, p);
        let a = first_source(sources, s);
        let b = first_param(params, p);
        assert(after.take(mods.len() as int) =~= mods);
        assert(is_first_source(sources, s, a) && is_first_param(params, p, b));
    }
}

} // verus!
