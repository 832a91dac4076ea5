//! A loaded project: its configuration, partials and generators, the validation pass
//! over them and the assembly of each generator's atoms.
use crate::atom::{AthalarAtom, AtomView};
use crate::config::AthalarConfig;
use crate::generator::{included_name, outputs_relative, resolved_output, AthalarGenerator};
use crate::partial::{atoms_view, AthalarPartial};
use crate::reporting::{
    can_not_create_file_message, file_already_exists_message, file_conflict_message,
    name_conflict_message, partial_does_not_exist_message, EntryView, GeneratorReportCreator,
    MessageView, PartialReportCreator, ReportView, ValidationReport,
};
use vstd::prelude::*;

verus! {

/// What probing the output path of a binding found. Probing writes a marker file where
/// none exists and deletes it again; it is done outside the library, which only
/// interprets the outcome.
#[derive(Debug, PartialEq, Eq, Clone, Copy, Structural)]
pub enum OutputState {
    /// A file already exists at the path.
    AlreadyExists,
    /// No file exists at the path, and one could be created there.
    Creatable,
    /// No file exists at the path, and none could be created there.
    NotCreatable,
}

/// A project: its configuration and every partial and generator found in it. Entities
/// refer to one another by their index in these lists.
#[derive(Debug, PartialEq, Eq, Clone)]
pub struct Athalar {
    /// The configuration of the project
    pub config: AthalarConfig,
    /// The partials that were found
    pub partials: Vec<AthalarPartial>,
    /// The generators that were found
    pub generators: Vec<AthalarGenerator>,
}

pub open spec fn entry(owner: int, item: int, message: MessageView) -> EntryView {
    EntryView { owner, item, message }
}

// ---- binding checks

/// The entries that the probe of binding `b` of generator `g` gives.
pub open spec fn state_entries(g: int, b: int, location: Seq<char>, state: OutputState) -> Seq<
    EntryView,
> {
    match state {
        OutputState::AlreadyExists => seq![entry(g, b, file_already_exists_message(location))],
        OutputState::Creatable => seq![],
        OutputState::NotCreatable => seq![entry(g, b, can_not_create_file_message(location))],
    }
}

/// Another binding of the same generator writes to the same path as binding `b`.
pub open spec fn has_output_conflict(gen: AthalarGenerator, b: int) -> bool {
    exists|j: int|
        0 <= j < gen.data.bindings@.len() && j != b && #[trigger] resolved_output(gen, j)
            == resolved_output(gen, b)
}

pub open spec fn conflict_entries(gen: AthalarGenerator, g: int, b: int) -> Seq<EntryView> {
    if has_output_conflict(gen, b) {
        seq![
            entry(
                g,
                b,
                file_conflict_message(gen.data.bindings@[b].output@, resolved_output(gen, b)),
            ),
        ]
    } else {
        seq![]
    }
}

/// The entries for the first `n` bindings of generator `gen`, at index `g`.
pub open spec fn binding_entries(
    gen: AthalarGenerator,
    g: int,
    states: Seq<OutputState>,
    n: int,
) -> Seq<EntryView>
    decreases n,
{
    if n <= 0 {
        seq![]
    } else {
        binding_entries(gen, g, states, n - 1) + state_entries(
            g,
            n - 1,
            resolved_output(gen, n - 1),
            states[n - 1],
        ) + conflict_entries(gen, g, n - 1)
    }
}

/// The binding entries of the first `m` generators.
pub open spec fn all_binding_entries(
    gens: Seq<AthalarGenerator>,
    states: Seq<Vec<OutputState>>,
    m: int,
) -> Seq<EntryView>
    decreases m,
{
    if m <= 0 {
        seq![]
    } else {
        all_binding_entries(gens, states, m - 1) + binding_entries(
            gens[m - 1],
            m - 1,
            states[m - 1]@,
            gens[m - 1].data.bindings@.len() as int,
        )
    }
}

// ---- include directives

/// Some partial of `ps` is named `name`.
pub open spec fn partial_exists(ps: Seq<AthalarPartial>, name: Seq<char>) -> bool {
    exists|i: int| 0 <= i < ps.len() && #[trigger] ps[i].name@ == name
}

pub open spec fn missing_partial_entries(
    ps: Seq<AthalarPartial>,
    gen: AthalarGenerator,
    g: int,
    d: int,
) -> Seq<EntryView> {
    let name = included_name(gen.data.config@[d]);
    if partial_exists(ps, name) {
        seq![]
    } else {
        seq![entry(g, d, partial_does_not_exist_message(name))]
    }
}

/// The entries for the first `n` directives of generator `gen`, at index `g`.
pub open spec fn directive_entries(
    ps: Seq<AthalarPartial>,
    gen: AthalarGenerator,
    g: int,
    n: int,
) -> Seq<EntryView>
    decreases n,
{
    if n <= 0 {
        seq![]
    } else {
        directive_entries(ps, gen, g, n - 1) + missing_partial_entries(ps, gen, g, n - 1)
    }
}

/// The directive entries of the first `m` generators.
pub open spec fn all_directive_entries(
    ps: Seq<AthalarPartial>,
    gens: Seq<AthalarGenerator>,
    m: int,
) -> Seq<EntryView>
    decreases m,
{
    if m <= 0 {
        seq![]
    } else {
        all_directive_entries(ps, gens, m - 1) + directive_entries(
            ps,
            gens[m - 1],
            m - 1,
            gens[m - 1].data.config@.len() as int,
        )
    }
}

// ---- atom names

/// Another atom of the same list has the name of atom `a`.
pub open spec fn has_name_conflict(atoms: Seq<AthalarAtom>, a: int) -> bool {
    exists|j: int| 0 <= j < atoms.len() && j != a && #[trigger] atoms[j].name@ == atoms[a].name@
}

pub open spec fn name_conflict_entries(p: AthalarPartial, pi: int, a: int) -> Seq<EntryView> {
    if has_name_conflict(p.data.config@, a) {
        seq![entry(pi, a, name_conflict_message(p.name@))]
    } else {
        seq![]
    }
}

/// The entries for the first `n` atoms of partial `p`, at index `pi`.
pub open spec fn atom_entries(p: AthalarPartial, pi: int, n: int) -> Seq<EntryView>
    decreases n,
{
    if n <= 0 {
        seq![]
    } else {
        atom_entries(p, pi, n - 1) + name_conflict_entries(p, pi, n - 1)
    }
}

/// The atom entries of the first `m` partials.
pub open spec fn all_atom_entries(ps: Seq<AthalarPartial>, m: int) -> Seq<EntryView>
    decreases m,
{
    if m <= 0 {
        seq![]
    } else {
        all_atom_entries(ps, m - 1) + atom_entries(
            ps[m - 1],
            m - 1,
            ps[m - 1].data.config@.len() as int,
        )
    }
}

/// Every binding of every generator has a relative output path.
pub open spec fn all_outputs_relative(gens: Seq<AthalarGenerator>) -> bool {
    forall|g: int| 0 <= g < gens.len() ==> outputs_relative(#[trigger] gens[g])
}

/// `states` holds one probe outcome for each binding of each generator.
pub open spec fn states_fit(gens: Seq<AthalarGenerator>, states: Seq<Vec<OutputState>>) -> bool {
    &&& states.len() == gens.len()
    &&& forall|g: int|
        0 <= g < gens.len() ==> #[trigger] states[g]@.len() == gens[g].data.bindings@.len()
}

/// The report of a project, given the probe outcomes of its bindings.
pub open spec fn report_of(a: Athalar, states: Seq<Vec<OutputState>>) -> ReportView {
    ReportView {
        bindings: all_binding_entries(a.generators@, states, a.generators@.len() as int),
        directives: all_directive_entries(
            a.partials@,
            a.generators@,
            a.generators@.len() as int,
        ),
        atoms: all_atom_entries(a.partials@, a.partials@.len() as int),
    }
}

/// Whether some string of `v` other than the one at `skip` has the view `s`.
fn occurs_elsewhere(v: &Vec<String>, skip: usize, s: &String) -> (r: bool)
    ensures
        r == exists|j: int| 0 <= j < v@.len() && j != skip && #[trigger] v@[j]@ == s@,
{
    let mut j: usize = 0;
    while j < v.len()
        invariant
            j <= v@.len(),
            forall|k: int| 0 <= k < j && k != skip ==> #[trigger] v@[k]@ != s@,
        decreases v@.len() - j,
    {
        if j != skip && v[j] == *s {
            return true;
        }
        j = j + 1;
    }
    false
}

/// Whether some atom of `atoms` other than the one at `skip` is named `name`.
fn name_elsewhere(atoms: &Vec<AthalarAtom>, skip: usize, name: &String) -> (r: bool)
    ensures
        r == exists|j: int|
            0 <= j < atoms@.len() && j != skip && #[trigger] atoms@[j].name@ == name@,
{
    let mut j: usize = 0;
    while j < atoms.len()
        invariant
            j <= atoms@.len(),
            forall|k: int| 0 <= k < j && k != skip ==> #[trigger] atoms@[k].name@ != name@,
        decreases atoms@.len() - j,
    {
        if j != skip && atoms[j].name == *name {
            return true;
        }
        j = j + 1;
    }
    false
}

/// The index of the first partial of `ps` named `name`.
pub open spec fn find_partial(ps: Seq<AthalarPartial>, name: Seq<char>) -> Option<int>
    decreases ps.len(),
{
    if ps.len() == 0 {
        None
    } else {
        match find_partial(ps.drop_last(), name) {
            Some(i) => Some(i),
            None => if ps.last().name@ == name {
                Some(ps.len() - 1)
            } else {
                None
            },
        }
    }
}

proof fn lemma_find_partial(ps: Seq<AthalarPartial>, name: Seq<char>)
    ensures
        find_partial(ps, name).is_some() <==> partial_exists(ps, name),
        find_partial(ps, name).is_some() ==> {
            let i = find_partial(ps, name).unwrap();
            0 <= i < ps.len() && ps[i].name@ == name
        },
    decreases ps.len(),
{
    if ps.len() > 0 {
        let prefix = ps.drop_last();
        lemma_find_partial(prefix, name);
        if partial_exists(ps, name) && find_partial(prefix, name).is_none() {
            let i = choose|i: int| 0 <= i < ps.len() && #[trigger] ps[i].name@ == name;
            if i < ps.len() - 1 {
                assert(prefix[i].name@ == name);
            }
        }
        if partial_exists(prefix, name) {
            let i = choose|i: int| 0 <= i < prefix.len() && #[trigger] prefix[i].name@ == name;
            assert(ps[i].name@ == name);
        }
    }
}

/// The index of the first partial of `ps` named `name`, if there is one.
fn find_partial_index(ps: &Vec<AthalarPartial>, name: &String) -> (r: Option<usize>)
    ensures
        r.is_some() == find_partial(ps@, name@).is_some(),
        r.is_some() ==> r.unwrap() as int == find_partial(ps@, name@).unwrap(),
        r.is_some() == partial_exists(ps@, name@),
        r.is_some() ==> r.unwrap() < ps@.len() && ps@[r.unwrap() as int].name@ == name@,
{
    proof {
        lemma_find_partial(ps@, name@);
    }
    let mut i: usize = 0;
    while i < ps.len()
        invariant
            i <= ps@.len(),
            find_partial(ps@.subrange(0, i as int), name@).is_none(),
        decreases ps@.len() - i,
    {
        let prefix = Ghost(ps@.subrange(0, i as int + 1));
        assert(prefix@.drop_last() =~= ps@.subrange(0, i as int));
        if ps[i].name == *name {
            assert(find_partial(prefix@, name@) == Some(i as int));
            proof {
                lemma_find_partial_extends(ps@, name@, i as int + 1);
            }
            return Some(i);
        }
        i = i + 1;
    }
    assert(ps@.subrange(0, ps@.len() as int) =~= ps@);
    None
}

/// Once found in a prefix, the first partial with a name stays the first.
proof fn lemma_find_partial_extends(ps: Seq<AthalarPartial>, name: Seq<char>, n: int)
    requires
        0 <= n <= ps.len(),
        find_partial(ps.subrange(0, n), name).is_some(),
    ensures
        find_partial(ps, name) == find_partial(ps.subrange(0, n), name),
    decreases ps.len() - n,
{
    if n < ps.len() {
        let longer = ps.subrange(0, n + 1);
        assert(longer.drop_last() =~= ps.subrange(0, n));
        lemma_find_partial_extends(ps, name, n + 1);
    } else {
        assert(ps.subrange(0, n) =~= ps);
    }
}

// ---- assembly

/// The atoms that the first `n` directives of `config` include: for each directive in
/// order, every atom of the first partial of `ps` with the included name, in the
/// partial's order.
pub open spec fn included_atoms(
    ps: Seq<AthalarPartial>,
    config: Seq<crate::generator::AthalarGeneratorContent>,
    n: int,
) -> Seq<AtomView>
    decreases n,
{
    if n <= 0 {
        seq![]
    } else {
        included_atoms(ps, config, n - 1) + match find_partial(ps, included_name(config[n - 1])) {
            Some(i) => atoms_view(ps[i].data.config@),
            None => seq![],
        }
    }
}

/// The atoms that generator `gen` gathers from `ps`.
pub open spec fn assembled_atoms(ps: Seq<AthalarPartial>, gen: AthalarGenerator) -> Seq<AtomView> {
    included_atoms(ps, gen.data.config@, gen.data.config@.len() as int)
}

/// Directive `d` of generator `g` names no partial.
pub open spec fn is_missing_directive(
    ps: Seq<AthalarPartial>,
    gens: Seq<AthalarGenerator>,
    g: int,
    d: int,
) -> bool {
    0 <= g < gens.len() && 0 <= d < gens[g].data.config@.len() && !partial_exists(
        ps,
        included_name(gens[g].data.config@[d]),
    )
}

/// Directive `d` of generator `g` is missing, and every directive before it (those of
/// earlier generators, and the earlier ones of generator `g`) names a partial.
pub open spec fn is_first_missing_directive(
    ps: Seq<AthalarPartial>,
    gens: Seq<AthalarGenerator>,
    g: int,
    d: int,
) -> bool {
    &&& is_missing_directive(ps, gens, g, d)
    &&& forall|k: int, j: int| 0 <= k < g ==> !#[trigger] is_missing_directive(ps, gens, k, j)
    &&& forall|j: int| 0 <= j < d ==> !#[trigger] is_missing_directive(ps, gens, g, j)
}

/// `name` is what the first missing directive, in generator-then-directive order,
/// includes.
pub open spec fn included_name_of_first_missing(
    ps: Seq<AthalarPartial>,
    gens: Seq<AthalarGenerator>,
    name: Seq<char>,
) -> bool {
    exists|g: int, d: int|
        #[trigger] is_first_missing_directive(ps, gens, g, d) && included_name(
            gens[g].data.config@[d],
        ) == name
}

/// Every include directive of every generator names a partial.
pub open spec fn all_included_exist(ps: Seq<AthalarPartial>, gens: Seq<AthalarGenerator>) -> bool {
    forall|g: int, d: int| !#[trigger] is_missing_directive(ps, gens, g, d)
}

/// Why the atoms of a project could not be assembled.
#[derive(Debug, Clone)]
pub enum AssemblyError {
    /// An include directive names this partial, and the project has none of that name.
    MissingPartial(String),
}

/// The assembled project: for each generator (by index, in order) its atoms, and the
/// project's configuration.
#[derive(Debug, Clone)]
pub struct AthalarInformation {
    pub generators: Vec<(usize, Vec<AthalarAtom>)>,
    pub config: AthalarConfig,
}

/// Appends a copy of each atom of `atoms` to `out`.
fn append_atoms(out: &mut Vec<AthalarAtom>, atoms: &Vec<AthalarAtom>)
    ensures
        atoms_view(final(out)@) == atoms_view(old(out)@) + atoms_view(atoms@),
{
    let mut k: usize = 0;
    while k < atoms.len()
        invariant
            k <= atoms@.len(),
            atoms_view(out@) == atoms_view(old(out)@) + atoms_view(atoms@.subrange(0, k as int)),
        decreases atoms@.len() - k,
    {
        let ghost before = out@;
        out.push(atoms[k].duplicate());
        assert(atoms_view(out@) =~= atoms_view(before) + seq![atoms@[k as int]@]);
        assert(atoms_view(atoms@.subrange(0, k as int + 1)) =~= atoms_view(
            atoms@.subrange(0, k as int),
        ) + seq![atoms@[k as int]@]);
        assert(atoms_view(out@) =~= atoms_view(old(out)@) + atoms_view(
            atoms@.subrange(0, k as int + 1),
        ));
        k = k + 1;
    }
    assert(atoms@.subrange(0, atoms@.len() as int) =~= atoms@);
}

impl Athalar {
    /// A project from its configuration and the partials and generators found in it.
    pub fn new(
        config: AthalarConfig,
        partials: Vec<AthalarPartial>,
        generators: Vec<AthalarGenerator>,
    ) -> (r: Athalar)
        ensures
            r.config == config,
            r.partials == partials,
            r.generators == generators,
    {
        Athalar { config, partials, generators }
    }

    /// Whether every binding of every generator has a relative output path, as
    /// resolving outputs requires.
    pub fn has_relative_outputs(&self) -> (r: bool)
        ensures
            r == all_outputs_relative(self.generators@),
    {
        let mut g: usize = 0;
        while g < self.generators.len()
            invariant
                g <= self.generators@.len(),
                forall|k: int| 0 <= k < g ==> outputs_relative(#[trigger] self.generators@[k]),
            decreases self.generators@.len() - g,
        {
            if !self.generators[g].has_relative_outputs() {
                return false;
            }
            g = g + 1;
        }
        true
    }

    /// Where each binding of each generator writes its output; these are the paths to
    /// probe before validation.
    pub fn binding_outputs(&self) -> (r: Vec<Vec<String>>)
        requires
            all_outputs_relative(self.generators@),
        ensures
            r@.len() == self.generators@.len(),
            forall|g: int|
                0 <= g < r@.len() ==> (#[trigger] r@[g])@.len()
                    == self.generators@[g].data.bindings@.len(),
            forall|g: int, b: int|
                0 <= g < r@.len() && 0 <= b < r@[g]@.len() ==> (#[trigger] r@[g]@[b])@
                    == resolved_output(self.generators@[g], b),
    {
        let mut r: Vec<Vec<String>> = Vec::new();
        let mut g: usize = 0;
        while g < self.generators.len()
            invariant
                all_outputs_relative(self.generators@),
                g <= self.generators@.len(),
                r@.len() == g,
                forall|k: int|
                    0 <= k < g ==> (#[trigger] r@[k])@.len()
                        == self.generators@[k].data.bindings@.len(),
                forall|k: int, b: int|
                    0 <= k < g && 0 <= b < r@[k]@.len() ==> (#[trigger] r@[k]@[b])@
                        == resolved_output(self.generators@[k], b),
            decreases self.generators@.len() - g,
        {
            r.push(self.generators[g].binding_outputs());
            g = g + 1;
        }
        r
    }

    /// Probe outcomes for the bindings of generator `g`: a warning for a file that
    /// exists, a severe error for one that cannot be created, and a warning for each
    /// binding whose path another binding of the same generator also writes to.
    fn set_generator_binding_errors_of(
        &self,
        g: usize,
        states: &Vec<OutputState>,
        reporter: &mut ValidationReport,
    )
        requires
            g < self.generators@.len(),
            states@.len() == self.generators@[g as int].data.bindings@.len(),
            all_outputs_relative(self.generators@),
        ensures
            final(reporter)@.bindings == old(reporter)@.bindings + binding_entries(
                self.generators@[g as int],
                g as int,
                states@,
                states@.len() as int,
            ),
            final(reporter)@.directives == old(reporter)@.directives,
            final(reporter)@.atoms == old(reporter)@.atoms,
    {
        let gen = &self.generators[g];
        assert(outputs_relative(self.generators@[g as int]));
        let outputs = gen.binding_outputs();
        let n = gen.data.bindings.len();
        let mut b: usize = 0;
        while b < n
            invariant
                outputs_relative(*gen),
                gen == self.generators@[g as int],
                n == gen.data.bindings@.len(),
                states@.len() == n,
                outputs@.len() == n,
                forall|k: int| 0 <= k < n ==> #[trigger] outputs@[k]@ == resolved_output(*gen, k),
                b <= n,
                reporter@.bindings == old(reporter)@.bindings + binding_entries(
                    *gen,
                    g as int,
                    states@,
                    b as int,
                ),
                reporter@.directives == old(reporter)@.directives,
                reporter@.atoms == old(reporter)@.atoms,
            decreases n - b,
        {
            let ghost before = reporter@.bindings;
            let location = &outputs[b];
            match states[b] {
                OutputState::AlreadyExists => {
                    reporter.add_generator_binding_report(
                        g,
                        b,
                        GeneratorReportCreator::file_already_exists(location.as_str()),
                    );
                },
                OutputState::Creatable => {},
                OutputState::NotCreatable => {
                    reporter.add_generator_binding_report(
                        g,
                        b,
                        GeneratorReportCreator::can_not_create_file(location.as_str()),
                    );
                },
            }
            let ghost middle = reporter@.bindings;
            assert(middle == before + state_entries(
                g as int,
                b as int,
                resolved_output(*gen, b as int),
                states@[b as int],
            ));
            let conflict = occurs_elsewhere(&outputs, b, location);
            proof {
                if conflict {
                    let j = choose|j: int|
                        0 <= j < outputs@.len() && j != b && #[trigger] outputs@[j]@
                            == location@;
                    assert(resolved_output(*gen, j) == resolved_output(*gen, b as int));
                }
                if has_output_conflict(*gen, b as int) {
                    let j = choose|j: int|
                        0 <= j < gen.data.bindings@.len() && j != b && #[trigger] resolved_output(
                            *gen,
                            j,
                        ) == resolved_output(*gen, b as int);
                    assert(outputs@[j]@ == location@);
                }
            }
            if conflict {
                reporter.add_generator_binding_report(
                    g,
                    b,
                    GeneratorReportCreator::file_conflict(
                        gen.data.bindings[b].output.as_str(),
                        location.as_str(),
                    ),
                );
            }
            assert(reporter@.bindings =~= old(reporter)@.bindings + binding_entries(
                *gen,
                g as int,
                states@,
                b as int + 1,
            ));
            b = b + 1;
        }
    }

    fn set_generator_binding_errors(
        &self,
        states: &Vec<Vec<OutputState>>,
        reporter: &mut ValidationReport,
    )
        requires
            states_fit(self.generators@, states@),
            all_outputs_relative(self.generators@),
        ensures
            final(reporter)@.bindings == old(reporter)@.bindings + all_binding_entries(
                self.generators@,
                states@,
                self.generators@.len() as int,
            ),
            final(reporter)@.directives == old(reporter)@.directives,
            final(reporter)@.atoms == old(reporter)@.atoms,
    {
        let mut g: usize = 0;
        while g < self.generators.len()
            invariant
                states_fit(self.generators@, states@),
                all_outputs_relative(self.generators@),
                g <= self.generators@.len(),
                reporter@.bindings == old(reporter)@.bindings + all_binding_entries(
                    self.generators@,
                    states@,
                    g as int,
                ),
                reporter@.directives == old(reporter)@.directives,
                reporter@.atoms == old(reporter)@.atoms,
            decreases self.generators@.len() - g,
        {
            assert(states@[g as int]@.len() == self.generators@[g as int].data.bindings@.len());
            self.set_generator_binding_errors_of(g, &states[g], reporter);
            assert(reporter@.bindings =~= old(reporter)@.bindings + all_binding_entries(
                self.generators@,
                states@,
                g as int + 1,
            ));
            g = g + 1;
        }
    }

    /// A severe error for each include directive that names no partial of the project.
    fn set_generator_config_errors(&self, reporter: &mut ValidationReport)
        ensures
            final(reporter)@.directives == old(reporter)@.directives + all_directive_entries(
                self.partials@,
                self.generators@,
                self.generators@.len() as int,
            ),
            final(reporter)@.bindings == old(reporter)@.bindings,
            final(reporter)@.atoms == old(reporter)@.atoms,
    {
        let mut g: usize = 0;
        while g < self.generators.len()
            invariant
                g <= self.generators@.len(),
                reporter@.directives == old(reporter)@.directives + all_directive_entries(
                    self.partials@,
                    self.generators@,
                    g as int,
                ),
                reporter@.bindings == old(reporter)@.bindings,
                reporter@.atoms == old(reporter)@.atoms,
            decreases self.generators@.len() - g,
        {
            let gen = &self.generators[g];
            let ghost outer = reporter@.directives;
            let mut d: usize = 0;
            while d < gen.data.config.len()
                invariant
                    gen == self.generators@[g as int],
                    d <= gen.data.config@.len(),
                    reporter@.directives == outer + directive_entries(
                        self.partials@,
                        *gen,
                        g as int,
                        d as int,
                    ),
                    reporter@.bindings == old(reporter)@.bindings,
                    reporter@.atoms == old(reporter)@.atoms,
                decreases gen.data.config@.len() - d,
            {
                let name = gen.data.config[d].partial_name();
                let found = find_partial_index(&self.partials, name);
                if found.is_none() {
                    reporter.add_generator_config_report(
                        g,
                        d,
                        GeneratorReportCreator::partial_does_not_exist(name.as_str()),
                    );
                }
                assert(reporter@.directives =~= outer + directive_entries(
                    self.partials@,
                    *gen,
                    g as int,
                    d as int + 1,
                ));
                d = d + 1;
            }
            assert(reporter@.directives =~= old(reporter)@.directives + all_directive_entries(
                self.partials@,
                self.generators@,
                g as int + 1,
            ));
            g = g + 1;
        }
    }

    /// A warning for each atom that shares its name with another atom of its partial;
    /// both atoms of such a pair are reported.
    fn set_partial_config_errors(&self, reporter: &mut ValidationReport)
        ensures
            final(reporter)@.atoms == old(reporter)@.atoms + all_atom_entries(
                self.partials@,
                self.partials@.len() as int,
            ),
            final(reporter)@.bindings == old(reporter)@.bindings,
            final(reporter)@.directives == old(reporter)@.directives,
    {
        let mut p: usize = 0;
        while p < self.partials.len()
            invariant
                p <= self.partials@.len(),
                reporter@.atoms == old(reporter)@.atoms + all_atom_entries(
                    self.partials@,
                    p as int,
                ),
                reporter@.bindings == old(reporter)@.bindings,
                reporter@.directives == old(reporter)@.directives,
            decreases self.partials@.len() - p,
        {
            let partial = &self.partials[p];
            let ghost outer = reporter@.atoms;
            let mut a: usize = 0;
            while a < partial.data.config.len()
                invariant
                    partial == self.partials@[p as int],
                    a <= partial.data.config@.len(),
                    reporter@.atoms == outer + atom_entries(*partial, p as int, a as int),
                    reporter@.bindings == old(reporter)@.bindings,
                    reporter@.directives == old(reporter)@.directives,
                decreases partial.data.config@.len() - a,
            {
                let name = &partial.data.config[a].name;
                if name_elsewhere(&partial.data.config, a, name) {
                    reporter.add_partial_config_report(
                        p,
                        a,
                        PartialReportCreator::name_conflict(partial.name.as_str()),
                    );
                }
                assert(reporter@.atoms =~= outer + atom_entries(*partial, p as int, a as int + 1));
                a = a + 1;
            }
            assert(reporter@.atoms =~= old(reporter)@.atoms + all_atom_entries(
                self.partials@,
                p as int + 1,
            ));
            p = p + 1;
        }
    }

    /// Validates the project. `states` holds the outcome of probing the output path of
    /// each binding of each generator, in the order of `binding_outputs`. The report
    /// lists, in this order, the binding problems generator by generator, the include
    /// directives that name no partial, and the atoms whose name is taken twice in their
    /// partial.
    pub fn get_validation_report(&self, states: &Vec<Vec<OutputState>>) -> (r: ValidationReport)
        requires
            states_fit(self.generators@, states@),
            all_outputs_relative(self.generators@),
        ensures
            r@ == report_of(*self, states@),
    {
        let mut reporter = ValidationReport::new();
        self.set_generator_binding_errors(states, &mut reporter);
        self.set_generator_config_errors(&mut reporter);
        self.set_partial_config_errors(&mut reporter);
        assert(reporter@.bindings =~= report_of(*self, states@).bindings);
        assert(reporter@.directives =~= report_of(*self, states@).directives);
        assert(reporter@.atoms =~= report_of(*self, states@).atoms);
        reporter
    }

    /// The atoms of generator `g`, assembled from the partials that its directives
    /// include, or the name of the first directive (in order) that names no partial.
    fn generator_atoms(&self, g: usize) -> (r: Result<Vec<AthalarAtom>, AssemblyError>)
        requires
            g < self.generators@.len(),
        ensures
            r.is_ok() <==> forall|d: int|
                !#[trigger] is_missing_directive(self.partials@, self.generators@, g as int, d),
            r.is_ok() ==> atoms_view(r.unwrap()@) == assembled_atoms(
                self.partials@,
                self.generators@[g as int],
            ),
            r matches Err(AssemblyError::MissingPartial(name)) ==> exists|d: int|
                #[trigger] is_missing_directive(self.partials@, self.generators@, g as int, d)
                    && included_name(self.generators@[g as int].data.config@[d]) == name@
                    && forall|k: int|
                    0 <= k < d ==> !#[trigger] is_missing_directive(
                        self.partials@,
                        self.generators@,
                        g as int,
                        k,
                    ),
    {
        let gen = &self.generators[g];
        let mut atoms: Vec<AthalarAtom> = Vec::new();
        let mut d: usize = 0;
        while d < gen.data.config.len()
            invariant
                g < self.generators@.len(),
                gen == self.generators@[g as int],
                d <= gen.data.config@.len(),
                forall|k: int|
                    0 <= k < d ==> !#[trigger] is_missing_directive(
                        self.partials@,
                        self.generators@,
                        g as int,
                        k,
                    ),
                atoms_view(atoms@) == included_atoms(self.partials@, gen.data.config@, d as int),
            decreases gen.data.config@.len() - d,
        {
            let name = gen.data.config[d].partial_name();
            match find_partial_index(&self.partials, name) {
                None => {
                    assert(is_missing_directive(self.partials@, self.generators@, g as int, d as int));
                    return Err(AssemblyError::MissingPartial(name.clone()));
                },
                Some(i) => {
                    append_atoms(&mut atoms, &self.partials[i].data.config);
                },
            }
            d = d + 1;
        }
        proof {
            assert forall|k: int| !#[trigger] is_missing_directive(
                self.partials@,
                self.generators@,
                g as int,
                k,
            ) by {
                if 0 <= k < gen.data.config@.len() {
                    assert(!is_missing_directive(self.partials@, self.generators@, g as int, k));
                }
            }
        }
        Ok(atoms)
    }

    /// The information table that emitters use: for each generator, in order, the atoms
    /// of the partials it includes, directive by directive, each partial's atoms in
    /// their own order. Fails when a directive names no partial; callers that found no
    /// severe problem in the validation report never see that failure.
    pub fn get_information(&self) -> (r: Result<AthalarInformation, AssemblyError>)
        ensures
            r.is_ok() <==> all_included_exist(self.partials@, self.generators@),
            r matches Err(AssemblyError::MissingPartial(name)) ==> included_name_of_first_missing(
                self.partials@,
                self.generators@,
                name@,
            ),
            r matches Ok(info) ==> {
                &&& info.generators@.len() == self.generators@.len()
                &&& forall|g: int|
                    0 <= g < info.generators@.len() ==> (#[trigger] info.generators@[g]).0 == g
                        && atoms_view(info.generators@[g].1@) == assembled_atoms(
                        self.partials@,
                        self.generators@[g],
                    )
                &&& info.config.version == self.config.version
                &&& info.config.source@ == self.config.source@
                &&& info.config.partials@ == self.config.partials@
                &&& info.config.generators@ == self.config.generators@
            },
    {
        let mut info: Vec<(usize, Vec<AthalarAtom>)> = Vec::new();
        let mut g: usize = 0;
        while g < self.generators.len()
            invariant
                g <= self.generators@.len(),
                info@.len() == g,
                forall|k: int, d: int|
                    0 <= k < g ==> !#[trigger] is_missing_directive(
                        self.partials@,
                        self.generators@,
                        k,
                        d,
                    ),
                forall|k: int|
                    0 <= k < g ==> (#[trigger] info@[k]).0 == k && atoms_view(info@[k].1@)
                        == assembled_atoms(self.partials@, self.generators@[k]),
            decreases self.generators@.len() - g,
        {
            match self.generator_atoms(g) {
                Err(e) => {
                    proof {
                        let d = choose|d: int| #[trigger]
                            is_missing_directive(self.partials@, self.generators@, g as int, d)
                                && forall|k: int|
                                0 <= k < d ==> !#[trigger] is_missing_directive(
                                    self.partials@,
                                    self.generators@,
                                    g as int,
                                    k,
                                );
                        assert(is_first_missing_directive(self.partials@, self.generators@, g as int, d));
                        assert(!all_included_exist(self.partials@, self.generators@));
                    }
                    return Err(e);
                },
                Ok(atoms) => {
                    info.push((g, atoms));
                },
            }
            g = g + 1;
        }
        proof {
            assert forall|k: int, d: int| !#[trigger] is_missing_directive(
                self.partials@,
                self.generators@,
                k,
                d,
            ) by {
                if 0 <= k < self.generators@.len() {
                    assert(!is_missing_directive(self.partials@, self.generators@, k, d));
                }
            }
        }
        Ok(AthalarInformation { generators: info, config: self.config.duplicate() })
    }
}

// ---- what the report says of every project

/// The entries of `es` about item `item` of owner `owner`, in order.
pub open spec fn entries_for(es: Seq<EntryView>, owner: int, item: int) -> Seq<EntryView>
    decreases es.len(),
{
    if es.len() == 0 {
        seq![]
    } else {
        entries_for(es.drop_last(), owner, item) + if es.last().owner == owner && es.last().item
            == item {
            seq![es.last()]
        } else {
            seq![]
        }
    }
}

proof fn lemma_entries_for_add(a: Seq<EntryView>, b: Seq<EntryView>, owner: int, item: int)
    ensures
        entries_for(a + b, owner, item) == entries_for(a, owner, item) + entries_for(
            b,
            owner,
            item,
        ),
    decreases b.len(),
{
    if b.len() == 0 {
        assert(a + b =~= a);
        assert(entries_for(a, owner, item) + entries_for(b, owner, item) =~= entries_for(
            a,
            owner,
            item,
        ));
    } else {
        assert((a + b).drop_last() =~= a + b.drop_last());
        assert((a + b).last() == b.last());
        lemma_entries_for_add(a, b.drop_last(), owner, item);
        assert(entries_for(a + b, owner, item) =~= entries_for(a, owner, item) + entries_for(
            b,
            owner,
            item,
        ));
    }
}

/// A list none of whose entries is about the item has none for it.
proof fn lemma_entries_for_none(es: Seq<EntryView>, owner: int, item: int)
    requires
        forall|i: int| 0 <= i < es.len() ==> !(#[trigger] es[i].owner == owner && es[i].item == item),
    ensures
        entries_for(es, owner, item) == Seq::<EntryView>::empty(),
    decreases es.len(),
{
    if es.len() > 0 {
        lemma_entries_for_none(es.drop_last(), owner, item);
        assert(entries_for(es, owner, item) =~= Seq::<EntryView>::empty());
    }
}

/// Every directive entry of generator `gen` has owner `g` and an item below `n`.
proof fn lemma_directive_entries_items(
    ps: Seq<AthalarPartial>,
    gen: AthalarGenerator,
    g: int,
    n: int,
)
    ensures
        forall|i: int|
            0 <= i < directive_entries(ps, gen, g, n).len() ==> (#[trigger] directive_entries(
                ps,
                gen,
                g,
                n,
            )[i]).owner == g && directive_entries(ps, gen, g, n)[i].item < n,
    decreases n,
{
    if n > 0 {
        lemma_directive_entries_items(ps, gen, g, n - 1);
        let prev = directive_entries(ps, gen, g, n - 1);
        let all = directive_entries(ps, gen, g, n);
        assert forall|i: int| 0 <= i < all.len() implies (#[trigger] all[i]).owner == g
            && all[i].item < n by {
            if i < prev.len() {
                assert(all[i] == prev[i]);
            }
        }
    }
}

/// Every directive entry of the first `m` generators has an owner below `m`.
proof fn lemma_all_directive_entries_owners(
    ps: Seq<AthalarPartial>,
    gens: Seq<AthalarGenerator>,
    m: int,
)
    ensures
        forall|i: int|
            0 <= i < all_directive_entries(ps, gens, m).len() ==> (
            #[trigger] all_directive_entries(ps, gens, m)[i]).owner < m,
    decreases m,
{
    if m > 0 {
        lemma_all_directive_entries_owners(ps, gens, m - 1);
        let prev = all_directive_entries(ps, gens, m - 1);
        let block = directive_entries(ps, gens[m - 1], m - 1, gens[m - 1].data.config@.len() as int);
        lemma_directive_entries_items(ps, gens[m - 1], m - 1, gens[m - 1].data.config@.len() as int);
        let all = all_directive_entries(ps, gens, m);
        assert forall|i: int| 0 <= i < all.len() implies (#[trigger] all[i]).owner < m by {
            if i < prev.len() {
                assert(all[i] == prev[i]);
            } else {
                assert(all[i] == block[i - prev.len()]);
            }
        }
    }
}

proof fn lemma_directive_entries_for(
    ps: Seq<AthalarPartial>,
    gen: AthalarGenerator,
    g: int,
    n: int,
    d: int,
)
    requires
        0 <= d < n <= gen.data.config@.len(),
    ensures
        entries_for(directive_entries(ps, gen, g, n), g, d) == missing_partial_entries(
            ps,
            gen,
            g,
            d,
        ),
    decreases n,
{
    let prev = directive_entries(ps, gen, g, n - 1);
    let piece = missing_partial_entries(ps, gen, g, n - 1);
    lemma_entries_for_add(prev, piece, g, d);
    if d == n - 1 {
        lemma_directive_entries_items(ps, gen, g, n - 1);
        lemma_entries_for_none(prev, g, d);
        if piece.len() > 0 {
            assert(piece.drop_last() =~= Seq::<EntryView>::empty());
            assert(entries_for(piece.drop_last(), g, d) =~= Seq::<EntryView>::empty());
            assert(piece.last().owner == g && piece.last().item == d);
            assert(piece =~= seq![piece.last()]);
        } else {
            assert(entries_for(piece, g, d) =~= Seq::<EntryView>::empty());
        }
        assert(entries_for(piece, g, d) =~= piece);
        assert(entries_for(directive_entries(ps, gen, g, n), g, d) =~= piece);
    } else {
        lemma_directive_entries_for(ps, gen, g, n - 1, d);
        lemma_entries_for_none(piece, g, d);
        assert(entries_for(directive_entries(ps, gen, g, n), g, d) =~= missing_partial_entries(
            ps,
            gen,
            g,
            d,
        ));
    }
}

proof fn lemma_all_directive_entries_for(
    ps: Seq<AthalarPartial>,
    gens: Seq<AthalarGenerator>,
    m: int,
    g: int,
    d: int,
)
    requires
        0 <= g < m <= gens.len(),
        0 <= d < gens[g].data.config@.len(),
    ensures
        entries_for(all_directive_entries(ps, gens, m), g, d) == missing_partial_entries(
            ps,
            gens[g],
            g,
            d,
        ),
    decreases m,
{
    let prev = all_directive_entries(ps, gens, m - 1);
    let block = directive_entries(ps, gens[m - 1], m - 1, gens[m - 1].data.config@.len() as int);
    lemma_entries_for_add(prev, block, g, d);
    if g == m - 1 {
        lemma_all_directive_entries_owners(ps, gens, m - 1);
        lemma_entries_for_none(prev, g, d);
        lemma_directive_entries_for(ps, gens[g], g, gens[g].data.config@.len() as int, d);
        assert(entries_for(all_directive_entries(ps, gens, m), g, d) =~= missing_partial_entries(
            ps,
            gens[g],
            g,
            d,
        ));
    } else {
        lemma_all_directive_entries_for(ps, gens, m - 1, g, d);
        lemma_directive_entries_items(ps, gens[m - 1], m - 1, gens[m - 1].data.config@.len() as int);
        lemma_entries_for_none(block, g, d);
        assert(entries_for(all_directive_entries(ps, gens, m), g, d) =~= missing_partial_entries(
            ps,
            gens[g],
            g,
            d,
        ));
    }
}

/// An include directive that names no partial of the project gets exactly one entry in
/// the report: a severe `PartialDoesNotExist` about that directive.
pub proof fn lemma_missing_partial_reported_once(
    a: Athalar,
    states: Seq<Vec<OutputState>>,
    g: int,
    d: int,
)
    requires
        0 <= g < a.generators@.len(),
        0 <= d < a.generators@[g].data.config@.len(),
        !partial_exists(a.partials@, included_name(a.generators@[g].data.config@[d])),
    ensures
        entries_for(report_of(a, states).directives, g, d) == seq![
            entry(
                g,
                d,
                partial_does_not_exist_message(included_name(a.generators@[g].data.config@[d])),
            ),
        ],
{
    lemma_all_directive_entries_for(
        a.partials@,
        a.generators@,
        a.generators@.len() as int,
        g,
        d,
    );
}

proof fn lemma_binding_entries_contain(
    gen: AthalarGenerator,
    g: int,
    states: Seq<OutputState>,
    n: int,
    b: int,
)
    requires
        0 <= b < n,
    ensures
        forall|e: EntryView|
            #[trigger] conflict_entries(gen, g, b).contains(e) ==> binding_entries(
                gen,
                g,
                states,
                n,
            ).contains(e),
    decreases n,
{
    let prev = binding_entries(gen, g, states, n - 1);
    let mid = prev + state_entries(g, n - 1, resolved_output(gen, n - 1), states[n - 1]);
    let all = binding_entries(gen, g, states, n);
    assert forall|e: EntryView| #[trigger] conflict_entries(gen, g, b).contains(e) implies all.contains(
        e,
    ) by {
        if b == n - 1 {
            let k = choose|k: int|
                0 <= k < conflict_entries(gen, g, b).len() && conflict_entries(gen, g, b)[k] == e;
            assert(all[mid.len() + k] == e);
        } else {
            lemma_binding_entries_contain(gen, g, states, n - 1, b);
            let k = choose|k: int| 0 <= k < prev.len() && prev[k] == e;
            assert(all[k] == e);
        }
    }
}

proof fn lemma_all_binding_entries_contain(
    gens: Seq<AthalarGenerator>,
    states: Seq<Vec<OutputState>>,
    m: int,
    g: int,
    b: int,
)
    requires
        0 <= g < m <= gens.len(),
        0 <= b < gens[g].data.bindings@.len(),
    ensures
        forall|e: EntryView|
            #[trigger] conflict_entries(gens[g], g, b).contains(e) ==> all_binding_entries(
                gens,
                states,
                m,
            ).contains(e),
    decreases m,
{
    let prev = all_binding_entries(gens, states, m - 1);
    let all = all_binding_entries(gens, states, m);
    assert forall|e: EntryView| #[trigger] conflict_entries(gens[g], g, b).contains(e) implies all.contains(
        e,
    ) by {
        if g == m - 1 {
            lemma_binding_entries_contain(
                gens[g],
                g,
                states[g]@,
                gens[g].data.bindings@.len() as int,
                b,
            );
            let block = binding_entries(
                gens[g],
                g,
                states[g]@,
                gens[g].data.bindings@.len() as int,
            );
            let k = choose|k: int| 0 <= k < block.len() && block[k] == e;
            assert(all[prev.len() + k] == e);
        } else {
            lemma_all_binding_entries_contain(gens, states, m - 1, g, b);
            let k = choose|k: int| 0 <= k < prev.len() && prev[k] == e;
            assert(all[k] == e);
        }
    }
}

/// The `FileConflict` warning about binding `b` of generator `g`.
pub open spec fn file_conflict_entry(gen: AthalarGenerator, g: int, b: int) -> EntryView {
    entry(g, b, file_conflict_message(gen.data.bindings@[b].output@, resolved_output(gen, b)))
}

/// When two distinct bindings of a generator write to the same path, the report holds a
/// `FileConflict` warning about each of them.
pub proof fn lemma_output_conflict_reported(
    a: Athalar,
    states: Seq<Vec<OutputState>>,
    g: int,
    x: int,
    y: int,
)
    requires
        0 <= g < a.generators@.len(),
        0 <= x < a.generators@[g].data.bindings@.len(),
        0 <= y < a.generators@[g].data.bindings@.len(),
        x != y,
        resolved_output(a.generators@[g], x) == resolved_output(a.generators@[g], y),
    ensures
        report_of(a, states).bindings.contains(file_conflict_entry(a.generators@[g], g, x)),
        report_of(a, states).bindings.contains(file_conflict_entry(a.generators@[g], g, y)),
{
    let gen = a.generators@[g];
    let n = a.generators@.len() as int;
    assert(has_output_conflict(gen, x)) by {
        assert(resolved_output(gen, y) == resolved_output(gen, x));
    }
    assert(has_output_conflict(gen, y)) by {
        assert(resolved_output(gen, x) == resolved_output(gen, y));
    }
    assert(conflict_entries(gen, g, x)[0] == file_conflict_entry(gen, g, x));
    assert(conflict_entries(gen, g, y)[0] == file_conflict_entry(gen, g, y));
    assert(conflict_entries(gen, g, x).contains(file_conflict_entry(gen, g, x)));
    assert(conflict_entries(gen, g, y).contains(file_conflict_entry(gen, g, y)));
    lemma_all_binding_entries_contain(a.generators@, states, n, g, x);
    lemma_all_binding_entries_contain(a.generators@, states, n, g, y);
}

/// Validation depends on nothing but the project and the probe outcomes: validating an
/// unchanged project against unchanged outcomes twice gives equal reports.
pub proof fn lemma_validation_repeatable(
    a: Athalar,
    states: Seq<Vec<OutputState>>,
    first: ValidationReport,
    second: ValidationReport,
)
    requires
        first@ == report_of(a, states),
        second@ == report_of(a, states),
    ensures
        first@ == second@,
{
}

} // verus!
