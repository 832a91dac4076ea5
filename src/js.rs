//! The records handed to the JavaScript emitter: for each class-validator binding, where
//! it writes, the generated class name, and its atoms with TypeScript types and
//! class-validator decorators; and the validation report as plain text.
use crate::atom::{AthalarAtom, AtomValidator, AtomView};
use crate::binding::AthalarAdapter;
use crate::emit::{js_kind_of, AthalarJsKind};
use crate::generator::{outputs_relative, resolved_output};
use crate::partial::atoms_view;
use crate::project::{
    all_included_exist, all_outputs_relative, assembled_atoms, included_name_of_first_missing,
    report_of, states_fit, AssemblyError, Athalar, OutputState,
};
use crate::reporting::{EntryView, ReportEntry, ReportLevel};
use vstd::prelude::*;

verus! {

/// The class name of a generated class when the profile names none.
pub const DEFAULT_CLASS_NAME: &'static str = "Config";

/// The class-validator decorators.
#[derive(Debug, PartialEq, Eq, Clone, Copy, Structural)]
pub enum ClassValidator {
    Number,
    String,
    Url,
    Port,
    Allow,
}

pub open spec fn class_validator_of(v: AtomValidator) -> ClassValidator {
    match v {
        AtomValidator::Number => ClassValidator::Number,
        AtomValidator::String => ClassValidator::String,
        AtomValidator::Url => ClassValidator::Url,
        AtomValidator::Port => ClassValidator::Port,
        AtomValidator::Noop => ClassValidator::Allow,
    }
}

pub open spec fn decorator_text(c: ClassValidator) -> Seq<char> {
    match c {
        ClassValidator::Number => "IsNumber"@,
        ClassValidator::String => "IsString"@,
        ClassValidator::Url => "IsUrl"@,
        ClassValidator::Port => "IsPort"@,
        ClassValidator::Allow => "Allow"@,
    }
}

impl From<AtomValidator> for ClassValidator {
    fn from(v: AtomValidator) -> (r: ClassValidator)
        ensures
            r == class_validator_of(v),
    {
        match v {
            AtomValidator::Number => ClassValidator::Number,
            AtomValidator::String => ClassValidator::String,
            AtomValidator::Url => ClassValidator::Url,
            AtomValidator::Port => ClassValidator::Port,
            AtomValidator::Noop => ClassValidator::Allow,
        }
    }
}

impl vstd::std_specs::convert::FromSpecImpl<AtomValidator> for ClassValidator {
    open spec fn obeys_from_spec() -> bool {
        true
    }

    open spec fn from_spec(v: AtomValidator) -> ClassValidator {
        class_validator_of(v)
    }
}

impl ClassValidator {
    /// The decorator's name.
    pub fn as_str(&self) -> (r: &'static str)
        ensures
            r@ == decorator_text(*self),
    {
        match self {
            ClassValidator::Number => "IsNumber",
            ClassValidator::String => "IsString",
            ClassValidator::Url => "IsUrl",
            ClassValidator::Port => "IsPort",
            ClassValidator::Allow => "Allow",
        }
    }
}

pub open spec fn js_kind_text(k: AthalarJsKind) -> Seq<char> {
    match k {
        AthalarJsKind::Number => "number"@,
        AthalarJsKind::String => "string"@,
        AthalarJsKind::Any => "any"@,
    }
}

/// The settings of a class-validator binding, with the class name filled in.
#[derive(Debug, Clone)]
pub struct ClassValidatorProfile {
    pub class_name: String,
}

/// The adapters that the JavaScript emitter handles.
#[derive(Debug, PartialEq, Eq, Clone, Copy, Structural)]
pub enum AthalarJsBindingType {
    ClassValidator,
}

/// An atom as the JavaScript emitter sees it.
#[derive(Debug, Clone)]
pub struct AthalarJsAtom {
    pub name: String,
    /// The TypeScript type
    pub kind: String,
    /// The decorators to apply, never none
    pub validators: Vec<String>,
    pub description: Option<String>,
}

/// A binding as the JavaScript emitter sees it.
#[derive(Debug, Clone)]
pub struct AthalarJsBinding {
    /// Where the output goes
    pub output: String,
    pub variety: AthalarJsBindingType,
    pub details: ClassValidatorProfile,
    pub atoms: Vec<AthalarJsAtom>,
}

/// One reported problem as text.
#[derive(Debug, Clone)]
pub struct AthalarJsReport {
    /// The severity level of the report
    pub level: String,
    /// The error message of the report
    pub message: String,
}

/// The validation report as text: generator problems, then partial problems.
#[derive(Debug, Clone)]
pub struct AthalarJsValidationReport {
    pub generators: Vec<AthalarJsReport>,
    pub partials: Vec<AthalarJsReport>,
}

/// A project, seen from the JavaScript emitter.
#[derive(Debug, Clone)]
pub struct AthalarJs(pub Athalar);

pub struct JsAtomView {
    pub name: Seq<char>,
    pub kind: Seq<char>,
    pub validators: Seq<Seq<char>>,
    pub description: Option<Seq<char>>,
}

pub open spec fn texts(v: Seq<String>) -> Seq<Seq<char>> {
    v.map_values(|s: String| s@)
}

impl View for AthalarJsAtom {
    type V = JsAtomView;

    open spec fn view(&self) -> JsAtomView {
        JsAtomView {
            name: self.name@,
            kind: self.kind@,
            validators: texts(self.validators@),
            description: crate::atom::optional_text(self.description),
        }
    }
}

/// The decorators of an atom: one per validator, or `Allow` when it has none.
pub open spec fn decorators_of(vs: Seq<AtomValidator>) -> Seq<Seq<char>> {
    if vs.len() == 0 {
        seq!["Allow"@]
    } else {
        vs.map_values(|v: AtomValidator| decorator_text(class_validator_of(v)))
    }
}

pub open spec fn js_atom_of(a: AtomView) -> JsAtomView {
    JsAtomView {
        name: a.name,
        kind: js_kind_text(js_kind_of(a.kind)),
        validators: decorators_of(a.validators),
        description: a.description,
    }
}

pub struct JsBindingView {
    pub output: Seq<char>,
    pub class_name: Seq<char>,
    pub atoms: Seq<JsAtomView>,
}

pub open spec fn js_binding_view(b: AthalarJsBinding) -> JsBindingView {
    JsBindingView {
        output: b.output@,
        class_name: b.details.class_name@,
        atoms: b.atoms@.map_values(|a: AthalarJsAtom| a@),
    }
}

pub open spec fn class_name_or_default(n: Option<String>) -> Seq<char> {
    match n {
        Some(c) => c@,
        None => DEFAULT_CLASS_NAME@,
    }
}

/// The records for the first `n` bindings of generator `g`: one for each
/// class-validator binding, in order.
pub open spec fn js_bindings_of(a: Athalar, g: int, n: int) -> Seq<JsBindingView>
    decreases n,
{
    if n <= 0 {
        seq![]
    } else {
        let gen = a.generators@[g];
        js_bindings_of(a, g, n - 1) + match gen.data.bindings@[n - 1].profile {
            AthalarAdapter::ClassValidator(p) => seq![
                JsBindingView {
                    output: resolved_output(gen, n - 1),
                    class_name: class_name_or_default(p.class_name),
                    atoms: assembled_atoms(a.partials@, gen).map_values(|x: AtomView| js_atom_of(x)),
                },
            ],
            AthalarAdapter::Pydantic(_) => seq![],
        }
    }
}

/// The records of the first `m` generators.
pub open spec fn all_js_bindings(a: Athalar, m: int) -> Seq<JsBindingView>
    decreases m,
{
    if m <= 0 {
        seq![]
    } else {
        all_js_bindings(a, m - 1) + js_bindings_of(a, m - 1, a.generators@[m - 1].data.bindings@.len() as int)
    }
}

pub open spec fn level_text(l: ReportLevel) -> Seq<char> {
    match l {
        ReportLevel::Severe => "Severe"@,
        ReportLevel::Warning => "Warning"@,
    }
}

pub open spec fn js_report_of(e: EntryView) -> (Seq<char>, Seq<char>) {
    (level_text(e.message.level), e.message.text)
}

pub open spec fn js_report_view(r: AthalarJsReport) -> (Seq<char>, Seq<char>) {
    (r.level@, r.message@)
}

fn level_name(l: ReportLevel) -> (r: String)
    ensures
        r@ == level_text(l),
{
    match l {
        ReportLevel::Severe => "Severe".to_string(),
        ReportLevel::Warning => "Warning".to_string(),
    }
}

/// Appends the text of each entry of `es` to `out`.
fn append_reports(out: &mut Vec<AthalarJsReport>, es: &Vec<ReportEntry>)
    ensures
        final(out)@.map_values(|r: AthalarJsReport| js_report_view(r)) == old(out)@.map_values(
            |r: AthalarJsReport| js_report_view(r),
        ) + es@.map_values(|e: ReportEntry| js_report_of(e@)),
{
    let mut i: usize = 0;
    while i < es.len()
        invariant
            i <= es@.len(),
            out@.map_values(|r: AthalarJsReport| js_report_view(r)) == old(out)@.map_values(
                |r: AthalarJsReport| js_report_view(r),
            ) + es@.subrange(0, i as int).map_values(|e: ReportEntry| js_report_of(e@)),
        decreases es@.len() - i,
    {
        let ghost before = out@;
        let e = &es[i];
        out.push(AthalarJsReport { level: level_name(e.message.level), message: e.message.message.clone() });
        assert(out@.map_values(|r: AthalarJsReport| js_report_view(r)) =~= before.map_values(
            |r: AthalarJsReport| js_report_view(r),
        ).push(js_report_of(es@[i as int]@)));
        assert(es@.subrange(0, i as int + 1).map_values(|e: ReportEntry| js_report_of(e@))
            =~= es@.subrange(0, i as int).map_values(|e: ReportEntry| js_report_of(e@)).push(
            js_report_of(es@[i as int]@),
        ));
        i = i + 1;
    }
    assert(es@.subrange(0, es@.len() as int) =~= es@);
}

/// The decorators for a list of validators: one per validator, or `Allow` for none.
fn decorators(vs: &Vec<AtomValidator>) -> (r: Vec<String>)
    ensures
        texts(r@) == decorators_of(vs@),
{
    let mut r: Vec<String> = Vec::new();
    if vs.len() == 0 {
        r.push(ClassValidator::Allow.as_str().to_string());
        assert(texts(r@) =~= decorators_of(vs@));
        return r;
    }
    let mut i: usize = 0;
    while i < vs.len()
        invariant
            i <= vs@.len(),
            texts(r@) == vs@.subrange(0, i as int).map_values(
                |v: AtomValidator| decorator_text(class_validator_of(v)),
            ),
        decreases vs@.len() - i,
    {
        let ghost before = r@;
        r.push(ClassValidator::from(vs[i]).as_str().to_string());
        assert(texts(r@) =~= texts(before).push(decorator_text(class_validator_of(vs@[i as int]))));
        assert(vs@.subrange(0, i as int + 1).map_values(
            |v: AtomValidator| decorator_text(class_validator_of(v)),
        ) =~= vs@.subrange(0, i as int).map_values(
            |v: AtomValidator| decorator_text(class_validator_of(v)),
        ).push(decorator_text(class_validator_of(vs@[i as int]))));
        i = i + 1;
    }
    assert(vs@.subrange(0, vs@.len() as int) =~= vs@);
    r
}

impl AthalarJsAtom {
    /// The record of an atom.
    pub fn from_atom(atom: &AthalarAtom) -> (r: AthalarJsAtom)
        ensures
            r@ == js_atom_of(atom@),
    {
        AthalarJsAtom {
            name: atom.name.clone(),
            kind: AthalarJsKind::from(atom.kind).as_str().to_string(),
            validators: decorators(&atom.validators),
            description: crate::atom::copy_text(&atom.description),
        }
    }
}

/// The records of a list of atoms, in order.
fn js_atoms(atoms: &Vec<AthalarAtom>) -> (r: Vec<AthalarJsAtom>)
    ensures
        r@.map_values(|a: AthalarJsAtom| a@) == atoms_view(atoms@).map_values(
            |x: AtomView| js_atom_of(x),
        ),
{
    let mut r: Vec<AthalarJsAtom> = Vec::new();
    let mut i: usize = 0;
    while i < atoms.len()
        invariant
            i <= atoms@.len(),
            r@.map_values(|a: AthalarJsAtom| a@) == atoms_view(atoms@.subrange(0, i as int)).map_values(
                |x: AtomView| js_atom_of(x),
            ),
        decreases atoms@.len() - i,
    {
        let ghost before = r@;
        r.push(AthalarJsAtom::from_atom(&atoms[i]));
        assert(r@.map_values(|a: AthalarJsAtom| a@) =~= before.map_values(|a: AthalarJsAtom| a@).push(
            js_atom_of(atoms@[i as int]@),
        ));
        assert(atoms_view(atoms@.subrange(0, i as int + 1)).map_values(|x: AtomView| js_atom_of(x))
            =~= atoms_view(atoms@.subrange(0, i as int)).map_values(|x: AtomView| js_atom_of(x)).push(
            js_atom_of(atoms@[i as int]@),
        ));
        i = i + 1;
    }
    assert(atoms@.subrange(0, atoms@.len() as int) =~= atoms@);
    r
}

impl AthalarJs {
    /// The validation report as text: the binding problems and the directive problems
    /// of the generators, then the atom problems of the partials.
    pub fn get_validation_reports(&self, states: &Vec<Vec<OutputState>>) -> (r: AthalarJsValidationReport)
        requires
            states_fit(self.0.generators@, states@),
            all_outputs_relative(self.0.generators@),
        ensures
            r.generators@.map_values(|x: AthalarJsReport| js_report_view(x)) == (report_of(
                self.0,
                states@,
            ).bindings + report_of(self.0, states@).directives).map_values(
                |e: EntryView| js_report_of(e),
            ),
            r.partials@.map_values(|x: AthalarJsReport| js_report_view(x)) == report_of(
                self.0,
                states@,
            ).atoms.map_values(|e: EntryView| js_report_of(e)),
    {
        let report = self.0.get_validation_report(states);
        let mut generators: Vec<AthalarJsReport> = Vec::new();
        let mut partials: Vec<AthalarJsReport> = Vec::new();
        append_reports(&mut generators, &report.generators.bindings);
        append_reports(&mut generators, &report.generators.config);
        append_reports(&mut partials, &report.partials.config);
        proof {
            let f = |e: ReportEntry| js_report_of(e@);
            let g = |e: EntryView| js_report_of(e);
            assert(report.generators.bindings@.map_values(f) =~= report@.bindings.map_values(g));
            assert(report.generators.config@.map_values(f) =~= report@.directives.map_values(g));
            assert(report.partials.config@.map_values(f) =~= report@.atoms.map_values(g));
            assert((report@.bindings + report@.directives).map_values(g) =~= report@.bindings.map_values(g)
                + report@.directives.map_values(g));
            assert(generators@.map_values(|x: AthalarJsReport| js_report_view(x)) =~= (report@.bindings
                + report@.directives).map_values(g));
            assert(partials@.map_values(|x: AthalarJsReport| js_report_view(x)) =~= report@.atoms.map_values(g));
        }
        AthalarJsValidationReport { generators, partials }
    }

    /// The records of every class-validator binding of every generator, in order, each
    /// with the atoms that its generator assembles. Fails as assembly does.
    pub fn get_information(&self) -> (r: Result<Vec<AthalarJsBinding>, AssemblyError>)
        requires
            all_outputs_relative(self.0.generators@),
        ensures
            r.is_ok() <==> all_included_exist(self.0.partials@, self.0.generators@),
            r matches Err(AssemblyError::MissingPartial(name)) ==> included_name_of_first_missing(
                self.0.partials@,
                self.0.generators@,
                name@,
            ),
            r matches Ok(bs) ==> bs@.map_values(|b: AthalarJsBinding| js_binding_view(b))
                == all_js_bindings(self.0, self.0.generators@.len() as int),
    {
        let information = match self.0.get_information() {
            Err(e) => {
                return Err(e);
            },
            Ok(i) => i,
        };
        let mut bindings: Vec<AthalarJsBinding> = Vec::new();
        let mut g: usize = 0;
        while g < self.0.generators.len()
            invariant
                all_outputs_relative(self.0.generators@),
                g <= self.0.generators@.len(),
                information.generators@.len() == self.0.generators@.len(),
                forall|k: int|
                    0 <= k < information.generators@.len() ==> atoms_view(
                        (#[trigger] information.generators@[k]).1@,
                    ) == assembled_atoms(self.0.partials@, self.0.generators@[k]),
                bindings@.map_values(|b: AthalarJsBinding| js_binding_view(b)) == all_js_bindings(
                    self.0,
                    g as int,
                ),
            decreases self.0.generators@.len() - g,
        {
            let generator = &self.0.generators[g];
            assert(outputs_relative(self.0.generators@[g as int]));
            let atoms = &information.generators[g].1;
            let ghost outer = bindings@;
            let mut b: usize = 0;
            while b < generator.data.bindings.len()
                invariant
                    g < self.0.generators@.len(),
                    outputs_relative(*generator),
                    generator == self.0.generators@[g as int],
                    atoms_view(atoms@) == assembled_atoms(self.0.partials@, *generator),
                    b <= generator.data.bindings@.len(),
                    bindings@.map_values(|x: AthalarJsBinding| js_binding_view(x)) == outer.map_values(
                        |x: AthalarJsBinding| js_binding_view(x),
                    ) + js_bindings_of(self.0, g as int, b as int),
                decreases generator.data.bindings@.len() - b,
            {
                let ghost before = bindings@;
                match &generator.data.bindings[b].profile {
                    AthalarAdapter::ClassValidator(p) => {
                        let class_name = match &p.class_name {
                            Some(c) => c.clone(),
                            None => DEFAULT_CLASS_NAME.to_string(),
                        };
                        let js = AthalarJsBinding {
                            output: generator.binding_output(b),
                            variety: AthalarJsBindingType::ClassValidator,
                            details: ClassValidatorProfile { class_name },
                            atoms: js_atoms(atoms),
                        };
                        bindings.push(js);
                        assert(bindings@.map_values(|x: AthalarJsBinding| js_binding_view(x))
                            =~= before.map_values(|x: AthalarJsBinding| js_binding_view(x)).push(
                            js_binding_view(js),
                        ));
                    },
                    AthalarAdapter::Pydantic(_) => {},
                }
                assert(bindings@.map_values(|x: AthalarJsBinding| js_binding_view(x)) =~= outer.map_values(
                    |x: AthalarJsBinding| js_binding_view(x),
                ) + js_bindings_of(self.0, g as int, b as int + 1));
                b = b + 1;
            }
            assert(bindings@.map_values(|x: AthalarJsBinding| js_binding_view(x)) =~= all_js_bindings(
                self.0,
                g as int + 1,
            ));
            g = g + 1;
        }
        Ok(bindings)
    }
}

} // verus!
