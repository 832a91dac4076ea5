use athalar_core::reporting::{GeneratorReportCreator, PartialReportCreator, ReportCode, ReportMessageOrigin};
use athalar_core::{
    AssemblyError, Athalar, AthalarAdapter, AthalarBinding, AthalarBindingBuilder,
    AthalarConfigAtom, AthalarConfigBuilder, AthalarConfigVersion, AthalarGenerator,
    AthalarGeneratorBuilder, AthalarGeneratorContent, AthalarGeneratorDataBuilder,
    AthalarPartial, AthalarPartialBuilder, AthalarPartialData, AtomKind, AtomValidator,
    ClassValidatorAdapterProfileBuilder, OutputState, PydanticAdapterProfile, ReportLevel,
};

fn declared(name: &str, validators: Vec<AtomValidator>) -> AthalarConfigAtom {
    AthalarConfigAtom { name: name.to_string(), kind: None, validators, description: None }
}

fn partial(path: &str, atoms: Vec<AthalarConfigAtom>) -> AthalarPartial {
    AthalarPartialBuilder::default()
        .source(path)
        .data(AthalarPartialData::from_declarations(&atoms))
        .build()
        .unwrap()
}

fn binding(output: &str) -> AthalarBinding {
    AthalarBindingBuilder::default()
        .output(output)
        .profile(AthalarAdapter::ClassValidator(
            ClassValidatorAdapterProfileBuilder::default().build().unwrap(),
        ))
        .build()
        .unwrap()
}

fn generator(path: &str, includes: &[&str], bindings: Vec<AthalarBinding>) -> AthalarGenerator {
    let config = includes
        .iter()
        .map(|n| AthalarGeneratorContent::IncludePartial(n.to_string()))
        .collect();
    AthalarGeneratorBuilder::default()
        .source(path)
        .data(AthalarGeneratorDataBuilder::default().config(config).bindings(bindings).build().unwrap())
        .build()
        .unwrap()
}

fn project(partials: Vec<AthalarPartial>, generators: Vec<AthalarGenerator>) -> Athalar {
    let config = AthalarConfigBuilder::default().version(AthalarConfigVersion::One).build().unwrap();
    Athalar::new(config, partials, generators)
}

fn creatable(a: &Athalar) -> Vec<Vec<OutputState>> {
    a.generators
        .iter()
        .map(|g| g.data.bindings.iter().map(|_| OutputState::Creatable).collect())
        .collect()
}

#[test]
fn mail_project_scenario() {
    let mail = partial(
        "proj/src/partials/mail.ath.yaml",
        vec![declared("HOST", vec![]), declared("PORT", vec![AtomValidator::Port])],
    );
    assert_eq!(mail.name, "mail");
    let backend = generator("proj/src/generators/backend.ath.yaml", &["mail"], vec![]);
    assert_eq!(backend.name, "backend");
    let a = project(vec![mail], vec![backend]);
    let report = a.get_validation_report(&creatable(&a));
    assert!(!report.has_errors());
    assert_eq!(report.generators.bindings.len(), 0);
    assert_eq!(report.generators.config.len(), 0);
    assert_eq!(report.partials.config.len(), 0);
    let info = a.get_information().unwrap();
    assert_eq!(info.generators.len(), 1);
    let atoms = &info.generators[0].1;
    assert_eq!(atoms.len(), 2);
    assert_eq!(atoms[0].name, "HOST");
    assert_eq!(atoms[0].kind, AtomKind::String);
    assert_eq!(atoms[1].name, "PORT");
    assert_eq!(atoms[1].kind, AtomKind::Number);
}

#[test]
fn assembly_keeps_directive_and_atom_order() {
    let a_partial = partial(
        "p/a.ath.yaml",
        vec![declared("A1", vec![]), declared("A2", vec![AtomValidator::Number])],
    );
    let b_partial = partial(
        "p/b.ath.yaml",
        vec![declared("B1", vec![]), declared("B2", vec![]), declared("B3", vec![AtomValidator::Noop])],
    );
    let gen = generator("g/gen.ath.yaml", &["a", "b"], vec![]);
    let a = project(vec![b_partial, a_partial], vec![gen]);
    let info = a.get_information().unwrap();
    let names: Vec<&str> = info.generators[0].1.iter().map(|x| x.name.as_str()).collect();
    assert_eq!(names, vec!["A1", "A2", "B1", "B2", "B3"]);
    assert_eq!(info.generators[0].0, 0);
    assert_eq!(info.generators[0].1[4].kind, AtomKind::Any);
    assert_eq!(info.config.source, "src");
}

#[test]
fn assembly_fails_on_missing_partial() {
    let gen = generator("g/gen.ath.yaml", &["mail"], vec![]);
    let a = project(vec![], vec![gen]);
    match a.get_information() {
        Err(AssemblyError::MissingPartial(name)) => assert_eq!(name, "mail"),
        Ok(_) => panic!("assembly should fail"),
    }
}

#[test]
fn missing_partial_reported_once() {
    let mail = partial("p/mail.ath.yaml", vec![declared("HOST", vec![])]);
    let gen = generator("g/gen.ath.yaml", &["mail", "db", "mail"], vec![]);
    let a = project(vec![mail], vec![gen]);
    let report = a.get_validation_report(&creatable(&a));
    assert_eq!(report.generators.config.len(), 1);
    let e = &report.generators.config[0];
    assert_eq!((e.owner, e.item), (0, 1));
    assert_eq!(e.message.code.as_str(), "PartialDoesNotExist");
    assert_eq!(e.message.level, ReportLevel::Severe);
    assert_eq!(e.message.origin, ReportMessageOrigin::GeneratorConfig);
    assert_eq!(e.message.message, "Named partial \"db\" does not exist");
    assert!(report.has_errors_with_level(ReportLevel::Severe));
}

#[test]
fn output_conflict_reported_for_each_binding() {
    let gen = generator(
        "proj/gen/backend.ath.yaml",
        &[],
        vec![binding("out/config.ts"), binding("other.ts"), binding("x/../out/config.ts")],
    );
    let a = project(vec![], vec![gen]);
    let outputs = a.binding_outputs();
    assert_eq!(outputs[0][0], "proj/gen/out/config.ts");
    assert_eq!(outputs[0][2], "proj/gen/out/config.ts");
    assert_eq!(outputs[0][1], "proj/gen/other.ts");
    let report = a.get_validation_report(&creatable(&a));
    let conflicts: Vec<(usize, usize)> = report
        .generators
        .bindings
        .iter()
        .filter(|e| e.message.code.as_str() == "FileConflict")
        .map(|e| (e.owner, e.item))
        .collect();
    assert_eq!(conflicts, vec![(0, 0), (0, 2)]);
    assert_eq!(report.generators.bindings[0].message.level, ReportLevel::Warning);
    assert!(report.has_errors());
    assert!(report.has_errors_with_level(ReportLevel::Warning));
    assert!(!report.has_errors_with_level(ReportLevel::Severe));
}

#[test]
fn probe_outcomes_are_reported() {
    let gen = generator("proj/gen/g.ath.yaml", &[], vec![binding("a.ts"), binding("b.ts"), binding("c.ts")]);
    let a = project(vec![], vec![gen]);
    let states = vec![vec![OutputState::AlreadyExists, OutputState::Creatable, OutputState::NotCreatable]];
    let report = a.get_validation_report(&states);
    assert_eq!(report.generators.bindings.len(), 2);
    let first = &report.generators.bindings[0];
    assert_eq!((first.owner, first.item), (0, 0));
    assert_eq!(first.message.code.as_str(), "FileAlreadyExists");
    assert_eq!(first.message.level, ReportLevel::Warning);
    assert_eq!(first.message.message, "The file \"proj/gen/a.ts\" already exists");
    let second = &report.generators.bindings[1];
    assert_eq!((second.owner, second.item), (0, 2));
    assert_eq!(second.message.code.as_str(), "CanNotCreateFile");
    assert_eq!(second.message.level, ReportLevel::Severe);
    assert_eq!(second.message.message, "File at location \"proj/gen/c.ts\" can not be created");
    assert!(report.has_errors_with_level(ReportLevel::Severe));
}

#[test]
fn duplicate_atom_names_reported_for_each_atom() {
    let p = partial(
        "p/mail.ath.yaml",
        vec![declared("HOST", vec![]), declared("PORT", vec![]), declared("HOST", vec![])],
    );
    let a = project(vec![p], vec![]);
    let report = a.get_validation_report(&vec![]);
    let items: Vec<(usize, usize)> = report.partials.config.iter().map(|e| (e.owner, e.item)).collect();
    assert_eq!(items, vec![(0, 0), (0, 2)]);
    assert_eq!(report.partials.config[0].message.code.as_str(), "NameConflict");
    assert_eq!(
        report.partials.config[0].message.message,
        "Partial name \"mail\" conflicts with another partial of the same name"
    );
    assert!(report.has_errors());
    assert!(!report.has_errors_with_level(ReportLevel::Severe));
}

#[test]
fn validation_is_repeatable() {
    let p = partial("p/mail.ath.yaml", vec![declared("HOST", vec![]), declared("HOST", vec![])]);
    let gen = generator("g/gen.ath.yaml", &["mail", "db"], vec![binding("a"), binding("./a")]);
    let a = project(vec![p], vec![gen]);
    let states = vec![vec![OutputState::NotCreatable, OutputState::AlreadyExists]];
    let first = a.get_validation_report(&states);
    let second = a.get_validation_report(&states);
    assert_eq!(format!("{:?}", first), format!("{:?}", second));
    assert_eq!(first.generators.bindings.len(), 4);
}

#[test]
fn message_texts() {
    let m = GeneratorReportCreator::file_conflict("a/../b", "gen/b");
    assert_eq!(m.message, "Generator binding \"a/../b\" and \"gen/b\" have the same output location");
    assert_eq!(m.code, ReportCode::Binding(athalar_core::reporting::GeneratorBindingReport::FileConflict));
    let n = PartialReportCreator::name_conflict("mail");
    assert_eq!(n.message, "Partial name \"mail\" conflicts with another partial of the same name");
    assert_eq!(n.level, ReportLevel::Warning);
    let q = GeneratorReportCreator::partial_does_not_exist("with \"quote\"");
    assert_eq!(q.message, "Named partial \"with \\\"quote\\\"\" does not exist");
}

#[test]
fn binding_output_is_relative_to_generator_dir() {
    let b = binding("../out/./types.py");
    assert_eq!(b.output("proj/src/generators"), "proj/src/out/types.py");
    let gen = generator("proj/src/generators/py.ath.yaml", &[], vec![b]);
    assert_eq!(gen.source_dir(), "proj/src/generators");
    assert_eq!(gen.binding_output(0), "proj/src/out/types.py");
    let p = AthalarAdapter::Pydantic(PydanticAdapterProfile { class_name: Some("Cfg".to_string()) });
    assert!(matches!(p, AthalarAdapter::Pydantic(_)));
}

#[test]
fn absolute_output_is_refused() {
    let r = AthalarBindingBuilder::default()
        .output("/etc/config.ts")
        .profile(AthalarAdapter::Pydantic(PydanticAdapterProfile { class_name: None }))
        .build();
    assert_eq!(r, Err(athalar_core::BuilderError::AbsoluteOutput));
    let rooted = AthalarBinding {
        output: "/abs.ts".to_string(),
        profile: AthalarAdapter::Pydantic(PydanticAdapterProfile { class_name: None }),
    };
    let a = project(vec![], vec![generator("g/gen.ath.yaml", &[], vec![binding("ok.ts"), rooted])]);
    assert!(!a.has_relative_outputs());
    let b = project(vec![], vec![generator("g/gen.ath.yaml", &[], vec![binding("ok.ts")])]);
    assert!(b.has_relative_outputs());
}

#[test]
fn assembly_names_first_missing_partial() {
    let mail = partial("p/mail.ath.yaml", vec![declared("HOST", vec![])]);
    let first = generator("g/first.ath.yaml", &["mail", "cache"], vec![]);
    let second = generator("g/second.ath.yaml", &["db"], vec![]);
    let a = project(vec![mail], vec![first, second]);
    match a.get_information() {
        Err(AssemblyError::MissingPartial(name)) => assert_eq!(name, "cache"),
        Ok(_) => panic!("assembly should fail"),
    }
}
