use athalar_core::{
    get_name_from_path, infer_kind, AthalarAdapter, AthalarAtom, AthalarAtomBuilder,
    AthalarBindingBuilder, AthalarConfigBuilder, AthalarConfigKind, AthalarConfigVersion,
    AthalarGeneratorContent, AthalarGeneratorDataBuilder, AthalarPartialDataBuilder,
    AthalarJsKind, AthalarPythonKind, AtomKind, AtomValidator, BuilderError,
    ClassValidatorAdapterProfileBuilder,
};
use std::path::PathBuf;

#[test]
fn atom_no_validators_in_yaml_yields_validator_of_zero_len() {
    let aca = AthalarAtomBuilder::default().name("mail").build().unwrap();
    assert_eq!(aca.validators.len(), 0);
}

#[test]
fn atom_correct_number_of_validators() {
    let aca = AthalarAtomBuilder::default()
        .name("mail")
        .validators(vec![AtomValidator::String])
        .build()
        .unwrap();
    assert_eq!(aca.validators.len(), 1);
}

#[test]
fn gets_correct_source_and_version() {
    let ac = AthalarConfigBuilder::default()
        .version(AthalarConfigVersion::One)
        .source("other_source")
        .build()
        .unwrap();
    assert_eq!(ac.version, AthalarConfigVersion::One);
    assert_eq!(PathBuf::from(&ac.source), PathBuf::from("other_source"));
}

#[test]
fn gets_correct_value_of_config_dirs() {
    let ac = AthalarConfigBuilder::default()
        .version(AthalarConfigVersion::One)
        .source("src")
        .build()
        .unwrap();
    assert_eq!(PathBuf::from(&ac.partials), PathBuf::from("partials"));
    assert_eq!(PathBuf::from(&ac.generators), PathBuf::from("generators"));
}

#[test]
fn accessors_return_correct_value() {
    let ac = AthalarConfigBuilder::default()
        .version(AthalarConfigVersion::One)
        .source("src")
        .build()
        .unwrap();
    assert_eq!(PathBuf::from(ac.partials()), PathBuf::from("src").join("partials"));
    assert_eq!(PathBuf::from(ac.generators()), PathBuf::from("src").join("generators"));
}

#[test]
#[should_panic]
fn panic_on_no_version() {
    AthalarConfigBuilder::default().build().unwrap();
}

#[test]
fn empty_config_should_have_correct_length() {
    let agd = AthalarGeneratorDataBuilder::default().build().unwrap();
    assert_eq!(agd.config.len(), 0);
}

#[test]
fn empty_bindings_should_have_correct_length() {
    let agd = AthalarGeneratorDataBuilder::default().build().unwrap();
    assert_eq!(agd.bindings.len(), 0);
}

#[test]
fn config_should_have_correct_length() {
    let agd = AthalarGeneratorDataBuilder::default()
        .config(vec![AthalarGeneratorContent::IncludePartial("mail".into())])
        .build()
        .unwrap();
    assert_eq!(agd.config.len(), 1);
}

#[test]
fn bindings_should_have_correct_length() {
    let agd = AthalarGeneratorDataBuilder::default()
        .bindings(vec![AthalarBindingBuilder::default()
            .output("some")
            .profile(AthalarAdapter::ClassValidator(
                ClassValidatorAdapterProfileBuilder::default().build().unwrap(),
            ))
            .build()
            .unwrap()])
        .build()
        .unwrap();
    assert_eq!(agd.bindings.len(), 1);
}

#[test]
fn config_should_have_correct_value_inside_include_partial() {
    let agd = AthalarGeneratorDataBuilder::default()
        .config(vec![AthalarGeneratorContent::IncludePartial("mail".into())])
        .build()
        .unwrap();
    match agd.config.get(0).unwrap() {
        AthalarGeneratorContent::IncludePartial(x) => assert_eq!(x, "mail"),
    }
}

#[test]
fn no_kind_gets_default_value() {
    let apd = AthalarPartialDataBuilder::default().build().unwrap();
    assert_eq!(apd.kind, AthalarConfigKind::Variable);
}

#[test]
fn no_validators() {
    let apd = AthalarPartialDataBuilder::default()
        .config(vec![AthalarAtom::default()])
        .build()
        .unwrap();
    assert_eq!(apd.config.len(), 1);
    assert_eq!(apd.config[0].validators.len(), 0);
}

#[test]
fn specifying_kind_as_variable_sets_correct_value() {
    let apd = AthalarPartialDataBuilder::default()
        .config(vec![AthalarAtom::default()])
        .build()
        .unwrap();
    assert_eq!(apd.kind, AthalarConfigKind::Variable);
}

#[test]
fn majority_kind_wins() {
    assert_eq!(infer_kind(None, &vec![AtomValidator::Port, AtomValidator::String, AtomValidator::Number]), AtomKind::Number);
    assert_eq!(infer_kind(None, &vec![AtomValidator::Url, AtomValidator::Noop, AtomValidator::String, AtomValidator::Port]), AtomKind::String);
    assert_eq!(infer_kind(None, &vec![AtomValidator::Noop]), AtomKind::Any);
    assert_eq!(infer_kind(None, &vec![AtomValidator::Noop, AtomValidator::Number, AtomValidator::Noop]), AtomKind::Any);
}

#[test]
fn no_validators_give_string() {
    assert_eq!(infer_kind(None, &vec![]), AtomKind::String);
    let atom = AthalarAtomBuilder::default().name("HOST").build().unwrap();
    assert_eq!(atom.kind, AtomKind::String);
}

#[test]
fn tie_goes_to_first_occurrence() {
    assert_eq!(infer_kind(None, &vec![AtomValidator::Url, AtomValidator::Port]), AtomKind::String);
    assert_eq!(infer_kind(None, &vec![AtomValidator::Port, AtomValidator::Url]), AtomKind::Number);
    assert_eq!(infer_kind(None, &vec![AtomValidator::Noop, AtomValidator::Url, AtomValidator::Port]), AtomKind::Any);
    assert_eq!(infer_kind(None, &vec![AtomValidator::Number, AtomValidator::Noop, AtomValidator::Noop, AtomValidator::Port]), AtomKind::Number);
}

#[test]
fn explicit_kind_overrides_validators() {
    assert_eq!(infer_kind(Some(AtomKind::Any), &vec![AtomValidator::Port, AtomValidator::Port]), AtomKind::Any);
    assert_eq!(infer_kind(Some(AtomKind::Number), &vec![]), AtomKind::Number);
    let atom = AthalarAtomBuilder::default()
        .name("PORT")
        .kind(AtomKind::String)
        .validators(vec![AtomValidator::Port])
        .build()
        .unwrap();
    assert_eq!(atom.kind, AtomKind::String);
    let builder = AthalarAtomBuilder::default().kind(AtomKind::Any).validators(vec![AtomValidator::Number]);
    assert_eq!(builder.get_kind(), Ok(AtomKind::Any));
}

#[test]
fn validator_implies_kind() {
    assert_eq!(AtomKind::from(AtomValidator::Port), AtomKind::Number);
    assert_eq!(AtomKind::from(AtomValidator::Url), AtomKind::String);
    assert_eq!(AtomKind::from(AtomValidator::Noop), AtomKind::Any);
}

#[test]
fn atom_without_name_is_refused() {
    let r = AthalarAtomBuilder::default().validators(vec![AtomValidator::Port]).build();
    assert_eq!(r, Err(BuilderError::MissingName));
}

#[test]
fn name_comes_from_path() {
    assert_eq!(get_name_from_path("src/generators/backend.ath.yaml"), "backend");
    assert_eq!(get_name_from_path("mail.ath.yaml"), "mail");
    assert_eq!(get_name_from_path("dir.d/plain"), "plain");
    assert_eq!(get_name_from_path(""), "");
}

#[test]
fn config_defaults_and_project_dir() {
    let ac = AthalarConfigBuilder::default().version(AthalarConfigVersion::One).build().unwrap();
    assert_eq!(ac.source, "src");
    assert_eq!(ac.partials, "partials");
    assert_eq!(ac.generators, "generators");
    let rooted = athalar_core::AthalarConfig::from_builder_and_source(
        AthalarConfigBuilder::default().version(AthalarConfigVersion::One),
        "/project",
    )
    .unwrap();
    assert_eq!(rooted.source, "/project/src");
    assert_eq!(rooted.project_source(), Some("/project".to_string()));
    let missing = athalar_core::AthalarConfig::from_builder_and_source(
        AthalarConfigBuilder::default(),
        "/project",
    );
    assert_eq!(missing, Err(BuilderError::MissingVersion));
}

#[test]
fn emitter_type_names() {
    assert_eq!(AthalarJsKind::from(AtomKind::Number).as_str(), "number");
    assert_eq!(AthalarJsKind::from(AtomKind::Any).as_str(), "any");
    assert_eq!(AthalarPythonKind::from(AtomKind::Number).as_str(), "int");
    assert_eq!(AthalarPythonKind::from(AtomKind::String).as_str(), "str");
}
