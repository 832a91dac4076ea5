use athalar_core::js::{AthalarJs, AthalarJsAtom, ClassValidator};
use athalar_core::{
    Athalar, AthalarAdapter, AthalarAtomBuilder, AthalarConfigAtom, AthalarConfigBuilder,
    AthalarConfigVersion, AthalarGeneratorBuilder, AthalarGeneratorContent,
    AthalarGeneratorDataBuilder, AthalarPartialBuilder, AthalarPartialData, AtomKind,
    AtomValidator, ClassValidatorAdapterProfile, OutputState, PydanticAdapterProfile,
};

fn js_project() -> AthalarJs {
    let decls = vec![
        AthalarConfigAtom { name: "HOST".to_string(), kind: None, validators: vec![], description: Some("mail host".to_string()) },
        AthalarConfigAtom {
            name: "PORT".to_string(),
            kind: None,
            validators: vec![AtomValidator::Port, AtomValidator::Noop],
            description: None,
        },
    ];
    let mail = AthalarPartialBuilder::default()
        .source("proj/partials/mail.ath.yaml")
        .data(AthalarPartialData::from_declarations(&decls))
        .build()
        .unwrap();
    let bindings = vec![
        athalar_core::AthalarBinding {
            output: "../out/config.ts".to_string(),
            profile: AthalarAdapter::ClassValidator(ClassValidatorAdapterProfile { class_name: None }),
        },
        athalar_core::AthalarBinding {
            output: "py/config.py".to_string(),
            profile: AthalarAdapter::Pydantic(PydanticAdapterProfile { class_name: None }),
        },
        athalar_core::AthalarBinding {
            output: "named.ts".to_string(),
            profile: AthalarAdapter::ClassValidator(ClassValidatorAdapterProfile {
                class_name: Some("MailConfig".to_string()),
            }),
        },
    ];
    let gen = AthalarGeneratorBuilder::default()
        .source("proj/generators/backend.ath.yaml")
        .data(
            AthalarGeneratorDataBuilder::default()
                .config(vec![AthalarGeneratorContent::IncludePartial("mail".to_string())])
                .bindings(bindings)
                .build()
                .unwrap(),
        )
        .build()
        .unwrap();
    let config = AthalarConfigBuilder::default().version(AthalarConfigVersion::One).build().unwrap();
    AthalarJs(Athalar::new(config, vec![mail], vec![gen]))
}

#[test]
fn decorator_names() {
    assert_eq!(ClassValidator::from(AtomValidator::Port).as_str(), "IsPort");
    assert_eq!(ClassValidator::from(AtomValidator::Url).as_str(), "IsUrl");
    assert_eq!(ClassValidator::from(AtomValidator::Noop).as_str(), "Allow");
}

#[test]
fn atom_without_validators_gets_allow() {
    let atom = AthalarAtomBuilder::default().name("HOST").build().unwrap();
    let js = AthalarJsAtom::from_atom(&atom);
    assert_eq!(js.validators, vec!["Allow".to_string()]);
    assert_eq!(js.kind, "string");
}

#[test]
fn js_information_lists_class_validator_bindings() {
    let js = js_project();
    let bindings = js.get_information().unwrap();
    assert_eq!(bindings.len(), 2);
    assert_eq!(bindings[0].output, "proj/out/config.ts");
    assert_eq!(bindings[0].details.class_name, "Config");
    assert_eq!(bindings[1].output, "proj/generators/named.ts");
    assert_eq!(bindings[1].details.class_name, "MailConfig");
    let atoms = &bindings[0].atoms;
    assert_eq!(atoms.len(), 2);
    assert_eq!(atoms[0].name, "HOST");
    assert_eq!(atoms[0].validators, vec!["Allow".to_string()]);
    assert_eq!(atoms[0].description, Some("mail host".to_string()));
    assert_eq!(atoms[1].kind, "number");
    assert_eq!(atoms[1].validators, vec!["IsPort".to_string(), "Allow".to_string()]);
    assert_eq!(js.0.generators[0].data.bindings.len(), 3);
    assert_eq!(AtomKind::from(AtomValidator::Port), AtomKind::Number);
}

#[test]
fn js_reports_keep_report_order() {
    let js = js_project();
    let states = vec![vec![OutputState::NotCreatable, OutputState::Creatable, OutputState::AlreadyExists]];
    let report = js.get_validation_reports(&states);
    assert_eq!(report.generators.len(), 2);
    assert_eq!(report.generators[0].level, "Severe");
    assert_eq!(report.generators[0].message, "File at location \"proj/out/config.ts\" can not be created");
    assert_eq!(report.generators[1].level, "Warning");
    assert_eq!(report.partials.len(), 0);
}
