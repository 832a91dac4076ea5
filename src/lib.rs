//! A configuration-unification engine: typed configuration variables (atoms) are
//! collected in partials, generators include partials and declare output bindings, and
//! the engine validates the whole project and assembles each generator's variables.
pub mod atom;
pub mod reporting;
pub mod paths;
pub mod binding;
pub mod config;
pub mod partial;
pub mod generator;
pub mod project;
pub mod emit;
pub mod js;

pub use crate::atom::{infer_kind, AthalarAtom, AthalarAtomBuilder, AtomKind, AtomValidator, BuilderError};
pub use crate::binding::{
    AthalarAdapter, AthalarBinding, AthalarBindingBuilder, ClassValidatorAdapterProfile,
    ClassValidatorAdapterProfileBuilder, PydanticAdapterProfile,
};
pub use crate::config::{AthalarConfig, AthalarConfigBuilder, AthalarConfigKind, AthalarConfigVersion};
pub use crate::emit::{AthalarJsKind, AthalarPythonKind, FinalFile};
pub use crate::generator::{
    AthalarGenerator, AthalarGeneratorBuilder, AthalarGeneratorContent, AthalarGeneratorData,
    AthalarGeneratorDataBuilder,
};
pub use crate::partial::{
    AthalarConfigAtom, AthalarPartial, AthalarPartialBuilder, AthalarPartialData,
    AthalarPartialDataBuilder,
};
pub use crate::paths::get_name_from_path;
pub use crate::project::{AssemblyError, Athalar, AthalarInformation, OutputState};
pub use crate::reporting::{ReportLevel, ValidationReport};
