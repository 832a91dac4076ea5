//! Bindings: the outputs that a generator declares, each with an adapter profile.
use crate::atom::BuilderError;
use crate::paths::{is_relative, is_relative_path, logical_path, to_logical_path};
use vstd::prelude::*;

verus! {

/// Settings that are specific to the class-validator adapter.
#[derive(Debug, PartialEq, Eq, Clone)]
pub struct ClassValidatorAdapterProfile {
    /// The name of the generated class
    pub class_name: Option<String>,
}

/// Settings that are specific to the pydantic adapter.
#[derive(Debug, PartialEq, Eq, Clone)]
pub struct PydanticAdapterProfile {
    /// The name of the generated class
    pub class_name: Option<String>,
}

/// The adapter that a binding generates code for, with its settings.
#[derive(Debug, PartialEq, Eq, Clone)]
pub enum AthalarAdapter {
    ClassValidator(ClassValidatorAdapterProfile),
    Pydantic(PydanticAdapterProfile),
}

/// One output of a generator.
#[derive(Debug, PartialEq, Eq, Clone)]
pub struct AthalarBinding {
    /// Where the output goes, relative to the directory of the generator's document
    pub output: String,
    /// The profile to use for this adapter
    pub profile: AthalarAdapter,
}

impl AthalarBinding {
    /// Takes the directory of the generator's document and returns the logical path
    /// where the output of this binding must be placed. Equal outputs and directories
    /// give equal paths.
    pub fn output(&self, source: &str) -> (r: String)
        requires
            is_relative(self.output@),
        ensures
            r@ == logical_path(self.output@, source@),
    {
        to_logical_path(self.output.as_str(), source)
    }
}

/// Collects the settings of a class-validator profile.
#[derive(Debug, Clone)]
pub struct ClassValidatorAdapterProfileBuilder {
    pub class_name: Option<String>,
}

impl Default for ClassValidatorAdapterProfileBuilder {
    fn default() -> (r: ClassValidatorAdapterProfileBuilder)
        ensures
            r.class_name.is_none(),
    {
        ClassValidatorAdapterProfileBuilder { class_name: None }
    }
}

impl ClassValidatorAdapterProfileBuilder {
    pub fn class_name(self, class_name: &str) -> (r: ClassValidatorAdapterProfileBuilder)
        ensures
            r.class_name.is_some() && r.class_name.unwrap()@ == class_name@,
    {
        ClassValidatorAdapterProfileBuilder { class_name: Some(class_name.to_string()) }
    }

    /// Builds the profile; every setting is optional.
    pub fn build(self) -> (r: Result<ClassValidatorAdapterProfile, BuilderError>)
        ensures
            r == Ok::<ClassValidatorAdapterProfile, BuilderError>(
                ClassValidatorAdapterProfile { class_name: self.class_name },
            ),
    {
        Ok(ClassValidatorAdapterProfile { class_name: self.class_name })
    }
}

/// Collects the fields of a binding.
#[derive(Debug, Clone)]
pub struct AthalarBindingBuilder {
    pub output: Option<String>,
    pub profile: Option<AthalarAdapter>,
}

impl Default for AthalarBindingBuilder {
    fn default() -> (r: AthalarBindingBuilder)
        ensures
            r.output.is_none(),
            r.profile.is_none(),
    {
        AthalarBindingBuilder { output: None, profile: None }
    }
}

impl AthalarBindingBuilder {
    pub fn output(self, output: &str) -> (r: AthalarBindingBuilder)
        ensures
            r.output.is_some() && r.output.unwrap()@ == output@,
            r.profile == self.profile,
    {
        AthalarBindingBuilder { output: Some(output.to_string()), ..self }
    }

    pub fn profile(self, profile: AthalarAdapter) -> (r: AthalarBindingBuilder)
        ensures
            r.output == self.output,
            r.profile == Some(profile),
    {
        AthalarBindingBuilder { profile: Some(profile), ..self }
    }

    /// Builds the binding; the output and the profile must both be set, and the output
    /// must be a relative path.
    pub fn build(self) -> (r: Result<AthalarBinding, BuilderError>)
        ensures
            self.output.is_none() ==> r == Err::<AthalarBinding, BuilderError>(
                BuilderError::MissingOutput,
            ),
            self.output.is_some() && !is_relative(self.output.unwrap()@) ==> r == Err::<
                AthalarBinding,
                BuilderError,
            >(BuilderError::AbsoluteOutput),
            self.output.is_some() && is_relative(self.output.unwrap()@) && self.profile.is_none()
                ==> r == Err::<AthalarBinding, BuilderError>(BuilderError::MissingProfile),
            self.output.is_some() && is_relative(self.output.unwrap()@) && self.profile.is_some()
                ==> r == Ok::<AthalarBinding, BuilderError>(
                AthalarBinding { output: self.output.unwrap(), profile: self.profile.unwrap() },
            ),
    {
        match (self.output, self.profile) {
            (None, _) => Err(BuilderError::MissingOutput),
            (Some(output), profile) => {
                if !is_relative_path(output.as_str()) {
                    return Err(BuilderError::AbsoluteOutput);
                }
                match profile {
                    None => Err(BuilderError::MissingProfile),
                    Some(profile) => Ok(AthalarBinding { output, profile }),
                }
            },
        }
    }
}

} // verus!
