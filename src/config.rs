//! The configuration of a project: where its partials and generators are found.
use crate::atom::BuilderError;
use crate::paths::{join_path, joined_path, parent_dir, parent_path};
use vstd::prelude::*;

verus! {

/// The kinds of partial documents.
#[derive(Debug, PartialEq, Eq, Clone, Copy, Structural)]
pub enum AthalarConfigKind {
    Variable,
}

/// The versions of the configuration format; only the first exists.
#[derive(Debug, PartialEq, Eq, Clone, Copy, Structural)]
pub enum AthalarConfigVersion {
    One,
}

/// The configuration of a project.
#[derive(Debug, PartialEq, Eq, Clone)]
pub struct AthalarConfig {
    pub version: AthalarConfigVersion,
    /// The directory that holds the partials and generators directories
    pub source: String,
    /// The partials directory, relative to `source`
    pub partials: String,
    /// The generators directory, relative to `source`
    pub generators: String,
}

impl AthalarConfig {
    /// The directory where the partials are located.
    pub fn partials(&self) -> (r: String)
        ensures
            r@ == joined_path(self.source@, self.partials@),
    {
        join_path(self.source.as_str(), self.partials.as_str())
    }

    /// The directory where the generators are located.
    pub fn generators(&self) -> (r: String)
        ensures
            r@ == joined_path(self.source@, self.generators@),
    {
        join_path(self.source.as_str(), self.generators.as_str())
    }

    /// The directory of the project: the parent of `source`, if it has one.
    pub fn project_source(&self) -> (r: Option<String>)
        ensures
            r.is_some() == parent_path(self.source@).is_some(),
            r.is_some() ==> r.unwrap()@ == parent_path(self.source@).unwrap(),
    {
        parent_dir(self.source.as_str())
    }

    /// The configuration read from a project's configuration document, with `source`
    /// taken relative to the project's directory `project_src`.
    pub fn from_builder_and_source(builder: AthalarConfigBuilder, project_src: &str) -> (r: Result<
        AthalarConfig,
        BuilderError,
    >)
        ensures
            builder.version.is_none() <==> r == Err::<AthalarConfig, BuilderError>(
                BuilderError::MissingVersion,
            ),
            builder.version.is_some() ==> r.is_ok(),
            r.is_ok() ==> {
                let c = r.unwrap();
                &&& c.version == builder.version.unwrap()
                &&& c.source@ == joined_path(project_src@, source_or_default(builder.source))
                &&& c.partials@ == partials_or_default(builder.partials)
                &&& c.generators@ == generators_or_default(builder.generators)
            },
    {
        match builder.build() {
            Err(e) => Err(e),
            Ok(c) => {
                let source = join_path(project_src, c.source.as_str());
                Ok(AthalarConfig { source, ..c })
            },
        }
    }

    /// A copy of this configuration that holds the same values.
    pub fn duplicate(&self) -> (r: AthalarConfig)
        ensures
            r.version == self.version,
            r.source@ == self.source@,
            r.partials@ == self.partials@,
            r.generators@ == self.generators@,
    {
        AthalarConfig {
            version: self.version,
            source: self.source.clone(),
            partials: self.partials.clone(),
            generators: self.generators.clone(),
        }
    }
}

pub open spec fn source_or_default(s: Option<String>) -> Seq<char> {
    match s {
        Some(v) => v@,
        None => "src"@,
    }
}

pub open spec fn partials_or_default(s: Option<String>) -> Seq<char> {
    match s {
        Some(v) => v@,
        None => "partials"@,
    }
}

pub open spec fn generators_or_default(s: Option<String>) -> Seq<char> {
    match s {
        Some(v) => v@,
        None => "generators"@,
    }
}

/// Collects the settings of a project configuration; all but the version have defaults.
#[derive(Debug, Clone)]
pub struct AthalarConfigBuilder {
    pub version: Option<AthalarConfigVersion>,
    pub source: Option<String>,
    pub partials: Option<String>,
    pub generators: Option<String>,
}

impl Default for AthalarConfigBuilder {
    fn default() -> (r: AthalarConfigBuilder)
        ensures
            r.version.is_none(),
            r.source.is_none(),
            r.partials.is_none(),
            r.generators.is_none(),
    {
        AthalarConfigBuilder { version: None, source: None, partials: None, generators: None }
    }
}

impl AthalarConfigBuilder {
    pub fn version(self, version: AthalarConfigVersion) -> (r: AthalarConfigBuilder)
        ensures
            r.version == Some(version),
            r.source == self.source,
            r.partials == self.partials,
            r.generators == self.generators,
    {
        AthalarConfigBuilder { version: Some(version), ..self }
    }

    pub fn source(self, source: &str) -> (r: AthalarConfigBuilder)
        ensures
            r.version == self.version,
            r.source.is_some() && r.source.unwrap()@ == source@,
            r.partials == self.partials,
            r.generators == self.generators,
    {
        AthalarConfigBuilder { source: Some(source.to_string()), ..self }
    }

    pub fn partials(self, partials: &str) -> (r: AthalarConfigBuilder)
        ensures
            r.version == self.version,
            r.source == self.source,
            r.partials.is_some() && r.partials.unwrap()@ == partials@,
            r.generators == self.generators,
    {
        AthalarConfigBuilder { partials: Some(partials.to_string()), ..self }
    }

    pub fn generators(self, generators: &str) -> (r: AthalarConfigBuilder)
        ensures
            r.version == self.version,
            r.source == self.source,
            r.partials == self.partials,
            r.generators.is_some() && r.generators.unwrap()@ == generators@,
    {
        AthalarConfigBuilder { generators: Some(generators.to_string()), ..self }
    }

    /// Builds the configuration: the version must be set; the directories default to
    /// `src`, `partials` and `generators`.
    pub fn build(self) -> (r: Result<AthalarConfig, BuilderError>)
        ensures
            self.version.is_none() <==> r == Err::<AthalarConfig, BuilderError>(
                BuilderError::MissingVersion,
            ),
            self.version.is_some() ==> r.is_ok(),
            r.is_ok() ==> {
                let c = r.unwrap();
                &&& c.version == self.version.unwrap()
                &&& c.source@ == source_or_default(self.source)
                &&& c.partials@ == partials_or_default(self.partials)
                &&& c.generators@ == generators_or_default(self.generators)
            },
    {
        let version = match self.version {
            None => {
                return Err(BuilderError::MissingVersion);
            },
            Some(v) => v,
        };
        let source = match self.source {
            Some(s) => s,
            None => "src".to_string(),
        };
        let partials = match self.partials {
            Some(s) => s,
            None => "partials".to_string(),
        };
        let generators = match self.generators {
            Some(s) => s,
            None => "generators".to_string(),
        };
        Ok(AthalarConfig { version, source, partials, generators })
    }
}

} // verus!
