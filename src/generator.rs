//! Generators: documents that include partials and declare output bindings.
use crate::atom::BuilderError;
use crate::binding::AthalarBinding;
use crate::paths::{
    get_name_from_path, is_relative, is_relative_path, logical_path, parent_dir, parent_path,
    path_name,
};
use vstd::prelude::*;

verus! {

/// A directive of a generator document.
#[derive(Debug, PartialEq, Eq, Clone)]
pub enum AthalarGeneratorContent {
    /// Include every atom of the partial with this name.
    IncludePartial(String),
}

impl AthalarGeneratorContent {
    /// The name of the partial that this directive includes.
    pub fn partial_name(&self) -> (r: &String)
        ensures
            r@ == included_name(*self),
    {
        match self {
            AthalarGeneratorContent::IncludePartial(name) => name,
        }
    }
}

pub open spec fn included_name(c: AthalarGeneratorContent) -> Seq<char> {
    match c {
        AthalarGeneratorContent::IncludePartial(name) => name@,
    }
}

/// The contents of a generator document.
#[derive(Debug, PartialEq, Eq, Clone)]
pub struct AthalarGeneratorData {
    /// The outputs that need to be generated
    pub bindings: Vec<AthalarBinding>,
    /// The include directives, in the order of the document
    pub config: Vec<AthalarGeneratorContent>,
}

/// A generator found in the project.
#[derive(Debug, PartialEq, Eq, Clone)]
pub struct AthalarGenerator {
    /// The name of this generator, derived from its document's path
    pub name: String,
    /// The path of the generator's document
    pub source: String,
    /// The contents of the document
    pub data: AthalarGeneratorData,
}

/// The directory that holds a document: the parent of its path, or the empty path.
pub open spec fn directory_of(source: Seq<char>) -> Seq<char> {
    match parent_path(source) {
        Some(d) => d,
        None => Seq::empty(),
    }
}

/// Where binding `b` of generator `g` writes its output.
pub open spec fn resolved_output(g: AthalarGenerator, b: int) -> Seq<char> {
    logical_path(g.data.bindings@[b].output@, directory_of(g.source@))
}

/// Every binding of `g` has a relative output path.
pub open spec fn outputs_relative(g: AthalarGenerator) -> bool {
    forall|b: int|
        0 <= b < g.data.bindings@.len() ==> is_relative((#[trigger] g.data.bindings@[b]).output@)
}

impl AthalarGenerator {
    /// Whether every binding has a relative output path.
    pub fn has_relative_outputs(&self) -> (r: bool)
        ensures
            r == outputs_relative(*self),
    {
        let mut b: usize = 0;
        while b < self.data.bindings.len()
            invariant
                b <= self.data.bindings@.len(),
                forall|k: int|
                    0 <= k < b ==> is_relative((#[trigger] self.data.bindings@[k]).output@),
            decreases self.data.bindings@.len() - b,
        {
            if !is_relative_path(self.data.bindings[b].output.as_str()) {
                return false;
            }
            b = b + 1;
        }
        true
    }

    /// The path of the generator's document.
    pub fn source(&self) -> (r: &String)
        ensures
            r@ == self.source@,
    {
        &self.source
    }

    /// The directory that holds the generator's document.
    pub fn source_dir(&self) -> (r: String)
        ensures
            r@ == directory_of(self.source@),
    {
        match parent_dir(self.source.as_str()) {
            Some(d) => d,
            None => String::new(),
        }
    }

    /// Where the binding at index `b` writes its output: its output path resolved
    /// against the directory of the generator's document.
    pub fn binding_output(&self, b: usize) -> (r: String)
        requires
            b < self.data.bindings@.len(),
            outputs_relative(*self),
        ensures
            r@ == resolved_output(*self, b as int),
    {
        let dir = self.source_dir();
        self.data.bindings[b].output(dir.as_str())
    }

    /// Where each binding writes its output, in the order of the bindings.
    pub fn binding_outputs(&self) -> (r: Vec<String>)
        requires
            outputs_relative(*self),
        ensures
            r@.len() == self.data.bindings@.len(),
            forall|b: int|
                0 <= b < r@.len() ==> #[trigger] r@[b]@ == resolved_output(*self, b),
    {
        let dir = self.source_dir();
        let mut r: Vec<String> = Vec::new();
        let mut b: usize = 0;
        while b < self.data.bindings.len()
            invariant
                outputs_relative(*self),
                b <= self.data.bindings@.len(),
                dir@ == directory_of(self.source@),
                r@.len() == b,
                forall|j: int| 0 <= j < b ==> #[trigger] r@[j]@ == resolved_output(*self, j),
            decreases self.data.bindings@.len() - b,
        {
            r.push(self.data.bindings[b].output(dir.as_str()));
            b = b + 1;
        }
        r
    }
}

/// Collects the fields of a generator.
#[derive(Debug, Clone)]
pub struct AthalarGeneratorBuilder {
    pub name: Option<String>,
    pub source: Option<String>,
    pub data: Option<AthalarGeneratorData>,
}

impl Default for AthalarGeneratorBuilder {
    fn default() -> (r: AthalarGeneratorBuilder)
        ensures
            r.name.is_none(),
            r.source.is_none(),
            r.data.is_none(),
    {
        AthalarGeneratorBuilder { name: None, source: None, data: None }
    }
}

impl AthalarGeneratorBuilder {
    pub fn name(self, name: &str) -> (r: AthalarGeneratorBuilder)
        ensures
            r.name.is_some() && r.name.unwrap()@ == name@,
            r.source == self.source,
            r.data == self.data,
    {
        AthalarGeneratorBuilder { name: Some(name.to_string()), ..self }
    }

    pub fn source(self, source: &str) -> (r: AthalarGeneratorBuilder)
        ensures
            r.name == self.name,
            r.source.is_some() && r.source.unwrap()@ == source@,
            r.data == self.data,
    {
        AthalarGeneratorBuilder { source: Some(source.to_string()), ..self }
    }

    pub fn data(self, data: AthalarGeneratorData) -> (r: AthalarGeneratorBuilder)
        ensures
            r.name == self.name,
            r.source == self.source,
            r.data == Some(data),
    {
        AthalarGeneratorBuilder { data: Some(data), ..self }
    }

    /// The name derived from the source path.
    pub fn get_name(&self) -> (r: Result<String, BuilderError>)
        ensures
            self.source.is_none() ==> r == Err::<String, BuilderError>(BuilderError::MissingSource),
            self.source.is_some() ==> r.is_ok(),
            r.is_ok() ==> r.unwrap()@ == path_name(self.source.unwrap()@),
    {
        match &self.source {
            Some(s) => Ok(get_name_from_path(s.as_str())),
            None => Err(BuilderError::MissingSource),
        }
    }

    /// Builds the generator; the source and the data must be set, and without a name
    /// set the name is derived from the source.
    pub fn build(self) -> (r: Result<AthalarGenerator, BuilderError>)
        ensures
            self.source.is_none() ==> r == Err::<AthalarGenerator, BuilderError>(
                BuilderError::MissingSource,
            ),
            self.source.is_some() && self.data.is_none() ==> r == Err::<
                AthalarGenerator,
                BuilderError,
            >(BuilderError::MissingData),
            self.source.is_some() && self.data.is_some() ==> r.is_ok(),
            r.is_ok() ==> {
                let g = r.unwrap();
                &&& g.source@ == self.source.unwrap()@
                &&& g.data == self.data.unwrap()
                &&& g.name@ == match self.name {
                    Some(n) => n@,
                    None => path_name(self.source.unwrap()@),
                }
            },
    {
        let name = match self.get_name() {
            Err(e) => {
                return Err(e);
            },
            Ok(derived) => match self.name {
                Some(n) => n,
                None => derived,
            },
        };
        match (self.source, self.data) {
            (Some(source), Some(data)) => Ok(AthalarGenerator { name, source, data }),
            (None, _) => Err(BuilderError::MissingSource),
            (Some(_), None) => Err(BuilderError::MissingData),
        }
    }
}

/// Collects the contents of a generator document.
#[derive(Debug, Clone)]
pub struct AthalarGeneratorDataBuilder {
    pub bindings: Option<Vec<AthalarBinding>>,
    pub config: Option<Vec<AthalarGeneratorContent>>,
}

impl Default for AthalarGeneratorDataBuilder {
    fn default() -> (r: AthalarGeneratorDataBuilder)
        ensures
            r.bindings.is_none(),
            r.config.is_none(),
    {
        AthalarGeneratorDataBuilder { bindings: None, config: None }
    }
}

impl AthalarGeneratorDataBuilder {
    pub fn bindings(self, bindings: Vec<AthalarBinding>) -> (r: AthalarGeneratorDataBuilder)
        ensures
            r.bindings == Some(bindings),
            r.config == self.config,
    {
        AthalarGeneratorDataBuilder { bindings: Some(bindings), ..self }
    }

    pub fn config(self, config: Vec<AthalarGeneratorContent>) -> (r: AthalarGeneratorDataBuilder)
        ensures
            r.bindings == self.bindings,
            r.config == Some(config),
    {
        AthalarGeneratorDataBuilder { config: Some(config), ..self }
    }

    /// Builds the contents; bindings and directives default to none.
    pub fn build(self) -> (r: Result<AthalarGeneratorData, BuilderError>)
        ensures
            r.is_ok(),
            r.unwrap().bindings@ == match self.bindings {
                Some(b) => b@,
                None => Seq::empty(),
            },
            r.unwrap().config@ == match self.config {
                Some(c) => c@,
                None => Seq::empty(),
            },
    {
        let bindings = match self.bindings {
            Some(b) => b,
            None => Vec::new(),
        };
        let config = match self.config {
            Some(c) => c,
            None => Vec::new(),
        };
        Ok(AthalarGeneratorData { bindings, config })
    }
}

} // verus!
