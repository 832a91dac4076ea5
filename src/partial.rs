//! Partials: named, reusable lists of atoms, one per partial document.
use crate::atom::{
    infer_kind, is_atom_kind, optional_text, copy_text, copy_validators, AthalarAtom, AtomKind,
    AtomValidator, AtomView, BuilderError,
};
use crate::config::AthalarConfigKind;
use crate::paths::{get_name_from_path, path_name};
use vstd::prelude::*;

verus! {

/// An atom as a partial document declares it: the kind may be left out.
#[derive(Debug, PartialEq, Eq, Clone)]
pub struct AthalarConfigAtom {
    /// The name of this configuration variable
    pub name: String,
    /// The type that the generated configuration variable should have, if given
    pub kind: Option<AtomKind>,
    /// The validators that should be applied to this configuration variable
    pub validators: Vec<AtomValidator>,
    /// An optional description that will get included in the generated code
    pub description: Option<String>,
}

/// The atom that a declaration stands for: its kind is the declared one, or the one
/// its validators vote for.
pub open spec fn declares(d: AthalarConfigAtom, a: AtomView) -> bool {
    &&& a.name == d.name@
    &&& a.validators == d.validators@
    &&& a.description == optional_text(d.description)
    &&& is_atom_kind(d.kind, d.validators@, a.kind)
}

pub open spec fn atoms_view(atoms: Seq<AthalarAtom>) -> Seq<AtomView> {
    atoms.map_values(|a: AthalarAtom| a@)
}

impl AthalarConfigAtom {
    /// The atom that this declaration stands for.
    pub fn to_atom(&self) -> (r: AthalarAtom)
        ensures
            declares(*self, r@),
    {
        AthalarAtom {
            name: self.name.clone(),
            kind: infer_kind(self.kind, &self.validators),
            validators: copy_validators(&self.validators),
            description: copy_text(&self.description),
        }
    }
}

/// The contents of a partial document.
#[derive(Debug, PartialEq, Eq, Clone)]
pub struct AthalarPartialData {
    /// The type of partial
    pub kind: AthalarConfigKind,
    /// The atoms, in the order of the document
    pub config: Vec<AthalarAtom>,
}

impl AthalarPartialData {
    /// The contents of a partial document whose atoms are declared by `decls`, in order.
    pub fn from_declarations(decls: &Vec<AthalarConfigAtom>) -> (r: AthalarPartialData)
        ensures
            r.kind == AthalarConfigKind::Variable,
            r.config@.len() == decls@.len(),
            forall|i: int| 0 <= i < decls@.len() ==> declares(decls@[i], #[trigger] r.config@[i]@),
    {
        let mut config: Vec<AthalarAtom> = Vec::new();
        let mut i: usize = 0;
        while i < decls.len()
            invariant
                i <= decls@.len(),
                config@.len() == i,
                forall|j: int| 0 <= j < i ==> declares(decls@[j], #[trigger] config@[j]@),
            decreases decls@.len() - i,
        {
            config.push(decls[i].to_atom());
            i = i + 1;
        }
        AthalarPartialData { kind: AthalarConfigKind::Variable, config }
    }
}

/// A partial found in the project.
#[derive(Debug, PartialEq, Eq, Clone)]
pub struct AthalarPartial {
    /// The name of this partial, derived from its document's path
    pub name: String,
    /// The path of the partial's document
    pub source: String,
    /// The contents of the document
    pub data: AthalarPartialData,
}

impl AthalarPartial {
    /// The path of the partial's document.
    pub fn source(&self) -> (r: &String)
        ensures
            r@ == self.source@,
    {
        &self.source
    }
}

/// Collects the fields of a partial.
#[derive(Debug, Clone)]
pub struct AthalarPartialBuilder {
    pub name: Option<String>,
    pub source: Option<String>,
    pub data: Option<AthalarPartialData>,
}

impl Default for AthalarPartialBuilder {
    fn default() -> (r: AthalarPartialBuilder)
        ensures
            r.name.is_none(),
            r.source.is_none(),
            r.data.is_none(),
    {
        AthalarPartialBuilder { name: None, source: None, data: None }
    }
}

impl AthalarPartialBuilder {
    pub fn name(self, name: &str) -> (r: AthalarPartialBuilder)
        ensures
            r.name.is_some() && r.name.unwrap()@ == name@,
            r.source == self.source,
            r.data == self.data,
    {
        AthalarPartialBuilder { name: Some(name.to_string()), ..self }
    }

    pub fn source(self, source: &str) -> (r: AthalarPartialBuilder)
        ensures
            r.name == self.name,
            r.source.is_some() && r.source.unwrap()@ == source@,
            r.data == self.data,
    {
        AthalarPartialBuilder { source: Some(source.to_string()), ..self }
    }

    pub fn data(self, data: AthalarPartialData) -> (r: AthalarPartialBuilder)
        ensures
            r.name == self.name,
            r.source == self.source,
            r.data == Some(data),
    {
        AthalarPartialBuilder { data: Some(data), ..self }
    }

    /// The name derived from the source path.
    pub fn get_name(&self) -> (r: Result<String, BuilderError>)
        ensures
            self.source.is_none() ==> r == Err::<String, BuilderError>(BuilderError::MissingSource),
            self.source.is_some() ==> r.is_ok(),
            r.is_ok() ==> r.unwrap()@ == path_name(self.source.unwrap()@),
    {
        match &self.source {
            Some(s) => Ok(get_name_from_path(s.as_str())),
            None => Err(BuilderError::MissingSource),
        }
    }

    /// Builds the partial; the source and the data must be set, and without a name set
    /// the name is derived from the source.
    pub fn build(self) -> (r: Result<AthalarPartial, BuilderError>)
        ensures
            self.source.is_none() ==> r == Err::<AthalarPartial, BuilderError>(
                BuilderError::MissingSource,
            ),
            self.source.is_some() && self.data.is_none() ==> r == Err::<
                AthalarPartial,
                BuilderError,
            >(BuilderError::MissingData),
            self.source.is_some() && self.data.is_some() ==> r.is_ok(),
            r.is_ok() ==> {
                let p = r.unwrap();
                &&& p.source@ == self.source.unwrap()@
                &&& p.data == self.data.unwrap()
                &&& p.name@ == match self.name {
                    Some(n) => n@,
                    None => path_name(self.source.unwrap()@),
                }
            },
    {
        let name = match self.get_name() {
            Err(e) => {
                return Err(e);
            },
            Ok(derived) => match self.name {
                Some(n) => n,
                None => derived,
            },
        };
        match (self.source, self.data) {
            (Some(source), Some(data)) => Ok(AthalarPartial { name, source, data }),
            (None, _) => Err(BuilderError::MissingSource),
            (Some(_), None) => Err(BuilderError::MissingData),
        }
    }
}

/// Collects the contents of a partial document.
#[derive(Debug, Clone)]
pub struct AthalarPartialDataBuilder {
    pub kind: Option<AthalarConfigKind>,
    pub config: Option<Vec<AthalarAtom>>,
}

impl Default for AthalarPartialDataBuilder {
    fn default() -> (r: AthalarPartialDataBuilder)
        ensures
            r.kind.is_none(),
            r.config.is_none(),
    {
        AthalarPartialDataBuilder { kind: None, config: None }
    }
}

impl AthalarPartialDataBuilder {
    pub fn kind(self, kind: AthalarConfigKind) -> (r: AthalarPartialDataBuilder)
        ensures
            r.kind == Some(kind),
            r.config == self.config,
    {
        AthalarPartialDataBuilder { kind: Some(kind), ..self }
    }

    pub fn config(self, config: Vec<AthalarAtom>) -> (r: AthalarPartialDataBuilder)
        ensures
            r.kind == self.kind,
            r.config == Some(config),
    {
        AthalarPartialDataBuilder { config: Some(config), ..self }
    }

    /// Builds the contents; the kind defaults to `Variable` and the atoms to none.
    pub fn build(self) -> (r: Result<AthalarPartialData, BuilderError>)
        ensures
            r.is_ok(),
            r.unwrap().kind == match self.kind {
                Some(k) => k,
                None => AthalarConfigKind::Variable,
            },
            r.unwrap().config@ == match self.config {
                Some(c) => c@,
                None => Seq::empty(),
            },
    {
        let kind = match self.kind {
            Some(k) => k,
            None => AthalarConfigKind::Variable,
        };
        let config = match self.config {
            Some(c) => c,
            None => Vec::new(),
        };
        Ok(AthalarPartialData { kind, config })
    }
}

} // verus!
