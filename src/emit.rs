//! What code emitters need from the library: the type name of each atom kind in the
//! target language, and the files they produce.
use crate::atom::AtomKind;
use vstd::prelude::*;

verus! {

/// The type of an atom in generated TypeScript.
#[derive(Debug, PartialEq, Eq, Clone, Copy, Structural)]
pub enum AthalarJsKind {
    Number,
    String,
    Any,
}

pub open spec fn js_kind_of(k: AtomKind) -> AthalarJsKind {
    match k {
        AtomKind::Number => AthalarJsKind::Number,
        AtomKind::String => AthalarJsKind::String,
        AtomKind::Any => AthalarJsKind::Any,
    }
}

impl From<AtomKind> for AthalarJsKind {
    fn from(k: AtomKind) -> (r: AthalarJsKind)
        ensures
            r == js_kind_of(k),
    {
        match k {
            AtomKind::Number => AthalarJsKind::Number,
            AtomKind::String => AthalarJsKind::String,
            AtomKind::Any => AthalarJsKind::Any,
        }
    }
}

impl vstd::std_specs::convert::FromSpecImpl<AtomKind> for AthalarJsKind {
    open spec fn obeys_from_spec() -> bool {
        true
    }

    open spec fn from_spec(k: AtomKind) -> AthalarJsKind {
        js_kind_of(k)
    }
}

impl AthalarJsKind {
    /// The TypeScript type name.
    pub fn as_str(&self) -> (r: &'static str)
        ensures
            r@ == match *self {
                AthalarJsKind::Number => "number"@,
                AthalarJsKind::String => "string"@,
                AthalarJsKind::Any => "any"@,
            },
    {
        match self {
            AthalarJsKind::Number => "number",
            AthalarJsKind::String => "string",
            AthalarJsKind::Any => "any",
        }
    }
}

/// The type of an atom in generated Python.
#[derive(Debug, PartialEq, Eq, Clone, Copy, Structural)]
pub enum AthalarPythonKind {
    Number,
    String,
    Any,
}

pub open spec fn python_kind_of(k: AtomKind) -> AthalarPythonKind {
    match k {
        AtomKind::Number => AthalarPythonKind::Number,
        AtomKind::String => AthalarPythonKind::String,
        AtomKind::Any => AthalarPythonKind::Any,
    }
}

impl From<AtomKind> for AthalarPythonKind {
    fn from(k: AtomKind) -> (r: AthalarPythonKind)
        ensures
            r == python_kind_of(k),
    {
        match k {
            AtomKind::Number => AthalarPythonKind::Number,
            AtomKind::String => AthalarPythonKind::String,
            AtomKind::Any => AthalarPythonKind::Any,
        }
    }
}

impl vstd::std_specs::convert::FromSpecImpl<AtomKind> for AthalarPythonKind {
    open spec fn obeys_from_spec() -> bool {
        true
    }

    open spec fn from_spec(k: AtomKind) -> AthalarPythonKind {
        python_kind_of(k)
    }
}

impl AthalarPythonKind {
    /// The Python type name.
    pub fn as_str(&self) -> (r: &'static str)
        ensures
            r@ == match *self {
                AthalarPythonKind::Number => "int"@,
                AthalarPythonKind::String => "str"@,
                AthalarPythonKind::Any => "Any"@,
            },
    {
        match self {
            AthalarPythonKind::Number => "int",
            AthalarPythonKind::String => "str",
            AthalarPythonKind::Any => "Any",
        }
    }
}

/// A rendered file that should be placed in the file system.
#[derive(Debug, PartialEq, Eq, Clone)]
pub struct FinalFile {
    /// The path where this file should be placed
    pub path: String,
    /// The contents of the file
    pub contents: String,
}

} // verus!
