//! Atoms: single typed configuration variables, and the rule that derives an
//! atom's kind from its validators.
use vstd::prelude::*;

verus! {

// It is the job of the client libraries to actually perform the validation and to apply
// the matching modification to the generated code (for example decorators for
// class-validator bindings).
/// The different validators that can be applied to a configuration variable.
#[derive(Debug, PartialEq, Eq, Clone, Copy, Structural)]
pub enum AtomValidator {
    /// Checks if the value is a number.
    Number,
    /// Checks if the value is a string.
    String,
    /// Checks if the value is an URL.
    Url,
    /// Checks if the value is a valid port number.
    Port,
    /// Lets every value pass through unmodified.
    Noop,
}

/// The type that a configuration variable has. It is either given by the user or
/// inferred from the validators applied to the variable.
#[derive(Debug, PartialEq, Eq, Clone, Copy, Hash, Structural)]
pub enum AtomKind {
    /// Represents a number
    Number,
    /// Represents a string
    String,
    /// Can represent any datatype, most probably because the kind could not be derived
    Any,
}

/// The kind that a single validator implies.
pub open spec fn implied_kind(v: AtomValidator) -> AtomKind {
    match v {
        AtomValidator::Number => AtomKind::Number,
        AtomValidator::Port => AtomKind::Number,
        AtomValidator::String => AtomKind::String,
        AtomValidator::Url => AtomKind::String,
        AtomValidator::Noop => AtomKind::Any,
    }
}

/// How many validators of `vs` imply the kind `k`.
pub open spec fn kind_count(vs: Seq<AtomValidator>, k: AtomKind) -> nat
    decreases vs.len(),
{
    if vs.len() == 0 {
        0
    } else {
        kind_count(vs.drop_last(), k) + if implied_kind(vs.last()) == k {
            1nat
        } else {
            0nat
        }
    }
}

/// The position of the first validator of `vs` that implies `k`, or `vs.len()` when
/// there is none.
pub open spec fn first_position(vs: Seq<AtomValidator>, k: AtomKind) -> nat
    decreases vs.len(),
{
    if vs.len() == 0 {
        0
    } else if kind_count(vs.drop_last(), k) > 0 {
        first_position(vs.drop_last(), k)
    } else if implied_kind(vs.last()) == k {
        (vs.len() - 1) as nat
    } else {
        vs.len()
    }
}

/// `a` wins the vote over `b`: more validators imply it, or as many and it occurs first.
pub open spec fn outvotes(vs: Seq<AtomValidator>, a: AtomKind, b: AtomKind) -> bool {
    kind_count(vs, a) > kind_count(vs, b) || (kind_count(vs, a) == kind_count(vs, b)
        && first_position(vs, a) < first_position(vs, b))
}

/// The kind that the validators `vs` vote for: with no validators it is `String`;
/// otherwise it is implied by at least one validator and outvotes every other kind.
pub open spec fn is_voted_kind(vs: Seq<AtomValidator>, k: AtomKind) -> bool {
    if vs.len() == 0 {
        k == AtomKind::String
    } else {
        kind_count(vs, k) > 0 && forall|o: AtomKind| o != k ==> #[trigger] outvotes(vs, k, o)
    }
}

/// `m` is implied by strictly more validators of `vs` than any other kind.
pub open spec fn has_clear_majority(vs: Seq<AtomValidator>, m: AtomKind) -> bool {
    forall|o: AtomKind| o != m ==> #[trigger] kind_count(vs, o) < kind_count(vs, m)
}

/// The kind that an atom ends up with: the explicit one if given, else the voted one.
pub open spec fn is_atom_kind(explicit: Option<AtomKind>, vs: Seq<AtomValidator>, k: AtomKind) -> bool {
    match explicit {
        Some(e) => k == e,
        None => is_voted_kind(vs, k),
    }
}

impl From<AtomValidator> for AtomKind {
    fn from(av: AtomValidator) -> (r: AtomKind)
        ensures
            r == implied_kind(av),
    {
        match av {
            AtomValidator::Noop => AtomKind::Any,
            AtomValidator::Number => AtomKind::Number,
            AtomValidator::Port => AtomKind::Number,
            AtomValidator::String => AtomKind::String,
            AtomValidator::Url => AtomKind::String,
        }
    }
}

impl vstd::std_specs::convert::FromSpecImpl<AtomValidator> for AtomKind {
    open spec fn obeys_from_spec() -> bool {
        true
    }

    open spec fn from_spec(v: AtomValidator) -> AtomKind {
        implied_kind(v)
    }
}

impl Default for AtomKind {
    fn default() -> (r: AtomKind)
        ensures
            r == AtomKind::String,
    {
        AtomKind::String
    }
}

proof fn lemma_first_position_bounds(vs: Seq<AtomValidator>, k: AtomKind)
    ensures
        first_position(vs, k) <= vs.len(),
        kind_count(vs, k) > 0 <==> first_position(vs, k) < vs.len(),
        kind_count(vs, k) > 0 ==> implied_kind(vs[first_position(vs, k) as int]) == k,
    decreases vs.len(),
{
    if vs.len() > 0 {
        lemma_first_position_bounds(vs.drop_last(), k);
    }
}

/// Kinds implied by at least one validator start at distinct positions.
proof fn lemma_first_positions_distinct(vs: Seq<AtomValidator>, a: AtomKind, b: AtomKind)
    requires
        a != b,
        kind_count(vs, a) > 0,
    ensures
        first_position(vs, a) != first_position(vs, b),
{
    lemma_first_position_bounds(vs, a);
    lemma_first_position_bounds(vs, b);
}

/// Counts how many validators of `vs` imply each kind, and where each kind first occurs.
fn tally(vs: &Vec<AtomValidator>) -> (r: (usize, usize, usize, usize, usize, usize))
    ensures
        r.0 == kind_count(vs@, AtomKind::Number),
        r.1 == kind_count(vs@, AtomKind::String),
        r.2 == kind_count(vs@, AtomKind::Any),
        r.3 == first_position(vs@, AtomKind::Number),
        r.4 == first_position(vs@, AtomKind::String),
        r.5 == first_position(vs@, AtomKind::Any),
{
    let n = vs.len();
    let mut count_number: usize = 0;
    let mut count_string: usize = 0;
    let mut count_any: usize = 0;
    let mut first_number: usize = 0;
    let mut first_string: usize = 0;
    let mut first_any: usize = 0;
    let mut i: usize = 0;
    while i < n
        invariant
            n == vs@.len(),
            i <= n,
            count_number == kind_count(vs@.subrange(0, i as int), AtomKind::Number),
            count_string == kind_count(vs@.subrange(0, i as int), AtomKind::String),
            count_any == kind_count(vs@.subrange(0, i as int), AtomKind::Any),
            first_number == first_position(vs@.subrange(0, i as int), AtomKind::Number),
            first_string == first_position(vs@.subrange(0, i as int), AtomKind::String),
            first_any == first_position(vs@.subrange(0, i as int), AtomKind::Any),
            count_number <= i,
            count_string <= i,
            count_any <= i,
        decreases n - i,
    {
        let prefix = Ghost(vs@.subrange(0, i as int + 1));
        assert(prefix@.drop_last() =~= vs@.subrange(0, i as int));
        assert(prefix@.last() == vs@[i as int]);
        let k = AtomKind::from(vs[i]);
        match k {
            AtomKind::Number => {
                if count_number == 0 {
                    first_number = i;
                }
                count_number = count_number + 1;
            },
            AtomKind::String => {
                if count_string == 0 {
                    first_string = i;
                }
                count_string = count_string + 1;
            },
            AtomKind::Any => {
                if count_any == 0 {
                    first_any = i;
                }
                count_any = count_any + 1;
            },
        }
        if count_number == 0 {
            first_number = i + 1;
        }
        if count_string == 0 {
            first_string = i + 1;
        }
        if count_any == 0 {
            first_any = i + 1;
        }
        i = i + 1;
    }
    assert(vs@.subrange(0, n as int) =~= vs@);
    (count_number, count_string, count_any, first_number, first_string, first_any)
}

/// Derives the kind of an atom. An explicit kind is used as it is. Otherwise each
/// validator votes for the kind it implies, the kind with the most votes wins, a tie goes
/// to the kind that occurs first, and no validators at all give `String`.
pub fn infer_kind(explicit: Option<AtomKind>, validators: &Vec<AtomValidator>) -> (r: AtomKind)
    ensures
        is_atom_kind(explicit, validators@, r),
        explicit.is_some() ==> r == explicit.unwrap(),
        explicit.is_none() && validators@.len() == 0 ==> r == AtomKind::String,
        forall|m: AtomKind|
            explicit.is_none() && #[trigger] has_clear_majority(validators@, m) ==> r == m,
{
    match explicit {
        Some(k) => k,
        None => {
            let vs = Ghost(validators@);
            if validators.len() == 0 {
                return AtomKind::String;
            }
            let (cn, cs, ca, fnum, fstr, fany) = tally(validators);
            proof {
                assert(vs@.len() > 0);
                let last = vs@.last();
                assert(kind_count(vs@, implied_kind(last)) > 0);
                lemma_first_position_bounds(vs@, AtomKind::Number);
                lemma_first_position_bounds(vs@, AtomKind::String);
                lemma_first_position_bounds(vs@, AtomKind::Any);
            }
            let mut best = AtomKind::Number;
            let mut best_count = cn;
            let mut best_first = fnum;
            if cs > best_count || (cs == best_count && fstr < best_first) {
                best = AtomKind::String;
                best_count = cs;
                best_first = fstr;
            }
            if ca > best_count || (ca == best_count && fany < best_first) {
                best = AtomKind::Any;
                best_count = ca;
                best_first = fany;
            }
            proof {
                if cn > 0 {
                    lemma_first_positions_distinct(vs@, AtomKind::Number, AtomKind::String);
                    lemma_first_positions_distinct(vs@, AtomKind::Number, AtomKind::Any);
                }
                if cs > 0 {
                    lemma_first_positions_distinct(vs@, AtomKind::String, AtomKind::Any);
                    lemma_first_positions_distinct(vs@, AtomKind::String, AtomKind::Number);
                }
                if ca > 0 {
                    lemma_first_positions_distinct(vs@, AtomKind::Any, AtomKind::Number);
                    lemma_first_positions_distinct(vs@, AtomKind::Any, AtomKind::String);
                }
                assert(kind_count(vs@, best) > 0);
                assert forall|o: AtomKind| o != best implies #[trigger] outvotes(vs@, best, o) by {}
                assert forall|m: AtomKind| #[trigger] has_clear_majority(vs@, m) implies best == m by {
                    if best != m {
                        assert(kind_count(vs@, best) < kind_count(vs@, m));
                        assert(outvotes(vs@, best, m));
                    }
                }
            }
            best
        },
    }
}

/// A single configuration variable.
#[derive(Debug, PartialEq, Eq, Clone)]
pub struct AthalarAtom {
    /// The name of this configuration variable
    pub name: String,
    /// The type of this configuration variable, fixed when the atom is built
    pub kind: AtomKind,
    /// The validators that should be applied to this configuration variable
    pub validators: Vec<AtomValidator>,
    /// An optional description that will get included in the generated code
    pub description: Option<String>,
}

/// What an atom holds, as plain values.
pub struct AtomView {
    pub name: Seq<char>,
    pub kind: AtomKind,
    pub validators: Seq<AtomValidator>,
    pub description: Option<Seq<char>>,
}

pub open spec fn optional_text(s: Option<String>) -> Option<Seq<char>> {
    match s {
        Some(t) => Some(t@),
        None => None,
    }
}

impl View for AthalarAtom {
    type V = AtomView;

    open spec fn view(&self) -> AtomView {
        AtomView {
            name: self.name@,
            kind: self.kind,
            validators: self.validators@,
            description: optional_text(self.description),
        }
    }
}

/// A copy of an optional string.
pub fn copy_text(s: &Option<String>) -> (r: Option<String>)
    ensures
        optional_text(r) == optional_text(*s),
{
    match s {
        Some(t) => Some(t.clone()),
        None => None,
    }
}

/// A copy of a list of validators.
pub fn copy_validators(vs: &Vec<AtomValidator>) -> (r: Vec<AtomValidator>)
    ensures
        r@ == vs@,
{
    let mut r: Vec<AtomValidator> = Vec::new();
    let mut i: usize = 0;
    while i < vs.len()
        invariant
            i <= vs@.len(),
            r@ == vs@.subrange(0, i as int),
        decreases vs@.len() - i,
    {
        r.push(vs[i]);
        i = i + 1;
    }
    assert(r@ =~= vs@);
    r
}

impl AthalarAtom {
    /// A copy of this atom that holds the same values.
    pub fn duplicate(&self) -> (r: AthalarAtom)
        ensures
            r@ == self@,
    {
        AthalarAtom {
            name: self.name.clone(),
            kind: self.kind,
            validators: copy_validators(&self.validators),
            description: copy_text(&self.description),
        }
    }
}

impl Default for AthalarAtom {
    fn default() -> (r: AthalarAtom)
        ensures
            r@.name.len() == 0,
            r@.kind == AtomKind::String,
            r@.validators.len() == 0,
            r@.description.is_none(),
    {
        AthalarAtom {
            name: String::new(),
            kind: AtomKind::String,
            validators: Vec::new(),
            description: None,
        }
    }
}

/// Why a builder could not build its value: the named field was never set.
#[derive(Debug, PartialEq, Eq, Clone, Copy, Structural)]
pub enum BuilderError {
    /// The name of the built value is missing.
    MissingName,
    /// The version of the project configuration is missing.
    MissingVersion,
    /// The source path is missing.
    MissingSource,
    /// The data read from the source document is missing.
    MissingData,
    /// The output path of a binding is missing.
    MissingOutput,
    /// The output path of a binding starts at the root; it must be relative.
    AbsoluteOutput,
    /// The adapter profile of a binding is missing.
    MissingProfile,
}

/// Collects the fields of an atom, then builds it with its kind derived.
#[derive(Debug, Clone)]
pub struct AthalarAtomBuilder {
    pub name: Option<String>,
    pub kind: Option<AtomKind>,
    pub validators: Option<Vec<AtomValidator>>,
    pub description: Option<String>,
}

pub open spec fn validators_or_empty(vs: Option<Vec<AtomValidator>>) -> Seq<AtomValidator> {
    match vs {
        Some(v) => v@,
        None => Seq::empty(),
    }
}

impl Default for AthalarAtomBuilder {
    fn default() -> (r: AthalarAtomBuilder)
        ensures
            r.name.is_none(),
            r.kind.is_none(),
            r.validators.is_none(),
            r.description.is_none(),
    {
        AthalarAtomBuilder { name: None, kind: None, validators: None, description: None }
    }
}

impl AthalarAtomBuilder {
    pub fn name(self, name: &str) -> (r: AthalarAtomBuilder)
        ensures
            r.name.is_some() && r.name.unwrap()@ == name@,
            r.kind == self.kind,
            r.validators == self.validators,
            r.description == self.description,
    {
        AthalarAtomBuilder { name: Some(name.to_string()), ..self }
    }

    pub fn kind(self, kind: AtomKind) -> (r: AthalarAtomBuilder)
        ensures
            r.name == self.name,
            r.kind == Some(kind),
            r.validators == self.validators,
            r.description == self.description,
    {
        AthalarAtomBuilder { kind: Some(kind), ..self }
    }

    pub fn validators(self, validators: Vec<AtomValidator>) -> (r: AthalarAtomBuilder)
        ensures
            r.name == self.name,
            r.kind == self.kind,
            r.validators == Some(validators),
            r.description == self.description,
    {
        AthalarAtomBuilder { validators: Some(validators), ..self }
    }

    pub fn description(self, description: &str) -> (r: AthalarAtomBuilder)
        ensures
            r.name == self.name,
            r.kind == self.kind,
            r.validators == self.validators,
            r.description.is_some() && r.description.unwrap()@ == description@,
    {
        AthalarAtomBuilder { description: Some(description.to_string()), ..self }
    }

    /// The kind that the built atom will have: the one that was set, or the one that
    /// its validators vote for.
    pub fn get_kind(&self) -> (r: Result<AtomKind, String>)
        ensures
            r.is_ok(),
            is_atom_kind(self.kind, validators_or_empty(self.validators), r.unwrap()),
    {
        let k = match &self.validators {
            Some(vs) => infer_kind(self.kind, vs),
            None => infer_kind(self.kind, &Vec::new()),
        };
        Ok(k)
    }

    /// Builds the atom; fails only when no name was set.
    pub fn build(&self) -> (r: Result<AthalarAtom, BuilderError>)
        ensures
            self.name.is_none() <==> r == Err::<AthalarAtom, BuilderError>(BuilderError::MissingName),
            self.name.is_some() ==> r.is_ok(),
            r.is_ok() ==> {
                let a = r.unwrap()@;
                &&& a.name == self.name.unwrap()@
                &&& a.validators == validators_or_empty(self.validators)
                &&& is_atom_kind(self.kind, a.validators, a.kind)
                &&& a.description == optional_text(self.description)
            },
    {
        match &self.name {
            None => Err(BuilderError::MissingName),
            Some(name) => {
                let validators = match &self.validators {
                    Some(vs) => copy_validators(vs),
                    None => Vec::new(),
                };
                let kind = infer_kind(self.kind, &validators);
                Ok(AthalarAtom {
                    name: name.clone(),
                    kind,
                    validators,
                    description: copy_text(&self.description),
                })
            },
        }
    }
}

} // verus!
