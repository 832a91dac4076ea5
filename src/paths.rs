//! Paths of the project's documents and outputs, held as strings.
use vstd::prelude::*;
use vstd::string::*;

verus! {

/// The separator between the components of a path.
pub const SEPARATOR: char = '/';

/// Where the last component of `p` starts: just after its last separator, or at 0.
pub open spec fn segment_start(p: Seq<char>) -> nat
    decreases p.len(),
{
    if p.len() == 0 {
        0
    } else if p.last() == SEPARATOR {
        p.len()
    } else {
        segment_start(p.drop_last())
    }
}

/// The position of the first `.` of `q`, or `q.len()` when it has none.
pub open spec fn dot_position(q: Seq<char>) -> nat
    decreases q.len(),
{
    if q.len() == 0 {
        0
    } else if dot_position(q.drop_last()) < q.len() - 1 {
        dot_position(q.drop_last())
    } else if q.last() == '.' {
        (q.len() - 1) as nat
    } else {
        q.len()
    }
}

/// The name of a document: the last component of its path, up to its first `.`
/// (`src/generators/backend.ath.yaml` is named `backend`).
pub open spec fn path_name(p: Seq<char>) -> Seq<char> {
    let q = p.subrange(segment_start(p) as int, p.len() as int);
    q.subrange(0, dot_position(q) as int)
}

proof fn lemma_segment_start_bound(p: Seq<char>)
    ensures
        segment_start(p) <= p.len(),
    decreases p.len(),
{
    if p.len() > 0 {
        lemma_segment_start_bound(p.drop_last());
    }
}

proof fn lemma_dot_position_bound(q: Seq<char>)
    ensures
        dot_position(q) <= q.len(),
    decreases q.len(),
{
    if q.len() > 0 {
        lemma_dot_position_bound(q.drop_last());
    }
}

/// Changes a path to a name, e.g. `src/generators/backend.ath.yaml` to `backend`.
pub fn get_name_from_path(path: &str) -> (r: String)
    ensures
        r@ == path_name(path@),
{
    let n = path.unicode_len();
    let mut start: usize = 0;
    let mut i: usize = 0;
    while i < n
        invariant
            n == path@.len(),
            i <= n,
            start == segment_start(path@.subrange(0, i as int)),
        decreases n - i,
    {
        let prefix = Ghost(path@.subrange(0, i as int + 1));
        assert(prefix@.drop_last() =~= path@.subrange(0, i as int));
        if path.get_char(i) == SEPARATOR {
            start = i + 1;
        }
        i = i + 1;
    }
    assert(path@.subrange(0, n as int) =~= path@);
    proof {
        lemma_segment_start_bound(path@);
    }
    let ghost q = path@.subrange(start as int, n as int);
    let mut end: usize = start;
    let mut j: usize = start;
    while j < n
        invariant
            n == path@.len(),
            start <= j <= n,
            q == path@.subrange(start as int, n as int),
            end - start == dot_position(q.subrange(0, j - start)),
            start <= end <= j,
        decreases n - j,
    {
        let prefix = Ghost(q.subrange(0, j - start + 1));
        assert(prefix@.drop_last() =~= q.subrange(0, j - start));
        assert(prefix@.last() == path@[j as int]);
        proof {
            lemma_dot_position_bound(q.subrange(0, j - start));
        }
        if end == j && path.get_char(j) != '.' {
            end = j + 1;
        }
        j = j + 1;
    }
    assert(q.subrange(0, n - start) =~= q);
    let r = path.substring_char(start, end).to_string();
    assert(r@ =~= path_name(path@));
    r
}

/// `p` is a relative path: it does not start at the root.
pub open spec fn is_relative(p: Seq<char>) -> bool {
    p.len() == 0 || p[0] != SEPARATOR
}

/// Whether `p` is a relative path.
pub fn is_relative_path(p: &str) -> (r: bool)
    ensures
        r == is_relative(p@),
{
    p.unicode_len() == 0 || p.get_char(0) != SEPARATOR
}

/// The parent directory of a path, as std's `Path::parent` gives it.
pub uninterp spec fn parent_path(p: Seq<char>) -> Option<Seq<char>>;

/// Relies on `std::path::Path::parent`: the parent depends on the path's text alone,
/// and a path that ends in a root or a prefix, or is empty, has none.
#[verifier::external_body]
pub(crate) fn parent_dir(path: &str) -> (r: Option<String>)
    ensures
        r.is_some() == parent_path(path@).is_some(),
        r.is_some() ==> r.unwrap()@ == parent_path(path@).unwrap(),
{
    std::path::Path::new(path).parent().map(|p| p.to_string_lossy().into_owned())
}

/// `base` joined with `rest`, as std's `Path::join` gives it.
pub uninterp spec fn joined_path(base: Seq<char>, rest: Seq<char>) -> Seq<char>;

/// Relies on `std::path::Path::join`: the result depends on the two paths' text alone.
#[verifier::external_body]
pub(crate) fn join_path(base: &str, rest: &str) -> (r: String)
    ensures
        r@ == joined_path(base@, rest@),
{
    std::path::Path::new(base).join(rest).to_string_lossy().into_owned()
}

/// `output` read as a relative path and resolved against `base`: `.` components are
/// dropped and each `..` removes the last component, without looking at the disk.
pub uninterp spec fn logical_path(output: Seq<char>, base: Seq<char>) -> Seq<char>;

/// Relies on relative_path's `RelativePath::to_logical_path`: the result depends on the
/// two paths' text alone.
#[verifier::external_body]
pub(crate) fn to_logical_path(output: &str, base: &str) -> (r: String)
    ensures
        r@ == logical_path(output@, base@),
{
    relative_path::RelativePath::new(output).to_logical_path(base).to_string_lossy().into_owned()
}

} // verus!
