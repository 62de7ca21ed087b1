//! The validation engine: constraint primitives, violations and reports.
//!
//! Every node kind describes its violations as a spec function of the path
//! at which the node sits (`violations_at`), and checks itself with an exec
//! function that appends exactly those violations, in field declaration
//! order, to an output vector.
use vstd::prelude::*;

verus! {

/// The fields that a violation can point at.
#[derive(Clone, Copy, Debug, PartialEq, Eq, Structural)]
pub enum Field {
    ActionId,
    BlockId,
    Confirm,
    Deny,
    Description,
    Elements,
    Hint,
    InitialOptions,
    Label,
    MaxSelectedItems,
    Options,
    Placeholder,
    Text,
    Title,
    Value,
}

/// One step of a path from the root of a document to a field.
#[derive(Clone, Copy, Debug, PartialEq, Eq, Structural)]
pub enum PathSegment {
    Field(Field),
    Index(usize),
}

/// The constraint that a field failed, with its bound.
#[derive(Clone, Copy, Debug, PartialEq, Eq, Structural)]
pub enum ConstraintKind {
    /// Text of `len` characters, more than the bound `max`.
    MaxLength { max: u64, len: u64 },
    /// A collection of `count` items, more than the bound `max`.
    BoundedCount { max: u64, count: u64 },
    /// A number `value` below the bound `min`.
    MinValue { min: u64, value: u64 },
    /// A text object that is markdown where plain text is required.
    TextIsPlain,
}

impl ConstraintKind {
    /// The tag of the constraint kind.
    pub open spec fn spec_code(&self) -> Seq<char> {
        match self {
            ConstraintKind::MaxLength { .. } => "max_length"@,
            ConstraintKind::BoundedCount { .. } => "bounded_count"@,
            ConstraintKind::MinValue { .. } => "range"@,
            ConstraintKind::TextIsPlain => "text_is_plain"@,
        }
    }

    /// A sentence that describes the failure to a person.
    pub open spec fn spec_message(&self) -> Seq<char> {
        match self {
            ConstraintKind::MaxLength { .. } => "text is longer than the maximum length"@,
            ConstraintKind::BoundedCount { .. } => "collection holds more items than allowed"@,
            ConstraintKind::MinValue { .. } => "number is below the minimum"@,
            ConstraintKind::TextIsPlain => "text must be plain text, not markdown"@,
        }
    }

    /// The tag of the constraint kind.
    pub fn code(&self) -> (r: &'static str)
        ensures
            r@ == self.spec_code(),
    {
        match self {
            ConstraintKind::MaxLength { .. } => "max_length",
            ConstraintKind::BoundedCount { .. } => "bounded_count",
            ConstraintKind::MinValue { .. } => "range",
            ConstraintKind::TextIsPlain => "text_is_plain",
        }
    }
}

/// The outcome of one constraint: `Ok` or the constraint that failed.
pub type ConstraintResult = Result<(), ConstraintKind>;

/// One constraint failure, at a root-relative field path.
#[derive(Clone, Debug, PartialEq, Eq)]
pub struct Violation {
    pub path: Vec<PathSegment>,
    pub kind: ConstraintKind,
}

/// What a violation is, mathematically: its path and its kind.
pub type Fault = (Seq<PathSegment>, ConstraintKind);

impl View for Violation {
    type V = Fault;

    open spec fn view(&self) -> Fault {
        (self.path@, self.kind)
    }
}

impl Violation {
    /// A sentence that describes the violation to a person.
    pub fn message(&self) -> (r: &'static str)
        ensures
            r@ == self.kind.spec_message(),
    {
        match self.kind {
            ConstraintKind::MaxLength { .. } => "text is longer than the maximum length",
            ConstraintKind::BoundedCount { .. } => "collection holds more items than allowed",
            ConstraintKind::MinValue { .. } => "number is below the minimum",
            ConstraintKind::TextIsPlain => "text must be plain text, not markdown",
        }
    }
}

pub open spec fn faults_of(vs: Seq<Violation>) -> Seq<Fault> {
    vs.map_values(|v: Violation| v@)
}

/// The violations that one constraint result contributes for field `f`
/// of the node at `path`.
pub open spec fn fault_at(path: Seq<PathSegment>, f: Field, c: ConstraintResult) -> Seq<Fault> {
    match c {
        Ok(()) => Seq::empty(),
        Err(k) => seq![(path.push(PathSegment::Field(f)), k)],
    }
}

/// Text may hold at most `max` characters; a failure records how many it
/// holds.
pub open spec fn spec_max_length(s: Seq<char>, max: u64) -> ConstraintResult {
    if s.len() <= max {
        Ok(())
    } else {
        Err(ConstraintKind::MaxLength { max, len: s.len() as u64 })
    }
}

/// A collection may hold at most `max` items; a failure records how many it
/// holds.
pub open spec fn spec_bounded_count(n: nat, max: u64) -> ConstraintResult {
    if n <= max {
        Ok(())
    } else {
        Err(ConstraintKind::BoundedCount { max, count: n as u64 })
    }
}

/// A number must be at least `min`; a failure records the number.
pub open spec fn spec_min_value(v: u32, min: u64) -> ConstraintResult {
    if v >= min {
        Ok(())
    } else {
        Err(ConstraintKind::MinValue { min, value: v as u64 })
    }
}

/// Relies on validator's `HasLen::length` for `&str`: the number of
/// characters (it counts `chars()`).
#[verifier::external_body]
fn char_count(s: &str) -> (r: u64)
    ensures
        r == s@.len(),
{
    validator::HasLen::length(&s)
}

/// Checks that `s` has at most `max` characters.
pub fn max_length(s: &str, max: u64) -> (r: ConstraintResult)
    ensures
        r == spec_max_length(s@, max),
        r matches Err(ConstraintKind::MaxLength { len, .. }) ==> len == s@.len(),
{
    let len = char_count(s);
    if len <= max {
        Ok(())
    } else {
        Err(ConstraintKind::MaxLength { max, len })
    }
}

/// Checks that a collection of `n` items has at most `max` of them.
pub fn bounded_count(n: usize, max: u64) -> (r: ConstraintResult)
    ensures
        r == spec_bounded_count(n as nat, max),
{
    if n as u64 <= max {
        Ok(())
    } else {
        Err(ConstraintKind::BoundedCount { max, count: n as u64 })
    }
}

/// Checks that `v` is at least `min`.
pub fn min_value(v: u32, min: u64) -> (r: ConstraintResult)
    ensures
        r == spec_min_value(v, min),
{
    if v as u64 >= min {
        Ok(())
    } else {
        Err(ConstraintKind::MinValue { min, value: v as u64 })
    }
}

/// A copy of `path` with `seg` appended.
pub fn extend_path(path: &Vec<PathSegment>, seg: PathSegment) -> (r: Vec<PathSegment>)
    ensures
        r@ == path@.push(seg),
{
    let mut r: Vec<PathSegment> = Vec::new();
    let mut i: usize = 0;
    while i < path.len()
        invariant
            i <= path@.len(),
            r@ == path@.subrange(0, i as int),
        decreases path@.len() - i,
    {
        r.push(path[i]);
        i = i + 1;
        assert(r@ =~= path@.subrange(0, i as int));
    }
    assert(r@ =~= path@);
    r.push(seg);
    r
}

/// The path of element `i` of collection field `f` of the node at `path`.
pub fn index_path(path: &Vec<PathSegment>, f: Field, i: usize) -> (r: Vec<PathSegment>)
    ensures
        r@ == path@.push(PathSegment::Field(f)).push(PathSegment::Index(i)),
{
    let p = extend_path(path, PathSegment::Field(f));
    extend_path(&p, PathSegment::Index(i))
}

/// Appends to `out` the violation, if any, that `c` gives for field `f` of
/// the node at `path`.
pub fn record(out: &mut Vec<Violation>, path: &Vec<PathSegment>, f: Field, c: ConstraintResult)
    ensures
        faults_of(final(out)@) == faults_of(old(out)@) + fault_at(path@, f, c),
{
    match c {
        Ok(()) => {
            assert(faults_of(out@) =~= faults_of(out@) + fault_at(path@, f, c));
        },
        Err(k) => {
            let p = extend_path(path, PathSegment::Field(f));
            out.push(Violation { path: p, kind: k });
            assert(faults_of(out@) =~= faults_of(old(out)@) + fault_at(path@, f, c));
        },
    }
}

/// The aggregated, nonempty, ordered result of a failed validation.
#[derive(Debug, PartialEq, Eq)]
pub struct Report {
    violations: Vec<Violation>,
}

impl View for Report {
    type V = Seq<Fault>;

    closed spec fn view(&self) -> Seq<Fault> {
        faults_of(self.violations@)
    }
}

impl Report {
    #[verifier::type_invariant]
    spec fn nonempty(self) -> bool {
        self.violations@.len() > 0
    }

    /// The violations, in the order in which they were found.
    pub fn violations(&self) -> (r: &Vec<Violation>)
        ensures
            faults_of(r@) == self@,
    {
        &self.violations
    }

    /// The number of violations; never zero.
    pub fn len(&self) -> (r: usize)
        ensures
            r == self@.len(),
            r > 0,
    {
        proof {
            use_type_invariant(self);
        }
        self.violations.len()
    }
}

/// What `validate` returns for a node whose violations are `faults`: success
/// when there are none, else a report of exactly those.
pub open spec fn outcome(faults: Seq<Fault>, r: Result<(), Report>) -> bool {
    match r {
        Ok(()) => faults.len() == 0,
        Err(rep) => faults.len() > 0 && rep@ == faults,
    }
}

/// Turns the violations found in one pass into the result of `validate`.
pub fn conclude(out: Vec<Violation>) -> (r: Result<(), Report>)
    ensures
        outcome(faults_of(out@), r),
{
    if out.len() == 0 {
        Ok(())
    } else {
        Err(Report { violations: out })
    }
}

/// Validation is a function of the node: two results that both meet the
/// contract of `validate` for the same violations are equal.
pub proof fn validation_is_deterministic(faults: Seq<Fault>, r1: Result<(), Report>, r2: Result<(), Report>)
    requires
        outcome(faults, r1),
        outcome(faults, r2),
    ensures
        r1 is Ok <==> r2 is Ok,
        r1 is Err ==> r1->Err_0@ == r2->Err_0@,
{
}

} // verus!
