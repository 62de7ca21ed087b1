//! Context block: shows message context, as text and images.
use vstd::prelude::*;

use crate::compose::{self, ComposeKind, Text};
use crate::validation::{
    bounded_count, conclude, fault_at, faults_of, max_length, outcome, record, spec_bounded_count,
    spec_max_length, Fault, Field, PathSegment, Report, Violation,
};

verus! {

/// The error of narrowing a composition object that a context block does
/// not accept: the kind of the offending object.
#[derive(Clone, Copy, Debug, PartialEq, Eq, Structural)]
pub struct UnsupportedComposeError {
    pub kind: ComposeKind,
}

/// The composition objects that a context block accepts.
#[derive(Clone, Debug, PartialEq, Eq, Hash)]
pub enum Compose {
    Text(Text),
    Image,
}

impl Compose {
    /// Whether a context block accepts composition objects of kind `k`.
    pub open spec fn accepts(k: ComposeKind) -> bool {
        k == ComposeKind::Text || k == ComposeKind::Image
    }

    /// This object as a member of the general family.
    pub open spec fn widened(self) -> compose::Compose {
        match self {
            Compose::Text(t) => compose::Compose::Text(t),
            Compose::Image => compose::Compose::Image,
        }
    }

    /// `comp` as an object of a context block, or the error naming its kind.
    pub open spec fn narrowed(comp: compose::Compose) -> Result<Compose, UnsupportedComposeError> {
        match comp {
            compose::Compose::Text(t) => Ok(Compose::Text(t)),
            compose::Compose::Image => Ok(Compose::Image),
            other => Err(UnsupportedComposeError { kind: other.spec_kind() }),
        }
    }

    /// Widens this object into the general family; never fails.
    pub fn widen(self) -> (r: compose::Compose)
        ensures
            r == self.widened(),
            Self::accepts(r.spec_kind()),
    {
        match self {
            Compose::Text(t) => compose::Compose::Text(t),
            Compose::Image => compose::Compose::Image,
        }
    }

    /// Narrows `comp` into the objects that a context block accepts; fails,
    /// naming the kind of `comp`, exactly when the block does not accept it.
    pub fn narrow(comp: compose::Compose) -> (r: Result<Compose, UnsupportedComposeError>)
        ensures
            r == Self::narrowed(comp),
            r is Ok <==> Self::accepts(comp.spec_kind()),
            r matches Ok(x) ==> x.widened() == comp,
            r matches Err(e) ==> e.kind == comp.spec_kind(),
    {
        match comp {
            compose::Compose::Text(t) => Ok(Compose::Text(t)),
            compose::Compose::Image => Ok(Compose::Image),
            other => {
                let kind = other.kind();
                Err(UnsupportedComposeError { kind })
            },
        }
    }
}

/// Narrowing is undone by widening: every object of the family comes back
/// unchanged from a round trip through the general family.
pub proof fn narrow_after_widen(x: Compose)
    ensures
        Compose::narrowed(x.widened()) == Ok::<Compose, UnsupportedComposeError>(x),
{
}

/// An object of a kind outside the family fails to narrow, with an error
/// that names that kind.
pub proof fn narrow_rejects_foreign(comp: compose::Compose)
    requires
        !Compose::accepts(comp.spec_kind()),
    ensures
        Compose::narrowed(comp) == Err::<Compose, UnsupportedComposeError>(
            UnsupportedComposeError { kind: comp.spec_kind() },
        ),
{
}

/// Narrows each object in order; the first that fails gives the error.
pub open spec fn narrow_all(comps: Seq<compose::Compose>) -> Result<Seq<Compose>, UnsupportedComposeError>
    decreases comps.len(),
{
    if comps.len() == 0 {
        Ok(Seq::empty())
    } else {
        match Compose::narrowed(comps[0]) {
            Err(e) => Err(e),
            Ok(x) => match narrow_all(comps.drop_first()) {
                Ok(v) => Ok(seq![x] + v),
                Err(e) => Err(e),
            },
        }
    }
}

/// A context block.
#[derive(Clone, Debug, PartialEq, Eq, Hash)]
pub struct Contents {
    elements: Vec<Compose>,
    block_id: Option<String>,
}

impl Contents {
    pub closed spec fn spec_elements(&self) -> Seq<Compose> {
        self.elements@
    }

    pub closed spec fn spec_block_id(&self) -> Option<Seq<char>> {
        match self.block_id {
            Some(s) => Some(s@),
            None => None,
        }
    }

    /// The elements, in order.
    pub fn elements(&self) -> (r: &Vec<Compose>)
        ensures
            r@ == self.spec_elements(),
    {
        &self.elements
    }

    /// The identifier of the block.
    pub fn block_id(&self) -> (r: Option<&str>)
        ensures
            match r {
                Some(s) => self.spec_block_id() == Some(s@),
                None => self.spec_block_id() is None,
            },
    {
        match &self.block_id {
            Some(s) => Some(s.as_str()),
            None => None,
        }
    }

    /// A context block with no elements and no `block_id`.
    pub fn new() -> (r: Contents)
        ensures
            r.spec_elements().len() == 0,
            r.spec_block_id() is None,
    {
        Contents { elements: Vec::new(), block_id: None }
    }

    /// Sets `block_id`, which identifies the block in interaction payloads
    /// (at most 255 characters).
    pub fn with_block_id(self, block_id: &str) -> (r: Contents)
        ensures
            r.spec_elements() == self.spec_elements(),
            r.spec_block_id() == Some(block_id@),
    {
        Contents { block_id: Some(String::from_str(block_id)), ..self }
    }

    /// A context block holding `elements`, narrowed in order; fails with the
    /// error of the first object that the block does not accept.
    pub fn from_elements(elements: Vec<compose::Compose>) -> (r: Result<Contents, UnsupportedComposeError>)
        ensures
            match (r, narrow_all(elements@)) {
                (Ok(c), Ok(v)) => c.spec_elements() == v && c.spec_block_id() is None,
                (Err(e), Err(e2)) => e == e2,
                _ => false,
            },
    {
        let mut rest = elements;
        let mut narrowed: Vec<Compose> = Vec::new();
        while rest.len() > 0
            invariant
                narrow_all(elements@) == match narrow_all(rest@) {
                    Ok(v) => Ok(narrowed@ + v),
                    Err(e) => Err(e),
                },
            decreases rest@.len(),
        {
            let ghost before = rest@;
            let comp = rest.remove(0);
            assert(rest@ =~= before.drop_first());
            match Compose::narrow(comp) {
                Ok(x) => {
                    let ghost prev = narrowed@;
                    narrowed.push(x);
                    proof {
                        match narrow_all(rest@) {
                            Ok(v) => {
                                assert(prev + (seq![x] + v) =~= narrowed@ + v);
                            },
                            Err(_) => {},
                        }
                    }
                },
                Err(e) => {
                    return Err(e);
                },
            }
        }
        assert(narrowed@ + Seq::<Compose>::empty() =~= narrowed@);
        Ok(Contents::from_context_elements(narrowed))
    }

    /// Appends one object to the elements.
    pub fn with_element(self, element: Compose) -> (r: Contents)
        ensures
            r.spec_elements() == self.spec_elements().push(element),
            r.spec_block_id() == self.spec_block_id(),
    {
        let mut elements = self.elements;
        elements.push(element);
        Contents { elements, block_id: self.block_id }
    }

    /// A context block holding `elements`, which it accepts by type.
    pub fn from_context_elements(elements: Vec<Compose>) -> (r: Contents)
        ensures
            r.spec_elements() == elements@,
            r.spec_block_id() is None,
    {
        Contents { elements, block_id: None }
    }

    /// Violations of the block at `path`: at most 10 elements, `block_id`
    /// at most 255 characters.
    pub open spec fn violations_at(&self, path: Seq<PathSegment>) -> Seq<Fault> {
        fault_at(path, Field::Elements, spec_bounded_count(self.spec_elements().len(), 10))
            + match self.spec_block_id() {
                Some(id) => fault_at(path, Field::BlockId, spec_max_length(id, 255)),
                None => Seq::empty(),
            }
    }

    pub open spec fn violations(&self) -> Seq<Fault> {
        self.violations_at(Seq::empty())
    }

    /// Appends the violations of this block, at `path`, to `out`.
    pub fn check(&self, path: &Vec<PathSegment>, out: &mut Vec<Violation>)
        ensures
            faults_of(final(out)@) == faults_of(old(out)@) + self.violations_at(path@),
    {
        let ghost start = faults_of(out@);
        record(out, path, Field::Elements, bounded_count(self.elements.len(), 10));
        match &self.block_id {
            Some(id) => record(out, path, Field::BlockId, max_length(id.as_str(), 255)),
            None => {},
        }
        assert(faults_of(out@) =~= start + self.violations_at(path@));
    }

    /// Validates this block, reporting every violation.
    pub fn validate(&self) -> (r: Result<(), Report>)
        ensures
            outcome(self.violations(), r),
    {
        let mut out: Vec<Violation> = Vec::new();
        self.check(&Vec::new(), &mut out);
        assert(faults_of(Seq::<Violation>::empty()) =~= Seq::<Fault>::empty());
        assert(self.violations() =~= Seq::<Fault>::empty() + self.violations());
        conclude(out)
    }
}

} // verus!
