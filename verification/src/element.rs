//! The three concrete element records and the variant type that unifies
//! them.

use vstd::prelude::*;

verus! {

use crate::decimal::FixedDecimal;
use crate::id::Id;
use crate::info::Info;
use crate::tags::Tags;

/// Kind of element a [`Member`] refers to.
#[derive(Debug, PartialEq, Eq, Structural, Hash)]
pub enum MemberType {
    Node,
    Way,
    Relation,
}

impl Clone for MemberType {
    /// The clone equals the original.
    fn clone(&self) -> (r: Self)
        ensures
            r == *self,
    {
        match self {
            MemberType::Node => MemberType::Node,
            MemberType::Way => MemberType::Way,
            MemberType::Relation => MemberType::Relation,
        }
    }
}

/// One entry of a relation's member list: a weak reference to another
/// element by identifier and kind, with an optional role.
///
/// The reference never owns its target and may dangle; constructing a member
/// whose target is absent from a dataset is valid.
#[derive(Debug, PartialEq, Eq, Hash)]
pub struct Member {
    /// Identifier of the referenced element, meaningful only together with
    /// `ty`.
    pub id: Id,
    /// Kind of the referenced element.
    pub ty: MemberType,
    /// Function of this member in its relation, if one was given.
    pub role: Option<String>,
}

impl Clone for Member {
    /// The clone equals the original in every field.
    fn clone(&self) -> (r: Self)
        ensures
            r == *self,
    {
        Member {
            id: self.id,
            ty: self.ty.clone(),
            role: match &self.role {
                Some(s) => Some(s.clone()),
                None => None,
            },
        }
    }
}

/// Single point in space.
#[derive(Debug, PartialEq, Eq)]
pub struct Node {
    pub id: Id,
    pub tags: Tags,
    pub info: Option<Info>,
    /// Latitude, as a fixed-precision decimal.
    pub lat: FixedDecimal,
    /// Longitude, as a fixed-precision decimal.
    pub lon: FixedDecimal,
}

/// Ordered list of node references forming a line or a polygon boundary.
#[derive(Debug, PartialEq, Eq)]
pub struct Way {
    pub id: Id,
    pub tags: Tags,
    pub info: Option<Info>,
    /// The referenced nodes, by identifier only: weak references that the
    /// way neither owns nor guarantees to resolve. Order is preserved
    /// exactly.
    pub refs: Vec<Id>,
}

/// Ordered, role-annotated grouping of references to other elements.
#[derive(Debug, PartialEq, Eq)]
pub struct Relation {
    pub id: Id,
    pub tags: Tags,
    pub info: Option<Info>,
    /// The member list. Order is semantically significant and is preserved
    /// through every copy or transformation. Producers should stay below
    /// 300 members, with a hard ceiling of 32,000; the model does not
    /// enforce either.
    pub members: Vec<Member>,
}

/// Mathematical value of a [`Node`].
pub ghost struct NodeView {
    pub id: Id,
    pub tags: Map<Seq<char>, Seq<char>>,
    pub info: Option<Info>,
    pub lat: FixedDecimal,
    pub lon: FixedDecimal,
}

/// Mathematical value of a [`Way`].
pub ghost struct WayView {
    pub id: Id,
    pub tags: Map<Seq<char>, Seq<char>>,
    pub info: Option<Info>,
    pub refs: Seq<Id>,
}

/// Mathematical value of a [`Relation`].
pub ghost struct RelationView {
    pub id: Id,
    pub tags: Map<Seq<char>, Seq<char>>,
    pub info: Option<Info>,
    pub members: Seq<Member>,
}

impl View for Node {
    type V = NodeView;

    open spec fn view(&self) -> NodeView {
        NodeView { id: self.id, tags: self.tags@, info: self.info, lat: self.lat, lon: self.lon }
    }
}

impl View for Way {
    type V = WayView;

    open spec fn view(&self) -> WayView {
        WayView { id: self.id, tags: self.tags@, info: self.info, refs: self.refs@ }
    }
}

impl View for Relation {
    type V = RelationView;

    open spec fn view(&self) -> RelationView {
        RelationView { id: self.id, tags: self.tags@, info: self.info, members: self.members@ }
    }
}

impl Node {
    /// Remove the revision metadata if present. Idempotent; no other field
    /// changes.
    pub fn strip_info(&mut self)
        ensures
            final(self).info is None,
            final(self).id == old(self).id,
            final(self).tags == old(self).tags,
            final(self).lat == old(self).lat,
            final(self).lon == old(self).lon,
    {
        self.info = None;
    }
}

impl Way {
    /// Remove the revision metadata if present. Idempotent; no other field
    /// changes.
    pub fn strip_info(&mut self)
        ensures
            final(self).info is None,
            final(self).id == old(self).id,
            final(self).tags == old(self).tags,
            final(self).refs == old(self).refs,
    {
        self.info = None;
    }

    /// Whether the way is closed: at least one reference, and the first and
    /// the last reference are the same identifier. A way of fewer than two
    /// references is degenerate and left to the caller's policy.
    pub open spec fn spec_closed(self) -> bool {
        self.refs@.len() >= 1 && self.refs@[0] == self.refs@[self.refs@.len() - 1]
    }

    /// Whether the way is closed (first reference equals last).
    pub fn is_closed(&self) -> (r: bool)
        ensures
            r == self.spec_closed(),
    {
        if self.refs.len() == 0 {
            false
        } else {
            let n = self.refs.len();
            self.refs[0] == self.refs[n - 1]
        }
    }
}

impl Relation {
    /// Remove the revision metadata if present. Idempotent; no other field
    /// changes.
    pub fn strip_info(&mut self)
        ensures
            final(self).info is None,
            final(self).id == old(self).id,
            final(self).tags == old(self).tags,
            final(self).members == old(self).members,
    {
        self.info = None;
    }
}

/// Fundamental representation of a geographical feature: exactly one of the
/// three element kinds, wrapped by value.
#[derive(Debug, PartialEq, Eq)]
pub enum Element {
    Node(Node),
    Way(Way),
    Relation(Relation),
}

/// Mathematical value of an [`Element`].
pub ghost enum ElementView {
    Node(NodeView),
    Way(WayView),
    Relation(RelationView),
}

impl ElementView {
    /// The identifier, uniform over the three kinds.
    pub open spec fn id(self) -> Id {
        match self {
            ElementView::Node(n) => n.id,
            ElementView::Way(w) => w.id,
            ElementView::Relation(r) => r.id,
        }
    }

    /// The tag mapping, uniform over the three kinds.
    pub open spec fn tags(self) -> Map<Seq<char>, Seq<char>> {
        match self {
            ElementView::Node(n) => n.tags,
            ElementView::Way(w) => w.tags,
            ElementView::Relation(r) => r.tags,
        }
    }

    /// The revision metadata, uniform over the three kinds.
    pub open spec fn info(self) -> Option<Info> {
        match self {
            ElementView::Node(n) => n.info,
            ElementView::Way(w) => w.info,
            ElementView::Relation(r) => r.info,
        }
    }

    /// The same element with the revision metadata absent.
    pub open spec fn strip(self) -> ElementView {
        match self {
            ElementView::Node(n) => ElementView::Node(
                NodeView { id: n.id, tags: n.tags, info: None, lat: n.lat, lon: n.lon },
            ),
            ElementView::Way(w) => ElementView::Way(
                WayView { id: w.id, tags: w.tags, info: None, refs: w.refs },
            ),
            ElementView::Relation(r) => ElementView::Relation(
                RelationView { id: r.id, tags: r.tags, info: None, members: r.members },
            ),
        }
    }
}

impl View for Element {
    type V = ElementView;

    open spec fn view(&self) -> ElementView {
        match self {
            Element::Node(n) => ElementView::Node(n@),
            Element::Way(w) => ElementView::Way(w@),
            Element::Relation(r) => ElementView::Relation(r@),
        }
    }
}

impl Element {
    /// The wrapped record's identifier, whatever the kind.
    pub fn id(&self) -> (r: Id)
        ensures
            r == self@.id(),
    {
        match self {
            Element::Node(n) => n.id,
            Element::Way(w) => w.id,
            Element::Relation(rel) => rel.id,
        }
    }

    /// The wrapped record's tag mapping, by reference, whatever the kind.
    pub fn tags(&self) -> (r: &Tags)
        ensures
            r@ == self@.tags(),
    {
        match self {
            Element::Node(n) => &n.tags,
            Element::Way(w) => &w.tags,
            Element::Relation(rel) => &rel.tags,
        }
    }

    /// The wrapped record's revision metadata, if present, whatever the
    /// kind.
    pub fn info(&self) -> (r: Option<&Info>)
        ensures
            match r {
                Some(i) => self@.info() == Some(*i),
                None => self@.info() is None,
            },
    {
        match self {
            Element::Node(n) => n.info.as_ref(),
            Element::Way(w) => w.info.as_ref(),
            Element::Relation(rel) => rel.info.as_ref(),
        }
    }

    /// Remove the revision metadata if present, in place. Idempotent; the
    /// kind and every other field stay as they were.
    pub fn strip_info(&mut self)
        ensures
            final(self)@ == old(self)@.strip(),
    {
        match self {
            Element::Node(n) => n.strip_info(),
            Element::Way(w) => w.strip_info(),
            Element::Relation(rel) => rel.strip_info(),
        }
    }

    /// The wrapped node record exactly, if this element is a node; absent
    /// otherwise. A mismatched kind is a normal absent result, never a
    /// failure.
    pub fn as_node(&self) -> (r: Option<&Node>)
        ensures
            match r {
                Some(n) => *self == Element::Node(*n),
                None => !(self@ matches ElementView::Node(_)),
            },
    {
        if let Element::Node(n) = self {
            Some(n)
        } else {
            None
        }
    }

    /// The wrapped way record exactly, if this element is a way; absent
    /// otherwise.
    pub fn as_way(&self) -> (r: Option<&Way>)
        ensures
            match r {
                Some(w) => *self == Element::Way(*w),
                None => !(self@ matches ElementView::Way(_)),
            },
    {
        if let Element::Way(w) = self {
            Some(w)
        } else {
            None
        }
    }

    /// The wrapped relation record exactly, if this element is a relation;
    /// absent otherwise.
    pub fn as_relation(&self) -> (r: Option<&Relation>)
        ensures
            match r {
                Some(rel) => *self == Element::Relation(*rel),
                None => !(self@ matches ElementView::Relation(_)),
            },
    {
        if let Element::Relation(rel) = self {
            Some(rel)
        } else {
            None
        }
    }
}

/// Stripping the revision metadata is idempotent, and afterwards no
/// metadata is present.
pub proof fn lemma_strip_info_idempotent(e: ElementView)
    ensures
        e.strip().strip() == e.strip(),
        e.strip().info() is None,
{
}

/// Copy an identifier sequence.
fn clone_ids(v: &Vec<Id>) -> (r: Vec<Id>)
    ensures
        r@ == v@,
{
    let mut out: Vec<Id> = Vec::new();
    let n = v.len();
    for i in 0..n
        invariant
            n == v@.len(),
            out@.len() == i,
            forall|j: int| 0 <= j < i ==> out@[j] == v@[j],
    {
        out.push(v[i]);
    }
    proof {
        assert(out@ =~= v@);
    }
    out
}

/// Copy a member list, preserving order exactly.
fn clone_members(v: &Vec<Member>) -> (r: Vec<Member>)
    ensures
        r@ == v@,
{
    let mut out: Vec<Member> = Vec::new();
    let n = v.len();
    for i in 0..n
        invariant
            n == v@.len(),
            out@.len() == i,
            forall|j: int| 0 <= j < i ==> out@[j] == v@[j],
    {
        out.push(v[i].clone());
    }
    proof {
        assert(out@ =~= v@);
    }
    out
}

impl Clone for Node {
    /// The clone has the same mathematical value.
    fn clone(&self) -> (r: Self)
        ensures
            r@ == self@,
    {
        Node {
            id: self.id,
            tags: self.tags.clone(),
            info: match &self.info {
                Some(i) => Some(i.clone()),
                None => None,
            },
            lat: self.lat,
            lon: self.lon,
        }
    }
}

impl Clone for Way {
    /// The clone has the same mathematical value; in particular the
    /// reference list keeps its order.
    fn clone(&self) -> (r: Self)
        ensures
            r@ == self@,
    {
        Way {
            id: self.id,
            tags: self.tags.clone(),
            info: match &self.info {
                Some(i) => Some(i.clone()),
                None => None,
            },
            refs: clone_ids(&self.refs),
        }
    }
}

impl Clone for Relation {
    /// The clone has the same mathematical value; in particular the member
    /// list keeps its order.
    fn clone(&self) -> (r: Self)
        ensures
            r@ == self@,
    {
        Relation {
            id: self.id,
            tags: self.tags.clone(),
            info: match &self.info {
                Some(i) => Some(i.clone()),
                None => None,
            },
            members: clone_members(&self.members),
        }
    }
}

impl Clone for Element {
    /// The clone has the same mathematical value: the same kind, and a
    /// record of the same value.
    fn clone(&self) -> (r: Self)
        ensures
            r@ == self@,
    {
        match self {
            Element::Node(n) => Element::Node(n.clone()),
            Element::Way(w) => Element::Way(w.clone()),
            Element::Relation(rel) => Element::Relation(rel.clone()),
        }
    }
}

} // verus!
