//! The family of identifier types, one for each kind of entity, and the
//! generic reference that the wire carries in their place.

use vstd::prelude::*;
use std::cmp::Ordering;
use crate::error::ModelError;
use crate::text::chars_if_any;

pub use crate::guid::Guid;

verus! {

/// An identifier that is not yet tied to a kind of entity.
///
/// It wraps a [`Guid`], is equal when that is and is ordered as that is. No
/// conversion leads from one kind of identifier to another: to re-type one
/// on purpose, take the `Guid` out and wrap it again.
#[derive(Debug, Clone, Copy, PartialEq, Eq, Hash, Structural)]
pub struct AnyId(pub Guid);

impl PartialOrd for AnyId {
    fn partial_cmp(&self, other: &AnyId) -> (o: Option<Ordering>) {
        self.0.partial_cmp(&other.0)
    }
}

impl vstd::std_specs::cmp::PartialOrdSpecImpl for AnyId {
    open spec fn obeys_partial_cmp_spec() -> bool {
        true
    }

    open spec fn partial_cmp_spec(&self, other: &AnyId) -> Option<Ordering> {
        Some(self.0.order(other.0))
    }
}

impl AnyId {
    /// Parses an identifier, as [`Guid::from_str`] does.
    pub fn from_str(s: &str) -> (r: Result<AnyId, ModelError>)
        ensures
            match r {
                Ok(id) => Guid::parsed(s@) == Some(id.0),
                Err(e) => Guid::parsed(s@) is None && e == ModelError::MalformedIdentifier,
            },
    {
        match Guid::from_str(s) {
            Ok(guid) => Ok(AnyId(guid)),
            Err(e) => Err(e),
        }
    }

    /// Takes over a text that is known to denote an identifier.
    pub fn from(s: String) -> (id: AnyId)
        requires
            Guid::parsed(s@) is Some,
        ensures
            Guid::parsed(s@) == Some(id.0),
    {
        match Guid::from_str(s.as_str()) {
            Ok(guid) => AnyId(guid),
            Err(_) => vstd::pervasive::unreached(),
        }
    }

    /// Writes the identifier in its canonical text.
    pub fn to_string(&self) -> (s: String)
        ensures
            s@ == self.0.text(),
    {
        self.0.to_string()
    }
}

/// The identifier of an academic session.
///
/// It wraps a [`Guid`], is equal when that is and is ordered as that is. No
/// conversion leads from one kind of identifier to another: to re-type one
/// on purpose, take the `Guid` out and wrap it again.
#[derive(Debug, Clone, Copy, PartialEq, Eq, Hash, Structural)]
pub struct SessionId(pub Guid);

impl PartialOrd for SessionId {
    fn partial_cmp(&self, other: &SessionId) -> (o: Option<Ordering>) {
        self.0.partial_cmp(&other.0)
    }
}

impl vstd::std_specs::cmp::PartialOrdSpecImpl for SessionId {
    open spec fn obeys_partial_cmp_spec() -> bool {
        true
    }

    open spec fn partial_cmp_spec(&self, other: &SessionId) -> Option<Ordering> {
        Some(self.0.order(other.0))
    }
}

impl SessionId {
    /// Parses an identifier, as [`Guid::from_str`] does.
    pub fn from_str(s: &str) -> (r: Result<SessionId, ModelError>)
        ensures
            match r {
                Ok(id) => Guid::parsed(s@) == Some(id.0),
                Err(e) => Guid::parsed(s@) is None && e == ModelError::MalformedIdentifier,
            },
    {
        match Guid::from_str(s) {
            Ok(guid) => Ok(SessionId(guid)),
            Err(e) => Err(e),
        }
    }

    /// Takes over a text that is known to denote an identifier.
    pub fn from(s: String) -> (id: SessionId)
        requires
            Guid::parsed(s@) is Some,
        ensures
            Guid::parsed(s@) == Some(id.0),
    {
        match Guid::from_str(s.as_str()) {
            Ok(guid) => SessionId(guid),
            Err(_) => vstd::pervasive::unreached(),
        }
    }

    /// Writes the identifier in its canonical text.
    pub fn to_string(&self) -> (s: String)
        ensures
            s@ == self.0.text(),
    {
        self.0.to_string()
    }
}

/// The identifier of a class.
///
/// It wraps a [`Guid`], is equal when that is and is ordered as that is. No
/// conversion leads from one kind of identifier to another: to re-type one
/// on purpose, take the `Guid` out and wrap it again.
#[derive(Debug, Clone, Copy, PartialEq, Eq, Hash, Structural)]
pub struct ClassId(pub Guid);

impl PartialOrd for ClassId {
    fn partial_cmp(&self, other: &ClassId) -> (o: Option<Ordering>) {
        self.0.partial_cmp(&other.0)
    }
}

impl vstd::std_specs::cmp::PartialOrdSpecImpl for ClassId {
    open spec fn obeys_partial_cmp_spec() -> bool {
        true
    }

    open spec fn partial_cmp_spec(&self, other: &ClassId) -> Option<Ordering> {
        Some(self.0.order(other.0))
    }
}

impl ClassId {
    /// Parses an identifier, as [`Guid::from_str`] does.
    pub fn from_str(s: &str) -> (r: Result<ClassId, ModelError>)
        ensures
            match r {
                Ok(id) => Guid::parsed(s@) == Some(id.0),
                Err(e) => Guid::parsed(s@) is None && e == ModelError::MalformedIdentifier,
            },
    {
        match Guid::from_str(s) {
            Ok(guid) => Ok(ClassId(guid)),
            Err(e) => Err(e),
        }
    }

    /// Takes over a text that is known to denote an identifier.
    pub fn from(s: String) -> (id: ClassId)
        requires
            Guid::parsed(s@) is Some,
        ensures
            Guid::parsed(s@) == Some(id.0),
    {
        match Guid::from_str(s.as_str()) {
            Ok(guid) => ClassId(guid),
            Err(_) => vstd::pervasive::unreached(),
        }
    }

    /// Writes the identifier in its canonical text.
    pub fn to_string(&self) -> (s: String)
        ensures
            s@ == self.0.text(),
    {
        self.0.to_string()
    }
}

/// The identifier of a course.
///
/// It wraps a [`Guid`], is equal when that is and is ordered as that is. No
/// conversion leads from one kind of identifier to another: to re-type one
/// on purpose, take the `Guid` out and wrap it again.
#[derive(Debug, Clone, Copy, PartialEq, Eq, Hash, Structural)]
pub struct CourseId(pub Guid);

impl PartialOrd for CourseId {
    fn partial_cmp(&self, other: &CourseId) -> (o: Option<Ordering>) {
        self.0.partial_cmp(&other.0)
    }
}

impl vstd::std_specs::cmp::PartialOrdSpecImpl for CourseId {
    open spec fn obeys_partial_cmp_spec() -> bool {
        true
    }

    open spec fn partial_cmp_spec(&self, other: &CourseId) -> Option<Ordering> {
        Some(self.0.order(other.0))
    }
}

impl CourseId {
    /// Parses an identifier, as [`Guid::from_str`] does.
    pub fn from_str(s: &str) -> (r: Result<CourseId, ModelError>)
        ensures
            match r {
                Ok(id) => Guid::parsed(s@) == Some(id.0),
                Err(e) => Guid::parsed(s@) is None && e == ModelError::MalformedIdentifier,
            },
    {
        match Guid::from_str(s) {
            Ok(guid) => Ok(CourseId(guid)),
            Err(e) => Err(e),
        }
    }

    /// Takes over a text that is known to denote an identifier.
    pub fn from(s: String) -> (id: CourseId)
        requires
            Guid::parsed(s@) is Some,
        ensures
            Guid::parsed(s@) == Some(id.0),
    {
        match Guid::from_str(s.as_str()) {
            Ok(guid) => CourseId(guid),
            Err(_) => vstd::pervasive::unreached(),
        }
    }

    /// Writes the identifier in its canonical text.
    pub fn to_string(&self) -> (s: String)
        ensures
            s@ == self.0.text(),
    {
        self.0.to_string()
    }
}

/// The identifier of a school.
///
/// It wraps a [`Guid`], is equal when that is and is ordered as that is. No
/// conversion leads from one kind of identifier to another: to re-type one
/// on purpose, take the `Guid` out and wrap it again.
#[derive(Debug, Clone, Copy, PartialEq, Eq, Hash, Structural)]
pub struct SchoolId(pub Guid);

impl PartialOrd for SchoolId {
    fn partial_cmp(&self, other: &SchoolId) -> (o: Option<Ordering>) {
        self.0.partial_cmp(&other.0)
    }
}

impl vstd::std_specs::cmp::PartialOrdSpecImpl for SchoolId {
    open spec fn obeys_partial_cmp_spec() -> bool {
        true
    }

    open spec fn partial_cmp_spec(&self, other: &SchoolId) -> Option<Ordering> {
        Some(self.0.order(other.0))
    }
}

impl SchoolId {
    /// Parses an identifier, as [`Guid::from_str`] does.
    pub fn from_str(s: &str) -> (r: Result<SchoolId, ModelError>)
        ensures
            match r {
                Ok(id) => Guid::parsed(s@) == Some(id.0),
                Err(e) => Guid::parsed(s@) is None && e == ModelError::MalformedIdentifier,
            },
    {
        match Guid::from_str(s) {
            Ok(guid) => Ok(SchoolId(guid)),
            Err(e) => Err(e),
        }
    }

    /// Takes over a text that is known to denote an identifier.
    pub fn from(s: String) -> (id: SchoolId)
        requires
            Guid::parsed(s@) is Some,
        ensures
            Guid::parsed(s@) == Some(id.0),
    {
        match Guid::from_str(s.as_str()) {
            Ok(guid) => SchoolId(guid),
            Err(_) => vstd::pervasive::unreached(),
        }
    }

    /// Writes the identifier in its canonical text.
    pub fn to_string(&self) -> (s: String)
        ensures
            s@ == self.0.text(),
    {
        self.0.to_string()
    }
}

/// The identifier of a resource.
///
/// It wraps a [`Guid`], is equal when that is and is ordered as that is. No
/// conversion leads from one kind of identifier to another: to re-type one
/// on purpose, take the `Guid` out and wrap it again.
#[derive(Debug, Clone, Copy, PartialEq, Eq, Hash, Structural)]
pub struct ResourceId(pub Guid);

impl PartialOrd for ResourceId {
    fn partial_cmp(&self, other: &ResourceId) -> (o: Option<Ordering>) {
        self.0.partial_cmp(&other.0)
    }
}

impl vstd::std_specs::cmp::PartialOrdSpecImpl for ResourceId {
    open spec fn obeys_partial_cmp_spec() -> bool {
        true
    }

    open spec fn partial_cmp_spec(&self, other: &ResourceId) -> Option<Ordering> {
        Some(self.0.order(other.0))
    }
}

impl ResourceId {
    /// Parses an identifier, as [`Guid::from_str`] does.
    pub fn from_str(s: &str) -> (r: Result<ResourceId, ModelError>)
        ensures
            match r {
                Ok(id) => Guid::parsed(s@) == Some(id.0),
                Err(e) => Guid::parsed(s@) is None && e == ModelError::MalformedIdentifier,
            },
    {
        match Guid::from_str(s) {
            Ok(guid) => Ok(ResourceId(guid)),
            Err(e) => Err(e),
        }
    }

    /// Takes over a text that is known to denote an identifier.
    pub fn from(s: String) -> (id: ResourceId)
        requires
            Guid::parsed(s@) is Some,
        ensures
            Guid::parsed(s@) == Some(id.0),
    {
        match Guid::from_str(s.as_str()) {
            Ok(guid) => ResourceId(guid),
            Err(_) => vstd::pervasive::unreached(),
        }
    }

    /// Writes the identifier in its canonical text.
    pub fn to_string(&self) -> (s: String)
        ensures
            s@ == self.0.text(),
    {
        self.0.to_string()
    }
}

/// A reference to another entity as the wire carries it: a link, an
/// identifier of no particular kind, and a tag that names a kind. Nothing
/// holds the tag to the identifier.
#[derive(Debug, Clone, PartialEq, Eq, PartialOrd, Hash)]
pub struct IdRef {
    pub href: String,
    pub id: AnyId,
    pub kind: String,
}

impl IdRef {
    /// What is wrong with the three fields of a reference as the wire gives
    /// them, if anything is: the first fault in the order link, identifier,
    /// tag. Each of the three must be there, and the identifier must parse.
    /// The tag is not held against anything.
    pub open spec fn wire_fault(
        href: Option<Seq<char>>,
        sourced_id: Option<Seq<char>>,
        kind: Option<Seq<char>>,
    ) -> Option<ModelError> {
        if href is None {
            Some(ModelError::MissingRequiredField)
        } else if sourced_id is None {
            Some(ModelError::MissingRequiredField)
        } else if Guid::parsed(sourced_id.unwrap()) is None {
            Some(ModelError::MalformedIdentifier)
        } else if kind is None {
            Some(ModelError::MissingRequiredField)
        } else {
            None
        }
    }

    /// Builds a reference from its three fields as the wire gives them.
    pub fn from_wire(href: Option<&str>, sourced_id: Option<&str>, kind: Option<&str>) -> (r:
        Result<IdRef, ModelError>)
        ensures
            match r {
                Ok(reference) => {
                    &&& href matches Some(h) && reference.href@ == h@
                    &&& sourced_id matches Some(t) && Guid::parsed(t@) == Some(reference.id.0)
                    &&& kind matches Some(k) && reference.kind@ == k@
                },
                Err(e) => Some(e) == IdRef::wire_fault(
                    chars_if_any(href),
                    chars_if_any(sourced_id),
                    chars_if_any(kind),
                ),
            },
    {
        let href = match href {
            Some(h) => h,
            None => {
                return Err(ModelError::MissingRequiredField);
            },
        };
        let sourced_id = match sourced_id {
            Some(t) => t,
            None => {
                return Err(ModelError::MissingRequiredField);
            },
        };
        let id = match AnyId::from_str(sourced_id) {
            Ok(id) => id,
            Err(e) => {
                return Err(e);
            },
        };
        let kind = match kind {
            Some(k) => k,
            None => {
                return Err(ModelError::MissingRequiredField);
            },
        };
        Ok(IdRef { href: href.to_owned(), id, kind: kind.to_owned() })
    }

    /// The identifier that is referred to, as that of a session. Link and tag are dropped.
    pub fn to_session_id(&self) -> (id: SessionId)
        ensures
            id == SessionId(self.id.0),
    {
        SessionId(self.id.0)
    }

    /// The identifier that is referred to, as that of a course. Link and tag are dropped.
    pub fn to_course_id(&self) -> (id: CourseId)
        ensures
            id == CourseId(self.id.0),
    {
        CourseId(self.id.0)
    }

    /// The identifier that is referred to, as that of a school. Link and tag are dropped.
    pub fn to_school_id(&self) -> (id: SchoolId)
        ensures
            id == SchoolId(self.id.0),
    {
        SchoolId(self.id.0)
    }

    /// The identifier that is referred to, as that of a resource. Link and tag are dropped.
    pub fn to_resource_id(&self) -> (id: ResourceId)
        ensures
            id == ResourceId(self.id.0),
    {
        ResourceId(self.id.0)
    }
}

/// The identifiers that `refs` refer to, each as that of a session, in order.
pub open spec fn session_ids_of(refs: Seq<IdRef>) -> Seq<SessionId> {
    refs.map_values(|r: IdRef| SessionId(r.id.0))
}

/// The identifiers that `refs` refer to, each as that of a resource, in order.
pub open spec fn resource_ids_of(refs: Seq<IdRef>) -> Seq<ResourceId> {
    refs.map_values(|r: IdRef| ResourceId(r.id.0))
}

/// Re-types each reference as the identifier of a session.
pub fn to_session_ids(refs: &Vec<IdRef>) -> (ids: Vec<SessionId>)
    ensures
        ids@ == session_ids_of(refs@),
{
    let mut ids: Vec<SessionId> = Vec::new();
    let mut i: usize = 0;
    while i < refs.len()
        invariant
            i <= refs.len(),
            ids@ == session_ids_of(refs@.take(i as int)),
        decreases refs.len() - i,
    {
        ids.push(refs[i].to_session_id());
        assert(refs@.take(i + 1) == refs@.take(i as int).push(refs@[i as int]));
        i += 1;
    }
    assert(refs@.take(i as int) == refs@);
    ids
}

/// Re-types each reference as the identifier of a resource.
pub fn to_resource_ids(refs: &Vec<IdRef>) -> (ids: Vec<ResourceId>)
    ensures
        ids@ == resource_ids_of(refs@),
{
    let mut ids: Vec<ResourceId> = Vec::new();
    let mut i: usize = 0;
    while i < refs.len()
        invariant
            i <= refs.len(),
            ids@ == resource_ids_of(refs@.take(i as int)),
        decreases refs.len() - i,
    {
        ids.push(refs[i].to_resource_id());
        assert(refs@.take(i + 1) == refs@.take(i as int).push(refs@[i as int]));
        i += 1;
    }
    assert(refs@.take(i as int) == refs@);
    ids
}

} // verus!
