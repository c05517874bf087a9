//! Classes: the record as the wire carries it and the record that it
//! normalizes to.

use vstd::prelude::*;
use std::collections::HashMap;
use crate::error::{CodecDomain, ModelError};
use crate::grade::Grade;
use crate::id::{
    resource_ids_of, session_ids_of, to_resource_ids, to_session_ids, ClassId, CourseId, IdRef,
    ResourceId, SchoolId, SessionId,
};
use crate::status::Status;
use crate::text::text_eq;
use crate::time::{FixedDateTime, RawDateTime};

verus! {

/// Whether a class is a homeroom or is scheduled.
#[derive(Debug, Clone, Copy, PartialEq, Eq, Hash, Structural)]
pub enum ClassType {
    Homeroom,
    Scheduled,
}

impl ClassType {
    /// The code that is written for the type.
    pub open spec fn code(self) -> Seq<char> {
        match self {
            ClassType::Homeroom => "homeroom"@,
            ClassType::Scheduled => "scheduled"@,
        }
    }

    /// The type that `text` is read as, if it is a code.
    pub open spec fn decoded(text: Seq<char>) -> Option<ClassType> {
        if text == "homeroom"@ {
            Some(ClassType::Homeroom)
        } else if text == "scheduled"@ {
            Some(ClassType::Scheduled)
        } else {
            None
        }
    }

    /// The wire code of the type.
    pub fn serialize(&self) -> (code: &'static str)
        ensures
            code@ == self.code(),
    {
        match self {
            ClassType::Homeroom => "homeroom",
            ClassType::Scheduled => "scheduled",
        }
    }

    /// Reads a wire code.
    pub fn deserialize(text: &str) -> (r: Result<ClassType, ModelError>)
        ensures
            match r {
                Ok(kind) => ClassType::decoded(text@) == Some(kind),
                Err(e) => ClassType::decoded(text@) is None && e.is_unknown_code(
                    CodecDomain::ClassType,
                    text@,
                ),
            },
    {
        if text_eq(text, "homeroom") {
            Ok(ClassType::Homeroom)
        } else if text_eq(text, "scheduled") {
            Ok(ClassType::Scheduled)
        } else {
            Err(ModelError::unknown_code(CodecDomain::ClassType, text))
        }
    }
}

/// Every class type is read back from the code that is written for it.
pub proof fn lemma_class_type_code_round_trip(kind: ClassType)
    ensures
        ClassType::decoded(kind.code()) == Some(kind),
{
    reveal_strlit("homeroom");
    reveal_strlit("scheduled");
    assert("homeroom"@.len() != "scheduled"@.len());
}

/// A class as the wire carries it: scalars decoded, references still generic.
#[derive(Debug, Clone, PartialEq, Eq)]
pub struct RawClass {
    pub id: ClassId,
    pub status: Status,
    pub modified: RawDateTime,
    pub metadata: HashMap<String, String>,
    pub title: String,
    pub code: String,
    pub kind: ClassType,
    pub location: String,
    pub grades: Vec<Grade>,
    pub subjects: Vec<String>,
    pub course: Option<IdRef>,
    pub school: Option<IdRef>,
    pub terms: Vec<IdRef>,
    pub subject_codes: Vec<u16>,
    pub periods: Vec<String>,
    pub resources: Vec<IdRef>,
}

/// A class in its normal form: every reference is an identifier of the kind
/// that its field calls for, and the time of modification is an instant.
#[derive(Debug, Clone, PartialEq, Eq)]
pub struct Class {
    pub id: ClassId,
    pub status: Status,
    pub modified: FixedDateTime,
    pub metadata: HashMap<String, String>,
    pub title: String,
    pub code: String,
    pub kind: ClassType,
    pub location: String,
    pub grades: Vec<Grade>,
    pub subjects: Vec<String>,
    pub course_id: Option<CourseId>,
    pub school_id: Option<SchoolId>,
    pub terms: Vec<SessionId>,
    pub subject_codes: Vec<u16>,
    pub periods: Vec<String>,
    pub resources: Vec<ResourceId>,
}

impl Class {
    /// Whether `self` is the normal form of `raw`, given the instant that the
    /// time of modification resolved to. Scalars, lists and metadata are those
    /// of `raw`. Each reference has become the identifier of the kind that its
    /// field calls for, whatever tag it bore; its link and tag are gone.
    pub open spec fn is_normal_form_of(self, raw: RawClass, modified: FixedDateTime) -> bool {
        &&& self.id == raw.id
        &&& self.status == raw.status
        &&& self.modified == modified
        &&& self.metadata == raw.metadata
        &&& self.title == raw.title
        &&& self.code == raw.code
        &&& self.kind == raw.kind
        &&& self.location == raw.location
        &&& self.grades == raw.grades
        &&& self.subjects == raw.subjects
        &&& self.course_id == match raw.course {
            Some(r) => Some(CourseId(r.id.0)),
            None => None,
        }
        &&& self.school_id == match raw.school {
            Some(r) => Some(SchoolId(r.id.0)),
            None => None,
        }
        &&& self.terms@ == session_ids_of(raw.terms@)
        &&& self.subject_codes == raw.subject_codes
        &&& self.periods == raw.periods
        &&& self.resources@ == resource_ids_of(raw.resources@)
    }

    /// Normalizes `raw`, given what its time of modification resolved to.
    pub fn from_resolved(raw: RawClass, modified: Option<FixedDateTime>) -> (r: Result<
        Class,
        ModelError,
    >)
        ensures
            match modified {
                Some(m) => r matches Ok(class) && class.is_normal_form_of(raw, m),
                None => r matches Err(e) && e == ModelError::UnresolvableTimestamp,
            },
    {
        let modified = match modified {
            Some(m) => m,
            None => {
                return Err(ModelError::UnresolvableTimestamp);
            },
        };
        let course_id = match &raw.course {
            Some(r) => Some(r.to_course_id()),
            None => None,
        };
        let school_id = match &raw.school {
            Some(r) => Some(r.to_school_id()),
            None => None,
        };
        let terms = to_session_ids(&raw.terms);
        let resources = to_resource_ids(&raw.resources);
        Ok(
            Class {
                id: raw.id,
                status: raw.status,
                modified,
                metadata: raw.metadata,
                title: raw.title,
                code: raw.code,
                kind: raw.kind,
                location: raw.location,
                grades: raw.grades,
                subjects: raw.subjects,
                course_id,
                school_id,
                terms,
                subject_codes: raw.subject_codes,
                periods: raw.periods,
                resources,
            },
        )
    }

    /// Normalizes `raw`. It fails if and only if the time of modification
    /// resolves to no instant. The instant keeps the offset that the time was
    /// written in.
    pub fn from(raw: RawClass) -> (r: Result<Class, ModelError>)
        ensures
            match raw.modified.resolved() {
                Some(m) => r matches Ok(class) && class.is_normal_form_of(raw, m),
                None => r matches Err(e) && e == ModelError::UnresolvableTimestamp,
            },
            r matches Ok(class) ==> class.modified.offset_seconds
                == raw.modified.time.offset_seconds(),
    {
        let modified = raw.modified.into_fixed_offset();
        Class::from_resolved(raw, modified)
    }
}

} // verus!
