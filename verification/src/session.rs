//! Academic sessions: the record as the wire carries it and the record that
//! it normalizes to.

use vstd::prelude::*;
use std::collections::HashMap;
use crate::error::{CodecDomain, ModelError};
use crate::id::{session_ids_of, to_session_ids, IdRef, SessionId};
use crate::status::Status;
use crate::text::text_eq;
use crate::time::{Date, FixedDateTime, RawDate, RawDateTime};

verus! {

/// The kind of an academic session as the wire names it.
#[derive(Debug, Clone, Copy, PartialEq, Eq, Hash, Structural)]
pub enum RawAcademicSessionKind {
    GradingPeriod,
    Semester,
    SchoolYear,
    Term,
}

impl RawAcademicSessionKind {
    /// The code that is written for the kind, in lower case throughout.
    pub open spec fn code(self) -> Seq<char> {
        match self {
            RawAcademicSessionKind::GradingPeriod => "gradingperiod"@,
            RawAcademicSessionKind::Semester => "semester"@,
            RawAcademicSessionKind::SchoolYear => "schoolyear"@,
            RawAcademicSessionKind::Term => "term"@,
        }
    }

    /// The kind that `text` is read as, if it is a code that is read. The
    /// codes that are read are in camel case: for two kinds they are not the
    /// codes that are written.
    pub open spec fn decoded(text: Seq<char>) -> Option<RawAcademicSessionKind> {
        if text == "gradingPeriod"@ {
            Some(RawAcademicSessionKind::GradingPeriod)
        } else if text == "semester"@ {
            Some(RawAcademicSessionKind::Semester)
        } else if text == "schoolYear"@ {
            Some(RawAcademicSessionKind::SchoolYear)
        } else if text == "term"@ {
            Some(RawAcademicSessionKind::Term)
        } else {
            None
        }
    }

    /// Whether the code that is written for the kind is also the code that
    /// is read for it.
    pub open spec fn has_one_code(self) -> bool {
        self == RawAcademicSessionKind::Semester || self == RawAcademicSessionKind::Term
    }

    /// The wire code that is written for the kind.
    pub fn serialize(&self) -> (code: &'static str)
        ensures
            code@ == self.code(),
    {
        match self {
            RawAcademicSessionKind::GradingPeriod => "gradingperiod",
            RawAcademicSessionKind::Semester => "semester",
            RawAcademicSessionKind::SchoolYear => "schoolyear",
            RawAcademicSessionKind::Term => "term",
        }
    }

    /// Reads a wire code.
    pub fn deserialize(text: &str) -> (r: Result<RawAcademicSessionKind, ModelError>)
        ensures
            match r {
                Ok(kind) => RawAcademicSessionKind::decoded(text@) == Some(kind),
                Err(e) => RawAcademicSessionKind::decoded(text@) is None && e.is_unknown_code(
                    CodecDomain::SessionKind,
                    text@,
                ),
            },
    {
        if text_eq(text, "gradingPeriod") {
            Ok(RawAcademicSessionKind::GradingPeriod)
        } else if text_eq(text, "semester") {
            Ok(RawAcademicSessionKind::Semester)
        } else if text_eq(text, "schoolYear") {
            Ok(RawAcademicSessionKind::SchoolYear)
        } else if text_eq(text, "term") {
            Ok(RawAcademicSessionKind::Term)
        } else {
            Err(ModelError::unknown_code(CodecDomain::SessionKind, text))
        }
    }

    /// The kind as the normal form names it.
    pub open spec fn session_type(self) -> SessionType {
        match self {
            RawAcademicSessionKind::GradingPeriod => SessionType::GradingPeriod,
            RawAcademicSessionKind::Semester => SessionType::Semester,
            RawAcademicSessionKind::SchoolYear => SessionType::SchoolYear,
            RawAcademicSessionKind::Term => SessionType::Term,
        }
    }

    /// The kind as the normal form names it.
    pub fn to_session_type(&self) -> (kind: SessionType)
        ensures
            kind == self.session_type(),
    {
        match self {
            RawAcademicSessionKind::GradingPeriod => SessionType::GradingPeriod,
            RawAcademicSessionKind::Semester => SessionType::Semester,
            RawAcademicSessionKind::SchoolYear => SessionType::SchoolYear,
            RawAcademicSessionKind::Term => SessionType::Term,
        }
    }
}

/// A kind that has one code is read back from the code that is written
/// for it. A kind that has two is not: the code that is written for it is
/// read as no kind at all.
pub proof fn lemma_session_kind_code_round_trip(kind: RawAcademicSessionKind)
    ensures
        kind.has_one_code() ==> RawAcademicSessionKind::decoded(kind.code()) == Some(kind),
        !kind.has_one_code() ==> RawAcademicSessionKind::decoded(kind.code()) is None,
{
    reveal_strlit("gradingperiod");
    reveal_strlit("semester");
    reveal_strlit("schoolyear");
    reveal_strlit("term");
    reveal_strlit("gradingPeriod");
    reveal_strlit("schoolYear");
    assert("gradingperiod"@[7] == 'p' && "gradingPeriod"@[7] == 'P');
    assert("schoolyear"@[6] == 'y' && "schoolYear"@[6] == 'Y');
    assert("gradingperiod"@.len() == 13 && "semester"@.len() == 8 && "schoolyear"@.len() == 10
        && "term"@.len() == 4);
    assert("gradingPeriod"@.len() == 13 && "schoolYear"@.len() == 10);
}

/// An academic session as the wire carries it.
#[derive(Debug, Clone, PartialEq, Eq)]
pub struct RawAcademicSession {
    pub id: SessionId,
    pub status: Status,
    pub modified: RawDateTime,
    pub start: RawDate,
    pub end: RawDate,
    pub kind: RawAcademicSessionKind,
    pub name: String,
    pub year: u16,
    pub parent: Option<IdRef>,
    pub children: Vec<IdRef>,
    pub metadata: HashMap<String, String>,
}

/// The kind of an academic session.
#[derive(Debug, Clone, Copy, PartialEq, Eq, Hash, Structural)]
pub enum SessionType {
    GradingPeriod,
    Semester,
    SchoolYear,
    Term,
}

/// An academic session in its normal form. The metadata of the wire record
/// is not kept.
#[derive(Debug, Clone, PartialEq, Eq)]
pub struct Session {
    pub id: SessionId,
    pub status: Status,
    pub modified: FixedDateTime,
    pub title: String,
    pub start: Date,
    pub end: Date,
    pub parent_id: Option<SessionId>,
    pub children: Vec<SessionId>,
    pub school_year: u16,
    pub kind: SessionType,
}

impl Session {
    /// Whether `self` is the normal form of `raw`, given the instant that the
    /// time of modification resolved to and the days that the two dates
    /// resolved to. Parent and children have become identifiers of sessions,
    /// whatever tags they bore.
    pub open spec fn is_normal_form_of(
        self,
        raw: RawAcademicSession,
        modified: FixedDateTime,
        start: Date,
        end: Date,
    ) -> bool {
        &&& self.id == raw.id
        &&& self.status == raw.status
        &&& self.modified == modified
        &&& self.title == raw.name
        &&& self.start == start
        &&& self.end == end
        &&& self.parent_id == match raw.parent {
            Some(r) => Some(SessionId(r.id.0)),
            None => None,
        }
        &&& self.children@ == session_ids_of(raw.children@)
        &&& self.school_year == raw.year
        &&& self.kind == raw.kind.session_type()
    }

    /// Normalizes `raw`, given what its time of modification and its two
    /// dates resolved to. It fails if and only if one of the three is missing.
    pub fn from_resolved(
        raw: RawAcademicSession,
        modified: Option<FixedDateTime>,
        start: Option<Date>,
        end: Option<Date>,
    ) -> (r: Result<Session, ModelError>)
        ensures
            match (modified, start, end) {
                (Some(m), Some(s), Some(e)) => r matches Ok(session) && session.is_normal_form_of(
                    raw,
                    m,
                    s,
                    e,
                ),
                _ => r matches Err(e) && e == ModelError::UnresolvableTimestamp,
            },
    {
        let (modified, start, end) = match (modified, start, end) {
            (Some(m), Some(s), Some(e)) => (m, s, e),
            _ => {
                return Err(ModelError::UnresolvableTimestamp);
            },
        };
        let parent_id = match &raw.parent {
            Some(r) => Some(r.to_session_id()),
            None => None,
        };
        let children = to_session_ids(&raw.children);
        Ok(
            Session {
                id: raw.id,
                status: raw.status,
                modified,
                title: raw.name,
                start,
                end,
                parent_id,
                children,
                school_year: raw.year,
                kind: raw.kind.to_session_type(),
            },
        )
    }

    /// Normalizes `raw`. It fails if and only if the time of modification
    /// resolves to no instant or one of the two dates names no day. The
    /// instant keeps the offset that the time was written in, and a date
    /// written as year, month and day stays those three.
    pub fn from(raw: RawAcademicSession) -> (r: Result<Session, ModelError>)
        ensures
            match (raw.modified.resolved(), raw.start.resolved(), raw.end.resolved()) {
                (Some(m), Some(s), Some(e)) => r matches Ok(session) && session.is_normal_form_of(
                    raw,
                    m,
                    s,
                    e,
                ),
                _ => r matches Err(e) && e == ModelError::UnresolvableTimestamp,
            },
            r matches Ok(session) ==> session.modified.offset_seconds
                == raw.modified.time.offset_seconds(),
            r matches Ok(session) ==> raw.start.is_kept_by(session.start) && raw.end.is_kept_by(
                session.end,
            ),
    {
        let modified = raw.modified.into_fixed_offset();
        let start = raw.start.into_naive();
        let end = raw.end.into_naive();
        Session::from_resolved(raw, modified, start, end)
    }
}

} // verus!
