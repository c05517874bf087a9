use roster_model::class::ClassType;
use roster_model::demographic::Gender;
use roster_model::error::{CodecDomain, ModelError};
use roster_model::grade::Grade;
use roster_model::session::{RawAcademicSessionKind, SessionType};
use roster_model::status::Status;

fn unknown(domain: CodecDomain, text: &str) -> ModelError {
    ModelError::UnknownEnumCode(domain, String::from(text))
}

#[test]
fn status_codes() {
    assert_eq!(Status::Active.serialize(), "active");
    assert_eq!(Status::ToBeDeleted.serialize(), "tobedeleted");
    assert_eq!(Status::deserialize("active"), Ok(Status::Active));
    assert_eq!(Status::deserialize("tobedeleted"), Ok(Status::ToBeDeleted));
}

#[test]
fn status_alias_is_read_and_never_written() {
    assert_eq!(Status::deserialize("inactive"), Ok(Status::ToBeDeleted));
    assert_eq!(Status::deserialize("inactive").unwrap().serialize(), "tobedeleted");
}

#[test]
fn status_round_trip() {
    for status in [Status::Active, Status::ToBeDeleted] {
        assert_eq!(Status::deserialize(status.serialize()), Ok(status));
    }
}

#[test]
fn unknown_status_code() {
    assert_eq!(Status::deserialize("Active"), Err(unknown(CodecDomain::Status, "Active")));
    assert_eq!(Status::deserialize(""), Err(unknown(CodecDomain::Status, "")));
    assert_eq!(Status::deserialize("active "), Err(unknown(CodecDomain::Status, "active ")));
    assert_eq!(Status::deserialize("deleted"), Err(unknown(CodecDomain::Status, "deleted")));
}

#[test]
fn grade_codes() {
    let table = [
        (Grade::PreK, "PK"),
        (Grade::Kindergarten, "KG"),
        (Grade::First, "01"),
        (Grade::Second, "02"),
        (Grade::Third, "03"),
        (Grade::Fourth, "04"),
        (Grade::Fifth, "05"),
        (Grade::Sixth, "06"),
        (Grade::Seventh, "07"),
        (Grade::Eighth, "08"),
        (Grade::Ninth, "09"),
        (Grade::Tenth, "10"),
        (Grade::Eleventh, "11"),
        (Grade::Twelfth, "12"),
    ];
    for (grade, code) in table {
        assert_eq!(grade.serialize(), code);
        assert_eq!(Grade::deserialize(code), Ok(grade));
        assert_eq!(Grade::deserialize(grade.serialize()), Ok(grade));
    }
}

#[test]
fn unknown_grade_code() {
    assert_eq!(Grade::deserialize("1"), Err(unknown(CodecDomain::Grade, "1")));
    assert_eq!(Grade::deserialize("13"), Err(unknown(CodecDomain::Grade, "13")));
    assert_eq!(Grade::deserialize("00"), Err(unknown(CodecDomain::Grade, "00")));
    assert_eq!(Grade::deserialize("pk"), Err(unknown(CodecDomain::Grade, "pk")));
    assert_eq!(Grade::deserialize("012"), Err(unknown(CodecDomain::Grade, "012")));
}

#[test]
fn class_type_codes() {
    assert_eq!(ClassType::Homeroom.serialize(), "homeroom");
    assert_eq!(ClassType::Scheduled.serialize(), "scheduled");
    for kind in [ClassType::Homeroom, ClassType::Scheduled] {
        assert_eq!(ClassType::deserialize(kind.serialize()), Ok(kind));
    }
    assert_eq!(
        ClassType::deserialize("Scheduled"),
        Err(unknown(CodecDomain::ClassType, "Scheduled"))
    );
}

#[test]
fn gender_codes() {
    assert_eq!(Gender::Male.serialize(), "male");
    assert_eq!(Gender::Female.serialize(), "female");
    for gender in [Gender::Male, Gender::Female] {
        assert_eq!(Gender::deserialize(gender.serialize()), Ok(gender));
    }
    assert_eq!(Gender::deserialize("other"), Err(unknown(CodecDomain::Gender, "other")));
}

#[test]
fn session_kind_is_read_in_camel_case() {
    assert_eq!(
        RawAcademicSessionKind::deserialize("gradingPeriod"),
        Ok(RawAcademicSessionKind::GradingPeriod)
    );
    assert_eq!(
        RawAcademicSessionKind::deserialize("semester"),
        Ok(RawAcademicSessionKind::Semester)
    );
    assert_eq!(
        RawAcademicSessionKind::deserialize("schoolYear"),
        Ok(RawAcademicSessionKind::SchoolYear)
    );
    assert_eq!(RawAcademicSessionKind::deserialize("term"), Ok(RawAcademicSessionKind::Term));
}

#[test]
fn session_kind_is_written_in_lower_case() {
    assert_eq!(RawAcademicSessionKind::GradingPeriod.serialize(), "gradingperiod");
    assert_eq!(RawAcademicSessionKind::Semester.serialize(), "semester");
    assert_eq!(RawAcademicSessionKind::SchoolYear.serialize(), "schoolyear");
    assert_eq!(RawAcademicSessionKind::Term.serialize(), "term");
}

#[test]
fn session_kind_round_trip_holds_for_two_kinds_only() {
    for kind in [RawAcademicSessionKind::Semester, RawAcademicSessionKind::Term] {
        assert_eq!(RawAcademicSessionKind::deserialize(kind.serialize()), Ok(kind));
    }
    assert_eq!(
        RawAcademicSessionKind::deserialize(RawAcademicSessionKind::GradingPeriod.serialize()),
        Err(unknown(CodecDomain::SessionKind, "gradingperiod"))
    );
    assert_eq!(
        RawAcademicSessionKind::deserialize(RawAcademicSessionKind::SchoolYear.serialize()),
        Err(unknown(CodecDomain::SessionKind, "schoolyear"))
    );
}

#[test]
fn session_kind_becomes_session_type() {
    assert_eq!(
        RawAcademicSessionKind::GradingPeriod.to_session_type(),
        SessionType::GradingPeriod
    );
    assert_eq!(RawAcademicSessionKind::Semester.to_session_type(), SessionType::Semester);
    assert_eq!(RawAcademicSessionKind::SchoolYear.to_session_type(), SessionType::SchoolYear);
    assert_eq!(RawAcademicSessionKind::Term.to_session_type(), SessionType::Term);
}
