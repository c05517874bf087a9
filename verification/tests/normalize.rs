use roster_model::class::{Class, ClassType, RawClass};
use roster_model::demographic::{Demographic, Ethnicity, Gender, RawDemographic};
use roster_model::error::ModelError;
use roster_model::grade::Grade;
use roster_model::id::{
    AnyId, ClassId, CourseId, Guid, IdRef, ResourceId, SchoolId, SessionId,
};
use roster_model::session::{RawAcademicSession, RawAcademicSessionKind, Session, SessionType};
use roster_model::status::Status;
use roster_model::time::{Date, FixedDateTime, RawDate, RawDateTime, RawTime};
use std::collections::HashMap;

fn id_of(text: &str) -> Guid {
    Guid::from_str(text).unwrap()
}

fn moment() -> RawDateTime {
    RawDateTime {
        date: RawDate::YMD { year: 2023, month: 2, day: 8 },
        time: RawTime {
            hour: 23,
            minute: 40,
            second: 0,
            millisecond: 0,
            tz_offset_hours: 1,
            tz_offset_minutes: 23,
        },
    }
}

fn instant() -> FixedDateTime {
    FixedDateTime { seconds: 1675894620, nanos: 0, offset_seconds: 4980 }
}

fn reference(id: &str, kind: &str) -> IdRef {
    IdRef {
        href: format!("https://example.org/{}/{}", kind, id),
        id: AnyId(id_of(id)),
        kind: String::from(kind),
    }
}

fn raw_class() -> RawClass {
    let mut metadata = HashMap::new();
    metadata.insert(String::from("room"), String::from("12b"));
    RawClass {
        id: ClassId(id_of("01234567-89AB-CDEF-0123-456789ABCDEF")),
        status: Status::deserialize("active").unwrap(),
        modified: moment(),
        metadata,
        title: String::from("Algebra I"),
        code: String::from("ALG-1"),
        kind: ClassType::deserialize("scheduled").unwrap(),
        location: String::from("Main building"),
        grades: vec![Grade::deserialize("09").unwrap(), Grade::deserialize("10").unwrap()],
        subjects: vec![String::from("mathematics")],
        course: Some(reference("0000000A-0001-0002-0003-00000000000B", "course")),
        school: Some(reference("FEDCBA98-7654-3210-FEDC-BA9876543210", "org")),
        terms: vec![
            reference("00000001-0000-0000-0000-000000000001", "academicSession"),
            reference("00000002-0000-0000-0000-000000000002", "academicSession"),
        ],
        subject_codes: vec![101, 7],
        periods: vec![String::from("1"), String::from("3")],
        resources: vec![reference("00000003-0000-0000-0000-000000000003", "resource")],
    }
}

fn raw_demographic() -> RawDemographic {
    RawDemographic {
        id: ResourceId(id_of("0000000C-0000-0000-0000-00000000000D")),
        status: Status::Active,
        modified: moment(),
        metadata: HashMap::new(),
        dob: Some(RawDate::YMD { year: 2008, month: 2, day: 29 }),
        gender: Some(Gender::Female),
        native_american: false,
        asian: false,
        black: false,
        pacific_islander: false,
        white: false,
        multi_race: false,
        hispanic: false,
        country_of_birth: Some(String::from("US")),
        state_of_birth: None,
        city_of_birth: Some(String::from("Springfield")),
        residency: None,
    }
}

fn raw_session() -> RawAcademicSession {
    RawAcademicSession {
        id: SessionId(id_of("00000010-0000-0000-0000-000000000010")),
        status: Status::ToBeDeleted,
        modified: moment(),
        start: RawDate::YMD { year: 2022, month: 9, day: 1 },
        end: RawDate::Ordinal { year: 2023, ddd: 39 },
        kind: RawAcademicSessionKind::Semester,
        name: String::from("Fall"),
        year: 2023,
        parent: Some(reference("00000011-0000-0000-0000-000000000011", "academicSession")),
        children: vec![
            reference("00000012-0000-0000-0000-000000000012", "academicSession"),
            reference("00000013-0000-0000-0000-000000000013", "class"),
        ],
        metadata: HashMap::new(),
    }
}

#[test]
fn class_end_to_end() {
    let raw = raw_class();
    let class = Class::from(raw.clone()).unwrap();
    assert_eq!(class.id, ClassId(id_of("01234567-89AB-CDEF-0123-456789ABCDEF")));
    assert_eq!(class.status, Status::Active);
    assert_eq!(class.kind, ClassType::Scheduled);
    assert_eq!(class.grades, vec![Grade::Ninth, Grade::Tenth]);
    assert_eq!(class.school_id, Some(SchoolId(id_of("FEDCBA98-7654-3210-FEDC-BA9876543210"))));
    assert_eq!(class.course_id, Some(CourseId(id_of("0000000A-0001-0002-0003-00000000000B"))));
    assert_eq!(
        class.terms,
        vec![
            SessionId(id_of("00000001-0000-0000-0000-000000000001")),
            SessionId(id_of("00000002-0000-0000-0000-000000000002")),
        ]
    );
    assert_eq!(
        class.resources,
        vec![ResourceId(id_of("00000003-0000-0000-0000-000000000003"))]
    );
    assert_eq!(class.modified, instant());
    assert_eq!(class.metadata, raw.metadata);
    assert_eq!(class.title, "Algebra I");
    assert_eq!(class.code, "ALG-1");
    assert_eq!(class.location, "Main building");
    assert_eq!(class.subjects, vec![String::from("mathematics")]);
    assert_eq!(class.subject_codes, vec![101, 7]);
    assert_eq!(class.periods, vec![String::from("1"), String::from("3")]);
}

#[test]
fn class_school_with_the_same_guid_as_the_class() {
    let mut raw = raw_class();
    raw.school = Some(reference("01234567-89AB-CDEF-0123-456789ABCDEF", "org"));
    let class = Class::from(raw).unwrap();
    assert_eq!(class.school_id, Some(SchoolId(id_of("01234567-89AB-CDEF-0123-456789ABCDEF"))));
    assert_eq!(class.school_id.unwrap().0, class.id.0);
}

#[test]
fn reference_tag_is_ignored() {
    let mut raw = raw_class();
    raw.school = Some(reference("FEDCBA98-7654-3210-FEDC-BA9876543210", "course"));
    raw.course = Some(reference("0000000A-0001-0002-0003-00000000000B", "school"));
    let class = Class::from(raw).unwrap();
    assert_eq!(class.school_id, Some(SchoolId(id_of("FEDCBA98-7654-3210-FEDC-BA9876543210"))));
    assert_eq!(class.course_id, Some(CourseId(id_of("0000000A-0001-0002-0003-00000000000B"))));
}

#[test]
fn absent_references_stay_absent() {
    let mut raw = raw_class();
    raw.school = None;
    raw.course = None;
    raw.terms = Vec::new();
    raw.resources = Vec::new();
    let class = Class::from(raw).unwrap();
    assert_eq!(class.school_id, None);
    assert_eq!(class.course_id, None);
    assert!(class.terms.is_empty());
    assert!(class.resources.is_empty());
}

#[test]
fn class_with_unresolvable_modified_fails() {
    let mut raw = raw_class();
    raw.modified.date = RawDate::YMD { year: 2023, month: 13, day: 1 };
    assert_eq!(Class::from(raw), Err(ModelError::UnresolvableTimestamp));
    let mut raw = raw_class();
    raw.modified.time.hour = 24;
    assert_eq!(Class::from(raw), Err(ModelError::UnresolvableTimestamp));
}

#[test]
fn class_from_resolved_takes_the_instant_as_given() {
    let given = FixedDateTime { seconds: 5, nanos: 6, offset_seconds: -7 };
    let class = Class::from_resolved(raw_class(), Some(given)).unwrap();
    assert_eq!(class.modified, given);
    assert_eq!(class.kind, ClassType::Scheduled);
    assert_eq!(Class::from_resolved(raw_class(), None), Err(ModelError::UnresolvableTimestamp));
}

#[test]
fn datetime_resolves_to_instant_and_offset() {
    assert_eq!(moment().into_fixed_offset(), Some(instant()));
    let mut utc = moment();
    utc.date = RawDate::YMD { year: 2021, month: 9, day: 1 };
    utc.time = RawTime {
        hour: 8,
        minute: 30,
        second: 15,
        millisecond: 250,
        tz_offset_hours: 0,
        tz_offset_minutes: 0,
    };
    assert_eq!(
        utc.into_fixed_offset(),
        Some(FixedDateTime { seconds: 1630485015, nanos: 250_000_000, offset_seconds: 0 })
    );
    let mut west = moment();
    west.time.tz_offset_hours = -5;
    west.time.tz_offset_minutes = -30;
    assert_eq!(
        west.into_fixed_offset(),
        Some(FixedDateTime { seconds: 1675919400, nanos: 0, offset_seconds: -19800 })
    );
}

#[test]
fn datetime_in_other_notations_resolves() {
    let mut ordinal = moment();
    ordinal.date = RawDate::Ordinal { year: 2023, ddd: 39 };
    assert_eq!(ordinal.into_fixed_offset(), Some(instant()));
}

#[test]
fn offset_of_a_day_or_more_does_not_resolve() {
    let mut m = moment();
    m.time.tz_offset_hours = 24;
    m.time.tz_offset_minutes = 0;
    assert_eq!(m.into_fixed_offset(), None);
    m.time.tz_offset_hours = -24;
    assert_eq!(m.into_fixed_offset(), None);
    m.time.tz_offset_hours = 23;
    m.time.tz_offset_minutes = 60;
    assert_eq!(m.into_fixed_offset(), None);
    m.time.tz_offset_minutes = 59;
    assert_eq!(m.into_fixed_offset().map(|f| f.offset_seconds), Some(86_340));
    m.time.tz_offset_hours = 25;
    m.time.tz_offset_minutes = -120;
    assert_eq!(m.into_fixed_offset().map(|f| f.offset_seconds), Some(82_800));
    m.time.tz_offset_hours = -23;
    m.time.tz_offset_minutes = -59;
    assert!(m.time.has_valid_offset());
    assert_eq!(m.into_fixed_offset().map(|f| f.offset_seconds), Some(-86_340));
    m.time.tz_offset_minutes = -60;
    assert!(!m.time.has_valid_offset());
    assert_eq!(m.into_fixed_offset(), None);
}

#[test]
fn offset_beyond_machine_range_does_not_resolve() {
    for (hours, minutes) in [
        (i32::MAX, 0),
        (i32::MIN, 0),
        (0, i32::MAX),
        (0, i32::MIN),
        (596_523, 35_791_394),
        (-596_523, -35_791_394),
        (596_524, 0),
        (0, 35_791_395),
    ] {
        let mut m = moment();
        m.time.tz_offset_hours = hours;
        m.time.tz_offset_minutes = minutes;
        assert!(!m.time.has_valid_offset());
        assert_eq!(m.into_fixed_offset(), None);
    }
    let mut m = moment();
    m.time.tz_offset_hours = 596_523;
    m.time.tz_offset_minutes = -35_791_380;
    assert!(m.time.has_valid_offset());
    assert_eq!(m.into_fixed_offset().map(|f| f.offset_seconds), Some(0));
}

#[test]
fn years_at_the_ends_do_not_resolve() {
    for year in [i32::MIN, i32::MAX] {
        assert_eq!(RawDate::YMD { year, month: 1, day: 1 }.into_naive(), None);
        assert_eq!(RawDate::Week { year, ww: 1, d: 1 }.into_naive(), None);
        assert_eq!(RawDate::Week { year, ww: 52, d: 6 }.into_naive(), None);
        assert_eq!(RawDate::Ordinal { year, ddd: 1 }.into_naive(), None);
        let mut m = moment();
        m.date = RawDate::Week { year, ww: 1, d: 0 };
        assert_eq!(m.into_fixed_offset(), None);
    }
    assert_eq!(RawDate::Week { year: i32::MIN + 1, ww: 1, d: 0 }.into_naive(), None);
    assert_eq!(RawDate::Week { year: i32::MAX - 1, ww: 53, d: 6 }.into_naive(), None);
}

#[test]
fn dates_resolve_to_calendar_days() {
    assert_eq!(
        RawDate::YMD { year: 2023, month: 2, day: 8 }.into_naive(),
        Some(Date { year: 2023, month: 2, day: 8 })
    );
    assert_eq!(
        RawDate::Ordinal { year: 2023, ddd: 39 }.into_naive(),
        Some(Date { year: 2023, month: 2, day: 8 })
    );
    assert_eq!(
        RawDate::Week { year: 2023, ww: 6, d: 2 }.into_naive(),
        Some(Date { year: 2023, month: 2, day: 8 })
    );
    assert_eq!(
        RawDate::YMD { year: 2024, month: 2, day: 29 }.into_naive(),
        Some(Date { year: 2024, month: 2, day: 29 })
    );
    assert_eq!(
        RawDate::Ordinal { year: 2024, ddd: 366 }.into_naive(),
        Some(Date { year: 2024, month: 12, day: 31 })
    );
}

#[test]
fn dates_that_name_no_day_do_not_resolve() {
    assert_eq!(RawDate::YMD { year: 2023, month: 2, day: 29 }.into_naive(), None);
    assert_eq!(RawDate::YMD { year: 2023, month: 0, day: 1 }.into_naive(), None);
    assert_eq!(RawDate::YMD { year: 2023, month: 4, day: 31 }.into_naive(), None);
    assert_eq!(RawDate::Ordinal { year: 2023, ddd: 366 }.into_naive(), None);
    assert_eq!(RawDate::Ordinal { year: 2023, ddd: 0 }.into_naive(), None);
    assert_eq!(RawDate::Week { year: 2023, ww: 54, d: 1 }.into_naive(), None);
    assert_eq!(RawDate::Week { year: 2023, ww: 1, d: 7 }.into_naive(), None);
}

#[test]
fn flags_expand_in_fixed_order() {
    let mut raw = raw_demographic();
    raw.white = true;
    raw.asian = true;
    let demographic = Demographic::from(raw).unwrap();
    assert_eq!(demographic.ethnicity, vec![Ethnicity::Asian, Ethnicity::White]);
}

#[test]
fn all_flags_expand_to_all_categories() {
    let mut raw = raw_demographic();
    raw.native_american = true;
    raw.asian = true;
    raw.black = true;
    raw.pacific_islander = true;
    raw.white = true;
    raw.hispanic = true;
    assert_eq!(
        raw.ethnicity_list(),
        vec![
            Ethnicity::Asian,
            Ethnicity::Black,
            Ethnicity::Hispanic,
            Ethnicity::NativeAmerican,
            Ethnicity::PacificIslander,
            Ethnicity::White,
        ]
    );
}

#[test]
fn each_flag_alone_expands_to_its_category() {
    let mut raw = raw_demographic();
    raw.native_american = true;
    assert_eq!(raw.ethnicity_list(), vec![Ethnicity::NativeAmerican]);
    let mut raw = raw_demographic();
    raw.black = true;
    assert_eq!(raw.ethnicity_list(), vec![Ethnicity::Black]);
    let mut raw = raw_demographic();
    raw.pacific_islander = true;
    assert_eq!(raw.ethnicity_list(), vec![Ethnicity::PacificIslander]);
    let mut raw = raw_demographic();
    raw.hispanic = true;
    assert_eq!(raw.ethnicity_list(), vec![Ethnicity::Hispanic]);
}

#[test]
fn multi_race_flag_adds_nothing() {
    let mut raw = raw_demographic();
    raw.multi_race = true;
    assert_eq!(raw.ethnicity_list(), Vec::new());
    raw.black = true;
    raw.hispanic = true;
    let with_flag = Demographic::from(raw.clone()).unwrap();
    raw.multi_race = false;
    let without_flag = Demographic::from(raw).unwrap();
    assert_eq!(with_flag.ethnicity, vec![Ethnicity::Black, Ethnicity::Hispanic]);
    assert_eq!(with_flag, without_flag);
}

#[test]
fn demographic_passes_scalars_through() {
    let raw = raw_demographic();
    let demographic = Demographic::from(raw.clone()).unwrap();
    assert_eq!(demographic.id, raw.id);
    assert_eq!(demographic.status, Status::Active);
    assert_eq!(demographic.modified, instant());
    assert_eq!(demographic.metadata, raw.metadata);
    assert_eq!(demographic.dob, Some(Date { year: 2008, month: 2, day: 29 }));
    assert_eq!(demographic.gender, Some(Gender::Female));
    assert_eq!(demographic.ethnicity, Vec::new());
    assert_eq!(demographic.country_of_birth, Some(String::from("US")));
    assert_eq!(demographic.state_of_birth, None);
    assert_eq!(demographic.city_of_birth, Some(String::from("Springfield")));
    assert_eq!(demographic.residency, None);
}

#[test]
fn date_of_birth_that_names_no_day_fails_the_record() {
    let mut raw = raw_demographic();
    raw.dob = Some(RawDate::YMD { year: 2009, month: 2, day: 29 });
    assert_eq!(Demographic::from(raw), Err(ModelError::UnresolvableTimestamp));
    let mut raw = raw_demographic();
    raw.dob = Some(RawDate::YMD { year: i32::MAX, month: 1, day: 1 });
    assert_eq!(Demographic::from(raw), Err(ModelError::UnresolvableTimestamp));
    let mut raw = raw_demographic();
    raw.dob = Some(RawDate::Ordinal { year: 2009, ddd: 366 });
    assert_eq!(Demographic::from(raw), Err(ModelError::UnresolvableTimestamp));
}

#[test]
fn date_of_birth_is_there_exactly_where_it_was_stated() {
    let mut raw = raw_demographic();
    raw.dob = None;
    assert_eq!(Demographic::from(raw).unwrap().dob, None);
    let mut raw = raw_demographic();
    raw.dob = Some(RawDate::YMD { year: 2008, month: 2, day: 29 });
    assert_eq!(
        Demographic::from(raw).unwrap().dob,
        Some(Date { year: 2008, month: 2, day: 29 })
    );
    let mut raw = raw_demographic();
    raw.dob = Some(RawDate::Ordinal { year: 2008, ddd: 60 });
    assert_eq!(
        Demographic::from(raw).unwrap().dob,
        Some(Date { year: 2008, month: 2, day: 29 })
    );
}

#[test]
fn demographic_from_resolved_holds_the_day_to_the_stated_date() {
    let day = Date { year: 2008, month: 2, day: 29 };
    let stated = raw_demographic();
    assert_eq!(
        Demographic::from_resolved(stated.clone(), Some(instant()), Some(day)).unwrap().dob,
        Some(day)
    );
    assert_eq!(
        Demographic::from_resolved(stated, Some(instant()), None),
        Err(ModelError::UnresolvableTimestamp)
    );
    let mut unstated = raw_demographic();
    unstated.dob = None;
    assert_eq!(
        Demographic::from_resolved(unstated.clone(), Some(instant()), None).unwrap().dob,
        None
    );
    assert_eq!(
        Demographic::from_resolved(unstated.clone(), Some(instant()), Some(day)).unwrap().dob,
        None
    );
    assert_eq!(
        Demographic::from_resolved(unstated, None, Some(day)),
        Err(ModelError::UnresolvableTimestamp)
    );
}

#[test]
fn demographic_with_unresolvable_modified_fails() {
    let mut raw = raw_demographic();
    raw.modified.time.tz_offset_hours = 30;
    assert_eq!(Demographic::from(raw), Err(ModelError::UnresolvableTimestamp));
    assert_eq!(
        Demographic::from_resolved(raw_demographic(), None, None),
        Err(ModelError::UnresolvableTimestamp)
    );
}

#[test]
fn session_normalizes() {
    let session = Session::from(raw_session()).unwrap();
    assert_eq!(session.id, SessionId(id_of("00000010-0000-0000-0000-000000000010")));
    assert_eq!(session.status, Status::ToBeDeleted);
    assert_eq!(session.modified, instant());
    assert_eq!(session.title, "Fall");
    assert_eq!(session.start, Date { year: 2022, month: 9, day: 1 });
    assert_eq!(session.end, Date { year: 2023, month: 2, day: 8 });
    assert_eq!(
        session.parent_id,
        Some(SessionId(id_of("00000011-0000-0000-0000-000000000011")))
    );
    assert_eq!(
        session.children,
        vec![
            SessionId(id_of("00000012-0000-0000-0000-000000000012")),
            SessionId(id_of("00000013-0000-0000-0000-000000000013")),
        ]
    );
    assert_eq!(session.school_year, 2023);
    assert_eq!(session.kind, SessionType::Semester);
}

#[test]
fn session_with_unresolvable_parts_fails() {
    let mut raw = raw_session();
    raw.start = RawDate::YMD { year: 2022, month: 9, day: 31 };
    assert_eq!(Session::from(raw), Err(ModelError::UnresolvableTimestamp));
    let mut raw = raw_session();
    raw.end = RawDate::Ordinal { year: 2023, ddd: 366 };
    assert_eq!(Session::from(raw), Err(ModelError::UnresolvableTimestamp));
    let mut raw = raw_session();
    raw.modified.time.minute = 60;
    assert_eq!(Session::from(raw), Err(ModelError::UnresolvableTimestamp));
    let day = Some(Date { year: 2022, month: 9, day: 1 });
    assert_eq!(
        Session::from_resolved(raw_session(), None, day, day),
        Err(ModelError::UnresolvableTimestamp)
    );
    assert_eq!(
        Session::from_resolved(raw_session(), Some(instant()), None, day),
        Err(ModelError::UnresolvableTimestamp)
    );
    assert_eq!(
        Session::from_resolved(raw_session(), Some(instant()), day, None),
        Err(ModelError::UnresolvableTimestamp)
    );
}

#[test]
fn references_are_retyped_one_by_one() {
    let r = reference("0000000A-0001-0002-0003-00000000000B", "anything");
    let g = id_of("0000000A-0001-0002-0003-00000000000B");
    assert_eq!(r.to_session_id(), SessionId(g));
    assert_eq!(r.to_course_id(), CourseId(g));
    assert_eq!(r.to_school_id(), SchoolId(g));
    assert_eq!(r.to_resource_id(), ResourceId(g));
}

#[test]
fn reference_is_built_from_its_wire_fields() {
    let r = IdRef::from_wire(
        Some("https://example.org/schools/7"),
        Some("0000000a-1-2-3-b"),
        Some("course"),
    )
    .unwrap();
    assert_eq!(r.href, "https://example.org/schools/7");
    assert_eq!(r.id, AnyId(id_of("0000000A-0001-0002-0003-00000000000B")));
    assert_eq!(r.kind, "course");
    assert_eq!(r.to_school_id(), SchoolId(id_of("0000000A-0001-0002-0003-00000000000B")));
}

#[test]
fn reference_with_an_absent_field_is_refused() {
    let id = Some("0000000A-0001-0002-0003-00000000000B");
    assert_eq!(IdRef::from_wire(None, id, Some("org")), Err(ModelError::MissingRequiredField));
    assert_eq!(IdRef::from_wire(Some("h"), None, Some("org")), Err(ModelError::MissingRequiredField));
    assert_eq!(IdRef::from_wire(Some("h"), id, None), Err(ModelError::MissingRequiredField));
    assert_eq!(IdRef::from_wire(None, None, None), Err(ModelError::MissingRequiredField));
}

#[test]
fn reference_faults_are_reported_in_field_order() {
    assert_eq!(
        IdRef::from_wire(Some("h"), Some("not-an-id"), Some("org")),
        Err(ModelError::MalformedIdentifier)
    );
    assert_eq!(
        IdRef::from_wire(Some("h"), Some("not-an-id"), None),
        Err(ModelError::MalformedIdentifier)
    );
    assert_eq!(
        IdRef::from_wire(None, Some("not-an-id"), None),
        Err(ModelError::MissingRequiredField)
    );
}

#[test]
fn class_end_to_end_from_wire_texts() {
    let id = "01234567-89AB-CDEF-0123-456789ABCDEF";
    let raw = RawClass {
        id: ClassId::from_str(id).unwrap(),
        status: Status::deserialize("active").unwrap(),
        modified: RawDateTime::parse("2023-02-08T23:40:00+01:23").unwrap(),
        metadata: HashMap::new(),
        title: String::from("Algebra I"),
        code: String::from("ALG-1"),
        kind: ClassType::deserialize("scheduled").unwrap(),
        location: String::new(),
        grades: vec![Grade::deserialize("09").unwrap(), Grade::deserialize("10").unwrap()],
        subjects: Vec::new(),
        course: None,
        school: Some(IdRef::from_wire(Some("/schools/1"), Some(id), Some("course")).unwrap()),
        terms: Vec::new(),
        subject_codes: Vec::new(),
        periods: Vec::new(),
        resources: Vec::new(),
    };
    let class = Class::from(raw).unwrap();
    assert_eq!(class.id.to_string(), id);
    assert_eq!(class.school_id, Some(SchoolId(id_of(id))));
    assert_eq!(class.school_id.unwrap().to_string(), id);
    assert_eq!(class.kind, ClassType::Scheduled);
    assert_eq!(class.grades, vec![Grade::Ninth, Grade::Tenth]);
    assert_eq!(class.status, Status::Active);
    assert_eq!(class.modified, instant());
    assert_eq!(class.course_id, None);
}
