//! Demographics: the record as the wire carries it and the record that it
//! normalizes to.

use vstd::prelude::*;
use std::collections::HashMap;
use crate::error::{CodecDomain, ModelError};
use crate::id::ResourceId;
use crate::status::Status;
use crate::text::text_eq;
use crate::time::{Date, FixedDateTime, RawDate, RawDateTime};

verus! {

/// The sex that a demographic record states.
#[derive(Debug, Clone, Copy, PartialEq, Eq, Hash, Structural)]
pub enum Gender {
    Male,
    Female,
}

impl Gender {
    /// The code that is written for the gender.
    pub open spec fn code(self) -> Seq<char> {
        match self {
            Gender::Male => "male"@,
            Gender::Female => "female"@,
        }
    }

    /// The gender that `text` is read as, if it is a code.
    pub open spec fn decoded(text: Seq<char>) -> Option<Gender> {
        if text == "male"@ {
            Some(Gender::Male)
        } else if text == "female"@ {
            Some(Gender::Female)
        } else {
            None
        }
    }

    /// The wire code of the gender.
    pub fn serialize(&self) -> (code: &'static str)
        ensures
            code@ == self.code(),
    {
        match self {
            Gender::Male => "male",
            Gender::Female => "female",
        }
    }

    /// Reads a wire code.
    pub fn deserialize(text: &str) -> (r: Result<Gender, ModelError>)
        ensures
            match r {
                Ok(gender) => Gender::decoded(text@) == Some(gender),
                Err(e) => Gender::decoded(text@) is None && e.is_unknown_code(
                    CodecDomain::Gender,
                    text@,
                ),
            },
    {
        if text_eq(text, "male") {
            Ok(Gender::Male)
        } else if text_eq(text, "female") {
            Ok(Gender::Female)
        } else {
            Err(ModelError::unknown_code(CodecDomain::Gender, text))
        }
    }
}

/// Every gender is read back from the code that is written for it.
pub proof fn lemma_gender_code_round_trip(gender: Gender)
    ensures
        Gender::decoded(gender.code()) == Some(gender),
{
    reveal_strlit("male");
    reveal_strlit("female");
    assert("male"@.len() != "female"@.len());
}

/// A category of race or ethnicity.
#[derive(Debug, Clone, Copy, PartialEq, Eq, Hash, Structural)]
pub enum Ethnicity {
    NativeAmerican,
    Asian,
    Black,
    PacificIslander,
    White,
    Hispanic,
}

/// A demographic record as the wire carries it. Each category of race or
/// ethnicity is a flag of its own.
#[derive(Debug, Clone, PartialEq, Eq)]
pub struct RawDemographic {
    pub id: ResourceId,
    pub status: Status,
    pub modified: RawDateTime,
    pub metadata: HashMap<String, String>,
    pub dob: Option<RawDate>,
    pub gender: Option<Gender>,
    pub native_american: bool,
    pub asian: bool,
    pub black: bool,
    pub pacific_islander: bool,
    pub white: bool,
    pub multi_race: bool,
    pub hispanic: bool,
    pub country_of_birth: Option<String>,
    pub state_of_birth: Option<String>,
    pub city_of_birth: Option<String>,
    pub residency: Option<String>,
}

/// A demographic record in its normal form: the flags have become one list
/// of categories.
#[derive(Debug, Clone, PartialEq, Eq)]
pub struct Demographic {
    pub id: ResourceId,
    pub status: Status,
    pub modified: FixedDateTime,
    pub metadata: HashMap<String, String>,
    pub dob: Option<Date>,
    pub gender: Option<Gender>,
    pub ethnicity: Vec<Ethnicity>,
    pub country_of_birth: Option<String>,
    pub state_of_birth: Option<String>,
    pub city_of_birth: Option<String>,
    pub residency: Option<String>,
}

/// The categories in the order in which a normal form lists them.
pub open spec fn ethnicity_order() -> Seq<Ethnicity> {
    seq![
        Ethnicity::Asian,
        Ethnicity::Black,
        Ethnicity::Hispanic,
        Ethnicity::NativeAmerican,
        Ethnicity::PacificIslander,
        Ethnicity::White,
    ]
}

impl RawDemographic {
    /// Whether the flag of `category` is set.
    pub open spec fn has(self, category: Ethnicity) -> bool {
        match category {
            Ethnicity::NativeAmerican => self.native_american,
            Ethnicity::Asian => self.asian,
            Ethnicity::Black => self.black,
            Ethnicity::PacificIslander => self.pacific_islander,
            Ethnicity::White => self.white,
            Ethnicity::Hispanic => self.hispanic,
        }
    }

    /// The categories whose flags are set, in the order of
    /// [`ethnicity_order`]. The flag for two or more races adds nothing.
    pub open spec fn ethnicities(self) -> Seq<Ethnicity> {
        ethnicity_order().filter(|category: Ethnicity| self.has(category))
    }

    /// Lists the categories whose flags are set.
    pub fn ethnicity_list(&self) -> (list: Vec<Ethnicity>)
        ensures
            list@ == self.ethnicities(),
    {
        let mut list: Vec<Ethnicity> = Vec::new();
        if self.asian {
            list.push(Ethnicity::Asian);
        }
        if self.black {
            list.push(Ethnicity::Black);
        }
        if self.hispanic {
            list.push(Ethnicity::Hispanic);
        }
        if self.native_american {
            list.push(Ethnicity::NativeAmerican);
        }
        if self.pacific_islander {
            list.push(Ethnicity::PacificIslander);
        }
        if self.white {
            list.push(Ethnicity::White);
        }
        proof {
            reveal_with_fuel(Seq::filter, 8);
        }
        list
    }
}

/// The place of a category in [`ethnicity_order`].
pub open spec fn ethnicity_rank(category: Ethnicity) -> nat {
    match category {
        Ethnicity::Asian => 0,
        Ethnicity::Black => 1,
        Ethnicity::Hispanic => 2,
        Ethnicity::NativeAmerican => 3,
        Ethnicity::PacificIslander => 4,
        Ethnicity::White => 5,
    }
}

/// Whether the categories of `list` stand in rising rank.
pub open spec fn is_rising(list: Seq<Ethnicity>) -> bool {
    forall|i: int, j: int|
        0 <= i < j < list.len() ==> ethnicity_rank(#[trigger] list[i]) < ethnicity_rank(
            #[trigger] list[j],
        )
}

/// Picking from a list in rising rank leaves a list in rising rank, made of
/// categories of the first.
proof fn lemma_filter_keeps_rising(list: Seq<Ethnicity>, keep: spec_fn(Ethnicity) -> bool)
    requires
        is_rising(list),
    ensures
        is_rising(list.filter(keep)),
        forall|i: int|
            0 <= i < list.filter(keep).len() ==> list.contains(#[trigger] list.filter(keep)[i]),
    decreases list.len(),
{
    reveal_with_fuel(Seq::filter, 2);
    if list.len() > 0 {
        let front = list.drop_last();
        let kept = front.filter(keep);
        lemma_filter_keeps_rising(front, keep);
        assert forall|i: int| 0 <= i < kept.len() implies ethnicity_rank(#[trigger] kept[i])
            < ethnicity_rank(list.last()) && list.contains(kept[i]) by {
            assert(front.contains(kept[i]));
            let at = choose|k: int| 0 <= k < front.len() && front[k] == kept[i];
            assert(list[at] == kept[i]);
        }
        if keep(list.last()) {
            assert(list.filter(keep) == kept.push(list.last()));
            assert(list[list.len() - 1] == list.last());
        } else {
            assert(list.filter(keep) == kept);
        }
    }
}

/// The list holds a category if and only if its flag is set, and holds the
/// categories in rising rank: each at most once, always in the same order.
pub proof fn lemma_ethnicities_are_the_set_flags_in_order(raw: RawDemographic)
    ensures
        forall|category: Ethnicity| #[trigger]
            raw.ethnicities().contains(category) <==> raw.has(category),
        is_rising(raw.ethnicities()),
{
    let all = ethnicity_order();
    let keep = |category: Ethnicity| raw.has(category);
    let list = raw.ethnicities();
    assert(list == all.filter(keep));
    lemma_filter_keeps_rising(all, keep);
    assert forall|category: Ethnicity| #[trigger]
        list.contains(category) <==> raw.has(category) by {
        if raw.has(category) {
            let at = ethnicity_rank(category) as int;
            assert(all[at] == category);
            all.lemma_filter_contains(keep, at);
        }
        if list.contains(category) {
            let at = choose|i: int| 0 <= i < list.len() && list[i] == category;
            all.lemma_filter_pred(keep, at);
        }
    }
}

/// Records whose six flags agree have the same list: the flag for two or
/// more races plays no part.
pub proof fn lemma_ethnicities_depend_on_the_six_flags(a: RawDemographic, b: RawDemographic)
    requires
        forall|category: Ethnicity| a.has(category) == b.has(category),
    ensures
        a.ethnicities() == b.ethnicities(),
{
    assert(a.has(Ethnicity::Asian) == b.has(Ethnicity::Asian));
    assert(a.has(Ethnicity::Black) == b.has(Ethnicity::Black));
    assert(a.has(Ethnicity::Hispanic) == b.has(Ethnicity::Hispanic));
    assert(a.has(Ethnicity::NativeAmerican) == b.has(Ethnicity::NativeAmerican));
    assert(a.has(Ethnicity::PacificIslander) == b.has(Ethnicity::PacificIslander));
    assert(a.has(Ethnicity::White) == b.has(Ethnicity::White));
    reveal_with_fuel(Seq::filter, 8);
}

impl RawDemographic {
    /// The day of birth that the record resolves to, where it states a
    /// date of birth.
    pub open spec fn resolved_dob(self) -> Option<Date> {
        match self.dob {
            Some(date) => date.resolved(),
            None => None,
        }
    }

    /// Whether the record states a date of birth that names no day.
    pub open spec fn dob_is_unresolvable(self) -> bool {
        self.dob is Some && self.resolved_dob() is None
    }
}

impl Demographic {
    /// Whether `self` is the normal form of `raw`, given the instant that the
    /// time of modification resolved to and the day that the date of birth
    /// resolved to. The categories are those whose flags are set in `raw`, in
    /// the order of [`ethnicity_order`]; everything else is as in `raw`.
    pub open spec fn is_normal_form_of(
        self,
        raw: RawDemographic,
        modified: FixedDateTime,
        dob: Option<Date>,
    ) -> bool {
        &&& self.id == raw.id
        &&& self.status == raw.status
        &&& self.modified == modified
        &&& self.metadata == raw.metadata
        &&& self.dob == dob
        &&& self.gender == raw.gender
        &&& self.ethnicity@ == raw.ethnicities()
        &&& self.country_of_birth == raw.country_of_birth
        &&& self.state_of_birth == raw.state_of_birth
        &&& self.city_of_birth == raw.city_of_birth
        &&& self.residency == raw.residency
    }

    /// Normalizes `raw`, given what its time of modification resolved to and,
    /// if it states a date of birth, what that resolved to. It fails if and
    /// only if the time of modification resolved to nothing, or a date of
    /// birth is stated and resolved to nothing. Where none is stated, `dob`
    /// is not looked at. So the normal form has a day of birth exactly where
    /// `raw` has a date of birth.
    pub fn from_resolved(
        raw: RawDemographic,
        modified: Option<FixedDateTime>,
        dob: Option<Date>,
    ) -> (r: Result<Demographic, ModelError>)
        ensures
            match modified {
                Some(m) if !(raw.dob is Some && dob is None) => {
                    &&& r matches Ok(demographic)
                    &&& demographic.is_normal_form_of(
                        raw,
                        m,
                        if raw.dob is Some {
                            dob
                        } else {
                            None
                        },
                    )
                    &&& demographic.dob is Some <==> raw.dob is Some
                },
                _ => r matches Err(e) && e == ModelError::UnresolvableTimestamp,
            },
    {
        let modified = match modified {
            Some(m) => m,
            None => {
                return Err(ModelError::UnresolvableTimestamp);
            },
        };
        let dob = match (&raw.dob, dob) {
            (Some(_), Some(day)) => Some(day),
            (Some(_), None) => {
                return Err(ModelError::UnresolvableTimestamp);
            },
            (None, _) => None,
        };
        let ethnicity = raw.ethnicity_list();
        Ok(
            Demographic {
                id: raw.id,
                status: raw.status,
                modified,
                metadata: raw.metadata,
                dob,
                gender: raw.gender,
                ethnicity,
                country_of_birth: raw.country_of_birth,
                state_of_birth: raw.state_of_birth,
                city_of_birth: raw.city_of_birth,
                residency: raw.residency,
            },
        )
    }

    /// Normalizes `raw`. It fails if and only if the time of modification
    /// resolves to no instant, or a date of birth is stated and names no
    /// day. The instant keeps the offset that the time was written in. The
    /// normal form has a day of birth exactly where `raw` has a date of
    /// birth, and a date written as year, month and day stays those three.
    pub fn from(raw: RawDemographic) -> (r: Result<Demographic, ModelError>)
        ensures
            match raw.modified.resolved() {
                Some(m) if !raw.dob_is_unresolvable() => {
                    &&& r matches Ok(demographic)
                    &&& demographic.is_normal_form_of(raw, m, raw.resolved_dob())
                    &&& demographic.dob is Some <==> raw.dob is Some
                },
                _ => r matches Err(e) && e == ModelError::UnresolvableTimestamp,
            },
            r matches Ok(demographic) ==> demographic.modified.offset_seconds
                == raw.modified.time.offset_seconds(),
            r matches Ok(demographic) ==> match (raw.dob, demographic.dob) {
                (Some(date), Some(day)) => date.is_kept_by(day),
                _ => true,
            },
    {
        let modified = raw.modified.into_fixed_offset();
        let dob = match raw.dob {
            Some(date) => date.into_naive(),
            None => None,
        };
        Demographic::from_resolved(raw, modified, dob)
    }
}

} // verus!
