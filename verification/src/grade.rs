//! Grade levels and their wire codes.

use vstd::prelude::*;
use crate::error::{CodecDomain, ModelError};
use crate::text::text_eq;

verus! {

/// A grade level, from pre-kindergarten to the twelfth grade.
#[derive(Clone, Copy, Debug, PartialEq, Eq, Hash, Structural)]
pub enum Grade {
    PreK,
    Kindergarten,
    First,
    Second,
    Third,
    Fourth,
    Fifth,
    Sixth,
    Seventh,
    Eighth,
    Ninth,
    Tenth,
    Eleventh,
    Twelfth,
}

impl Grade {
    /// The code that is written for the grade: `PK`, `KG`, or the number of
    /// the grade in two digits.
    pub open spec fn code(self) -> Seq<char> {
        match self {
            Grade::PreK => "PK"@,
            Grade::Kindergarten => "KG"@,
            Grade::First => "01"@,
            Grade::Second => "02"@,
            Grade::Third => "03"@,
            Grade::Fourth => "04"@,
            Grade::Fifth => "05"@,
            Grade::Sixth => "06"@,
            Grade::Seventh => "07"@,
            Grade::Eighth => "08"@,
            Grade::Ninth => "09"@,
            Grade::Tenth => "10"@,
            Grade::Eleventh => "11"@,
            Grade::Twelfth => "12"@,
        }
    }

    /// The grade that `text` is read as, if it is a code.
    pub open spec fn decoded(text: Seq<char>) -> Option<Grade> {
        if text == "PK"@ {
            Some(Grade::PreK)
        } else if text == "KG"@ {
            Some(Grade::Kindergarten)
        } else if text == "01"@ {
            Some(Grade::First)
        } else if text == "02"@ {
            Some(Grade::Second)
        } else if text == "03"@ {
            Some(Grade::Third)
        } else if text == "04"@ {
            Some(Grade::Fourth)
        } else if text == "05"@ {
            Some(Grade::Fifth)
        } else if text == "06"@ {
            Some(Grade::Sixth)
        } else if text == "07"@ {
            Some(Grade::Seventh)
        } else if text == "08"@ {
            Some(Grade::Eighth)
        } else if text == "09"@ {
            Some(Grade::Ninth)
        } else if text == "10"@ {
            Some(Grade::Tenth)
        } else if text == "11"@ {
            Some(Grade::Eleventh)
        } else if text == "12"@ {
            Some(Grade::Twelfth)
        } else {
            None
        }
    }

    /// The wire code of the grade.
    pub fn serialize(&self) -> (code: &'static str)
        ensures
            code@ == self.code(),
    {
        match self {
            Grade::PreK => "PK",
            Grade::Kindergarten => "KG",
            Grade::First => "01",
            Grade::Second => "02",
            Grade::Third => "03",
            Grade::Fourth => "04",
            Grade::Fifth => "05",
            Grade::Sixth => "06",
            Grade::Seventh => "07",
            Grade::Eighth => "08",
            Grade::Ninth => "09",
            Grade::Tenth => "10",
            Grade::Eleventh => "11",
            Grade::Twelfth => "12",
        }
    }

    /// Reads a wire code.
    pub fn deserialize(text: &str) -> (r: Result<Grade, ModelError>)
        ensures
            match r {
                Ok(grade) => Grade::decoded(text@) == Some(grade),
                Err(e) => Grade::decoded(text@) is None && e.is_unknown_code(
                    CodecDomain::Grade,
                    text@,
                ),
            },
    {
        if text_eq(text, "PK") {
            Ok(Grade::PreK)
        } else if text_eq(text, "KG") {
            Ok(Grade::Kindergarten)
        } else if text_eq(text, "01") {
            Ok(Grade::First)
        } else if text_eq(text, "02") {
            Ok(Grade::Second)
        } else if text_eq(text, "03") {
            Ok(Grade::Third)
        } else if text_eq(text, "04") {
            Ok(Grade::Fourth)
        } else if text_eq(text, "05") {
            Ok(Grade::Fifth)
        } else if text_eq(text, "06") {
            Ok(Grade::Sixth)
        } else if text_eq(text, "07") {
            Ok(Grade::Seventh)
        } else if text_eq(text, "08") {
            Ok(Grade::Eighth)
        } else if text_eq(text, "09") {
            Ok(Grade::Ninth)
        } else if text_eq(text, "10") {
            Ok(Grade::Tenth)
        } else if text_eq(text, "11") {
            Ok(Grade::Eleventh)
        } else if text_eq(text, "12") {
            Ok(Grade::Twelfth)
        } else {
            Err(ModelError::unknown_code(CodecDomain::Grade, text))
        }
    }
}

/// Every grade is read back from the code that is written for it.
pub proof fn lemma_grade_code_round_trip(grade: Grade)
    ensures
        Grade::decoded(grade.code()) == Some(grade),
{
    reveal_strlit("PK");
    reveal_strlit("KG");
    reveal_strlit("01");
    reveal_strlit("02");
    reveal_strlit("03");
    reveal_strlit("04");
    reveal_strlit("05");
    reveal_strlit("06");
    reveal_strlit("07");
    reveal_strlit("08");
    reveal_strlit("09");
    reveal_strlit("10");
    reveal_strlit("11");
    reveal_strlit("12");
    assert("PK"@[0] == 'P' && "PK"@[1] == 'K');
    assert("KG"@[0] == 'K' && "KG"@[1] == 'G');
    assert("01"@[0] == '0' && "01"@[1] == '1');
    assert("02"@[0] == '0' && "02"@[1] == '2');
    assert("03"@[0] == '0' && "03"@[1] == '3');
    assert("04"@[0] == '0' && "04"@[1] == '4');
    assert("05"@[0] == '0' && "05"@[1] == '5');
    assert("06"@[0] == '0' && "06"@[1] == '6');
    assert("07"@[0] == '0' && "07"@[1] == '7');
    assert("08"@[0] == '0' && "08"@[1] == '8');
    assert("09"@[0] == '0' && "09"@[1] == '9');
    assert("10"@[0] == '1' && "10"@[1] == '0');
    assert("11"@[0] == '1' && "11"@[1] == '1');
    assert("12"@[0] == '1' && "12"@[1] == '2');
}

} // verus!
