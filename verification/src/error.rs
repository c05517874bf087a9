//! The errors that parsing and normalization report.

use vstd::prelude::*;

verus! {

/// The closed enumerations that have a wire codec.
#[derive(Debug, Clone, Copy, PartialEq, Eq, Hash, Structural)]
pub enum CodecDomain {
    Status,
    Grade,
    ClassType,
    SessionKind,
    Gender,
}

/// Why a value could not be parsed or a record could not be normalized.
#[derive(Debug, Clone, PartialEq, Eq)]
pub enum ModelError {
    /// The text is not five `-`-separated hexadecimal groups that fit their widths.
    MalformedIdentifier,
    /// The wire text is not a code of the given enumeration.
    UnknownEnumCode(CodecDomain, String),
    /// A text is no date or date-time, a date-time states no offset from
    /// UTC, or what was read names no day or no instant.
    UnresolvableTimestamp,
    /// A field that the schema requires is absent. Normalization never
    /// reports this: a raw record has all its fields. It comes up where
    /// values are put together from loose fields.
    MissingRequiredField,
}

impl ModelError {
    /// Whether this error reports `text` as an unknown code of `domain`.
    pub open spec fn is_unknown_code(self, domain: CodecDomain, text: Seq<char>) -> bool {
        self matches ModelError::UnknownEnumCode(d, t) && d == domain && t@ == text
    }

    /// Builds the error for a wire text that is no code of `domain`.
    pub fn unknown_code(domain: CodecDomain, text: &str) -> (e: ModelError)
        ensures
            e.is_unknown_code(domain, text@),
    {
        ModelError::UnknownEnumCode(domain, text.to_owned())
    }
}

} // verus!
