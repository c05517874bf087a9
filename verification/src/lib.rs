//! Typed identifiers and the normalization of roster records.
//!
//! A record arrives from the wire loosely typed: identifiers and codes are
//! texts, references to other entities are generic. It leaves in normal
//! form: every identifier is of the kind of entity that it names, codes are
//! variants, times are instants with a fixed offset.
//!
//! - [`guid`]: the composite identifier, its text and its order.
//! - [`id`]: the identifier types built on it, one for each kind of entity,
//!   and the generic reference.
//! - [`status`], [`grade`], and the codes in [`class`], [`demographic`] and
//!   [`session`]: closed enumerations and their wire codes.
//! - [`time`]: dates and date-times, read from text and resolved.
//! - [`class`], [`demographic`], [`session`]: the records, raw and in normal
//!   form, and the step from one to the other.
//! - [`hex`], [`text`]: the reading and writing of numerals and the cutting
//!   of text that the above rest on.
//! - [`error`]: what can go wrong.

pub mod class;
pub mod demographic;
pub mod error;
pub mod grade;
pub mod guid;
pub mod hex;
pub mod id;
pub mod prelude;
pub mod session;
pub mod status;
pub mod text;
pub mod time;
