//! Parsing of reports uploaded through the Reporting API: a JSON array of
//! reports that share an envelope (age, URL, user agent) and carry a body whose
//! schema is chosen by a `type` discriminator.
//!
//! Two ways of reading a report are offered. [`BareReport`] reads the envelope
//! and keeps the body as JSON; [`BareReport::parse`] then reads the body as a
//! chosen [`ReportType`], and tells a report of another type apart from a body
//! that does not follow the type's schema. [`registry::Registry`] reads the
//! body at once, as the type registered under the report's discriminator, and
//! fails on a discriminator that no type has.
pub mod batch;
pub mod error;
pub mod fields;
pub mod json;
pub mod nel;
pub mod parse_milliseconds;
pub mod parse_opt_milliseconds;
pub mod registry;
pub mod report;

pub use batch::parse_batch;
pub use error::DecodeError;
pub use nel::NEL;
pub use registry::{AnyBody, Conflict, DispatchError, Registry};
pub use report::{BareReport, Report, ReportType};
