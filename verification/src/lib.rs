//! A resilient access layer for a Firestore document database reached over
//! its REST interface.
//!
//! The library prepares the requests of the three verbs of the database
//! (read, query, write), judges what each attempt at sending one came to,
//! retries with exponential backoff, and maps values between the form that
//! application code holds and the tagged form that the database speaks. It
//! sends nothing itself: a request is handed out as a value, and a response
//! is handed back as one.
//!
//! - [`backoff`]: which statuses are retried, the outcome of an attempt, the
//!   blocking retry, and the states that a call moves through.
//! - [`errors`]: the error type, and how a failed response becomes an error.
//! - [`http`]: requests and responses.
//! - [`dto`]: the typed values that travel to and from the database.
//! - [`values`]: native values and the mapping between them and wire values.
//! - [`documents`]: the verbs.

pub mod backoff;
pub mod documents;
pub mod dto;
pub mod errors;
pub mod http;
pub mod values;
