//! A verified client core for the DHL shipment-tracking ("Sendungsverfolgung")
//! service. The library accumulates configuration in a fluent builder,
//! validates the environment-dependent required fields, and composes the
//! piece-detail query: an XML parameter document embedded in the endpoint URL
//! together with the Basic Authentication pair for the active environment.
//! Issuing the HTTP request itself is the caller's concern.

pub mod builder;
pub mod errors;
pub mod client;
pub mod urlparse;
pub mod laws;

pub use builder::SendungsverfolgungBuilder;
pub use client::PieceDetailRequest;
pub use client::Sendungsverfolgung;
pub use errors::BuildError;
pub use errors::RequestError;
