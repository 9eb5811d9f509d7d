//! The well-known metadata document: the typed form of the JSON file that a
//! server publishes to declare its identity, administrators and endpoints.
//! The caller fetches and decodes the document; the pipeline only reads it.

use vstd::prelude::*;

verus! {

/// What the document declares about who may register the server.
#[derive(Debug, Clone, Copy, PartialEq, Eq, Structural)]
pub enum ServerRegistrationStatus {
    Open,
    Invite,
    Closed,
}

/// One fetched and decoded well-known document.  Never mutated; it lives
/// for the duration of one pipeline run.
#[derive(Debug)]
pub struct WellKnown {
    pub name: String,
    pub url: String,
    pub server_name: String,
    pub logo_url: Option<String>,
    pub admins: Vec<String>,
    pub categories: Vec<String>,
    pub rules: String,
    pub description: String,
    pub registration_status: ServerRegistrationStatus,
}

} // verus!
