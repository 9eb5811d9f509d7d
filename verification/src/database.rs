//! The persisted form of an accepted registration, and how it is derived
//! from a well-known document.  The relational store itself lives outside
//! the library; it receives exactly the values built here.

use vstd::prelude::*;
use crate::text::{clone_opt_string, clone_strings, strings_match};
use crate::well_known::{ServerRegistrationStatus, WellKnown};

verus! {

/// The registration status column of the servers table.
#[derive(Debug, Clone, Copy, PartialEq, Eq, Structural)]
pub enum Registration {
    Open,
    Invite,
    Closed,
}

/// One row of the servers table.
#[derive(Debug)]
pub struct Server {
    pub name: String,
    pub url: String,
    pub server_name: String,
    pub logo_url: Option<String>,
    pub admins: Vec<String>,
    pub categories: Vec<String>,
    pub rules: String,
    pub description: String,
    pub registration_status: Registration,
    /// Always false at insertion: manual approval is a later, separate step.
    pub verified: bool,
}

/// One row of the join table from a server to one of its categories.
#[derive(Debug)]
pub struct CategoryRow {
    pub server_url: String,
    pub category_name: String,
}

/// Everything one successful pipeline run asks the store to write: the
/// server row and one join row per category, ideally as one atomic unit.
#[derive(Debug)]
pub struct InsertRequest {
    pub server: Server,
    pub categories: Vec<CategoryRow>,
}

/// The status column value for a declared registration status.
pub open spec fn status_of(s: ServerRegistrationStatus) -> Registration {
    match s {
        ServerRegistrationStatus::Open => Registration::Open,
        ServerRegistrationStatus::Invite => Registration::Invite,
        ServerRegistrationStatus::Closed => Registration::Closed,
    }
}

/// The server row a document maps to: every declared field carried over
/// unchanged, and `verified` false.
pub open spec fn server_matches(s: Server, doc: WellKnown) -> bool {
    &&& s.name@ == doc.name@
    &&& s.url@ == doc.url@
    &&& s.server_name@ == doc.server_name@
    &&& (s.logo_url is Some <==> doc.logo_url is Some)
    &&& (doc.logo_url matches Some(l) ==> (s.logo_url matches Some(m) && m@ == l@))
    &&& strings_match(s.admins@, doc.admins@)
    &&& strings_match(s.categories@, doc.categories@)
    &&& s.rules@ == doc.rules@
    &&& s.description@ == doc.description@
    &&& s.registration_status == status_of(doc.registration_status)
    &&& s.verified == false
}

/// The join rows a document maps to: one per category, in declared order,
/// each keyed by the document's url.
pub open spec fn rows_match(rows: Seq<CategoryRow>, doc: WellKnown) -> bool {
    &&& rows.len() == doc.categories@.len()
    &&& (forall|i: int|
        0 <= i < rows.len() ==> rows[i].server_url@ == doc.url@ && rows[i].category_name@
            == doc.categories@[i]@)
}

/// Builds the server row for a document, with `verified` false.
pub fn server_record(doc: &WellKnown) -> (s: Server)
    ensures
        server_matches(s, *doc),
{
    Server {
        name: doc.name.clone(),
        url: doc.url.clone(),
        server_name: doc.server_name.clone(),
        logo_url: clone_opt_string(&doc.logo_url),
        admins: clone_strings(&doc.admins),
        categories: clone_strings(&doc.categories),
        rules: doc.rules.clone(),
        description: doc.description.clone(),
        registration_status: match doc.registration_status {
            ServerRegistrationStatus::Open => Registration::Open,
            ServerRegistrationStatus::Invite => Registration::Invite,
            ServerRegistrationStatus::Closed => Registration::Closed,
        },
        verified: false,
    }
}

/// Builds the join rows for a document, one per category in order.
pub fn category_rows(doc: &WellKnown) -> (rows: Vec<CategoryRow>)
    ensures
        rows_match(rows@, *doc),
{
    let mut rows: Vec<CategoryRow> = Vec::new();
    let mut i: usize = 0;
    while i < doc.categories.len()
        invariant
            0 <= i <= doc.categories.len(),
            rows@.len() == i,
            forall|j: int|
                0 <= j < i ==> ((#[trigger] rows@[j]).server_url@ == doc.url@
                    && rows@[j].category_name@ == doc.categories@[j]@),
        decreases doc.categories.len() - i,
    {
        let row = CategoryRow {
            server_url: doc.url.clone(),
            category_name: doc.categories[i].clone(),
        };
        proof {
            assert(row.server_url@ == doc.url@);
            assert(row.category_name@ == doc.categories@[i as int]@);
        }
        rows.push(row);
        i = i + 1;
    }
    rows
}

/// Builds the full insert request for a document.
pub fn insert_request(doc: &WellKnown) -> (req: InsertRequest)
    ensures
        server_matches(req.server, *doc),
        rows_match(req.categories@, *doc),
{
    InsertRequest { server: server_record(doc), categories: category_rows(doc) }
}

} // verus!
