//! The model of the data store's query response envelope: a list of
//! results, of which the enumerators read the namespace keys (for an
//! instance-wide query) or the database keys (for a namespace-scoped
//! query). The surrounding process parses the JSON envelope and hands
//! the keys over as plain values.

use vstd::prelude::*;

verus! {

/// One result of a metadata query: the keys of its `result.ns` object
/// and of its `result.db` object, whichever the query populates.
pub struct InfoResult {
    pub ns_keys: Vec<String>,
    pub db_keys: Vec<String>,
}

/// A parsed query response: the envelope's list of results.
pub struct QueryResponse {
    pub results: Vec<InfoResult>,
}

/// The namespaces a response enumerates: none for an empty envelope
/// (an empty instance), otherwise the namespace keys of the first
/// result.
pub open spec fn namespaces_spec(resp: QueryResponse) -> Seq<String> {
    if resp.results@.len() == 0 {
        Seq::empty()
    } else {
        resp.results@[0].ns_keys@
    }
}

/// The databases a response enumerates, read the same way from the
/// database keys of the first result.
pub open spec fn databases_spec(resp: QueryResponse) -> Seq<String> {
    if resp.results@.len() == 0 {
        Seq::empty()
    } else {
        resp.results@[0].db_keys@
    }
}

/// Extract the namespace identifiers from a parsed response: an empty
/// envelope means the instance has nothing to back up and gives the
/// empty collection; otherwise the first result's namespace keys are
/// returned unchanged.
pub fn namespaces_of(resp: &QueryResponse) -> (names: Vec<String>)
    ensures
        names@ == namespaces_spec(*resp),
{
    if resp.results.len() == 0 {
        Vec::new()
    } else {
        resp.results[0].ns_keys.clone()
    }
}

/// Extract the database identifiers from a parsed response, as
/// `namespaces_of` does for namespaces.
pub fn databases_of(resp: &QueryResponse) -> (names: Vec<String>)
    ensures
        names@ == databases_spec(*resp),
{
    if resp.results.len() == 0 {
        Vec::new()
    } else {
        resp.results[0].db_keys.clone()
    }
}

} // verus!
