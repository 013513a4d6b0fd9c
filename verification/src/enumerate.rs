//! The enumerators and the credential validator, as step functions of a
//! retry loop. The surrounding process performs one network attempt,
//! reports what came of it as a [`FetchEvent`], and acts on the step
//! returned here: retry with the next attempt counter (after consulting
//! the retry governor), abort, or take the extracted identifiers.

use vstd::prelude::*;

use crate::response::QueryResponse;
use crate::response::databases_of;
use crate::response::databases_spec;
use crate::response::namespaces_of;
use crate::response::namespaces_spec;
use crate::retry::RETRY_LIMIT;

verus! {

/// What one network attempt against the query interface came to:
/// the request could not be sent or answered, the answer failed to
/// parse as the expected envelope, or it parsed.
pub enum FetchEvent {
    TransportError,
    ParseFailure,
    Response(QueryResponse),
}

/// The next move of an enumeration after one attempt: retry with the
/// given attempt counter, or hand back the enumerated identifiers.
pub enum EnumStep {
    Retry { next_attempt: u8 },
    Done { names: Vec<String> },
}

/// The next move of the credential validator after one attempt: retry
/// with the given attempt counter, or proceed to the scheduling loop.
pub enum CredentialStep {
    Retry { next_attempt: u8 },
    Validated,
}

/// One step of the namespace enumerator on attempt `retry_count`: a
/// transport or parse failure asks for a retry with the counter raised
/// by one; a parsed response ends the enumeration with its namespace
/// keys (the empty collection for an empty envelope).
///
/// The attempt counter stays at or below the retry limit because the
/// governor turns the attempt away before it is made otherwise.
pub fn get_namespaces(event: &FetchEvent, retry_count: u8) -> (step: EnumStep)
    requires
        retry_count <= RETRY_LIMIT,
    ensures
        match *event {
            FetchEvent::TransportError | FetchEvent::ParseFailure => step == (EnumStep::Retry {
                next_attempt: (retry_count + 1) as u8,
            }),
            FetchEvent::Response(resp) => step matches EnumStep::Done { names } && names@
                == namespaces_spec(resp),
        },
{
    match event {
        FetchEvent::TransportError => EnumStep::Retry { next_attempt: retry_count + 1 },
        FetchEvent::ParseFailure => EnumStep::Retry { next_attempt: retry_count + 1 },
        FetchEvent::Response(resp) => EnumStep::Done { names: namespaces_of(resp) },
    }
}

/// One step of the database enumerator for one namespace, identical in
/// policy to `get_namespaces` but reading the response's database keys.
/// Each namespace's enumeration carries its own attempt counter.
pub fn get_databases(event: &FetchEvent, retry_count: u8) -> (step: EnumStep)
    requires
        retry_count <= RETRY_LIMIT,
    ensures
        match *event {
            FetchEvent::TransportError | FetchEvent::ParseFailure => step == (EnumStep::Retry {
                next_attempt: (retry_count + 1) as u8,
            }),
            FetchEvent::Response(resp) => step matches EnumStep::Done { names } && names@
                == databases_spec(resp),
        },
{
    match event {
        FetchEvent::TransportError => EnumStep::Retry { next_attempt: retry_count + 1 },
        FetchEvent::ParseFailure => EnumStep::Retry { next_attempt: retry_count + 1 },
        FetchEvent::Response(resp) => EnumStep::Done { names: databases_of(resp) },
    }
}

/// One step of the credential validator on attempt `retry_count`: a
/// transport failure or an answer that fails to parse as the envelope
/// asks for a retry; an answer that parses validates the credentials,
/// whatever its payload holds.
pub fn check_credentials(event: &FetchEvent, retry_count: u8) -> (step: CredentialStep)
    requires
        retry_count <= RETRY_LIMIT,
    ensures
        match *event {
            FetchEvent::TransportError | FetchEvent::ParseFailure => step
                == (CredentialStep::Retry { next_attempt: (retry_count + 1) as u8 }),
            FetchEvent::Response(_) => step == CredentialStep::Validated,
        },
{
    match event {
        FetchEvent::TransportError => CredentialStep::Retry { next_attempt: retry_count + 1 },
        FetchEvent::ParseFailure => CredentialStep::Retry { next_attempt: retry_count + 1 },
        FetchEvent::Response(_) => CredentialStep::Validated,
    }
}

} // verus!
