//! How each step of a catalog read ends: a caller without a subject is
//! refused, a query that the store rejects is answered as invalid, and the
//! store's answer becomes a resource, a page, a not-found or an
//! unavailable reply.
//!
//! A read runs in three steps, and the outside work between them (resolving
//! the caller, validating the query, reading the store) is done by the
//! caller of these functions:
//!
//! 1. [`plan_catalog_query`] takes the request and the resolved subject and
//!    either refuses the caller or hands back the store query;
//! 2. [`reject_query`] answers a query that the store's validation refused;
//! 3. [`answer_list`] or [`answer_retrieve`] answers with what the store read.

use vstd::prelude::*;

use crate::endpoint::{
    not_found_message, unavailable_message, CatalogEndpoint, ListResource, RetrieveResource,
};
use crate::query::{catalog_query, query_for, AppSubject, CatalogQuery, CatalogRequest};

verus! {

/// The reply of a catalog read. `T` is what the store read; `E` is the
/// store's error, which an unavailable reply carries along.
#[derive(Clone, Debug, PartialEq, Eq)]
pub enum Reply<T, E> {
    /// The caller could not be resolved to a subject.
    Unauthorized { message: String },
    /// The store's validation refused the query.
    Invalid { message: String },
    /// The id of a retrieve names nothing.
    NotFound { message: &'static str },
    /// The store could not serve the read.
    Unavailable { message: &'static str, error: E },
    /// One resource, as read.
    Resource { data: T },
    /// One page of a collection, as read.
    Page { data: T },
}

/// The first step of a read: a caller whose subject could not be resolved is
/// refused with the resolver's message, and no query is built; otherwise the
/// request becomes the store query that it asks for.
pub fn plan_catalog_query<T, E>(request: CatalogRequest, subject: Result<AppSubject, String>) -> (r:
    Result<CatalogQuery, Reply<T, E>>)
    ensures
        match subject {
            Err(message) => r == Err::<CatalogQuery, Reply<T, E>>(Reply::Unauthorized { message }),
            Ok(s) => r matches Ok(q) && query_for(request, s, q),
        },
{
    match subject {
        Err(message) => Err(Reply::Unauthorized { message }),
        Ok(s) => Ok(catalog_query(request, s)),
    }
}

/// A query that the store's validation refused is answered as invalid, with
/// the validation's message.
pub fn reject_query<T, E>(message: String) -> (r: Reply<T, E>)
    ensures
        r == (Reply::<T, E>::Invalid { message }),
{
    Reply::Invalid { message }
}

/// The last step of a list read: the page that the store read, or, where the
/// store failed, the list's unavailable reply carrying the store's error.
pub fn answer_list<T, E>(resource: ListResource, answer: Result<T, E>) -> (r: Reply<T, E>)
    ensures
        match answer {
            Ok(data) => r == (Reply::<T, E>::Page { data }),
            Err(error) => r matches Reply::Unavailable { message, error: e } && e == error
                && message@ == unavailable_message(CatalogEndpoint::List(resource)),
        },
{
    match answer {
        Ok(data) => Reply::Page { data },
        Err(error) => Reply::Unavailable {
            message: CatalogEndpoint::List(resource).unavailable_message(),
            error,
        },
    }
}

/// The last step of a retrieve: the resource that the store read; where the
/// id names nothing, the resource's not-found reply; where the store failed,
/// the resource's unavailable reply carrying the store's error.
pub fn answer_retrieve<T, E>(resource: RetrieveResource, answer: Result<Option<T>, E>) -> (r: Reply<
    T,
    E,
>)
    ensures
        match answer {
            Ok(Some(data)) => r == (Reply::<T, E>::Resource { data }),
            Ok(None) => r matches Reply::NotFound { message } && message@ == not_found_message(
                resource,
            ),
            Err(error) => r matches Reply::Unavailable { message, error: e } && e == error
                && message@ == unavailable_message(CatalogEndpoint::Retrieve(resource)),
        },
{
    match answer {
        Ok(Some(data)) => Reply::Resource { data },
        Ok(None) => Reply::NotFound { message: resource.not_found_message() },
        Err(error) => Reply::Unavailable {
            message: CatalogEndpoint::Retrieve(resource).unavailable_message(),
            error,
        },
    }
}

} // verus!
