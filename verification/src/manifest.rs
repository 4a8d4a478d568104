//! The gateway route manifest of the catalog app surface.
//!
//! Every business route is protected by the default framework profile, so
//! dual-token authentication is the manifest default. The cart and
//! buyer-address collections are absent because their routes are: a manifest
//! entry without a route would make the gateway authorize a path that nothing
//! answers.

use vstd::prelude::*;

use crate::endpoint::{
    endpoint_operation, endpoint_path, CatalogEndpoint, HttpMethod, ListResource,
    RetrieveResource,
};

verus! {

/// How the gateway authenticates callers of a route.
#[derive(Clone, Copy, Debug, PartialEq, Eq)]
pub enum RouteAuth {
    /// The caller presents both an app token and a user token.
    DualToken,
}

/// One entry of a gateway route manifest.
#[derive(Clone, Copy, Debug, PartialEq, Eq)]
pub struct HttpRoute {
    pub method: HttpMethod,
    pub path: &'static str,
    pub capability: &'static str,
    pub operation: &'static str,
    pub auth: RouteAuth,
}

impl HttpRoute {
    /// A route that the gateway opens to dual-token callers.
    pub fn dual_token(
        method: HttpMethod,
        path: &'static str,
        capability: &'static str,
        operation: &'static str,
    ) -> (r: HttpRoute)
        ensures
            r.method == method,
            r.path == path,
            r.capability == capability,
            r.operation == operation,
            r.auth == RouteAuth::DualToken,
    {
        HttpRoute { method, path, capability, operation, auth: RouteAuth::DualToken }
    }
}

/// The routes that the gateway authorizes for one owner.
pub struct HttpRouteManifest {
    pub routes: Vec<HttpRoute>,
}

/// The capability that owns every catalog route.
pub open spec fn catalog_capability() -> Seq<char> {
    "catalog"@
}

/// The endpoints of the manifest, in the manifest's order.
pub open spec fn manifest_endpoints() -> Seq<CatalogEndpoint> {
    seq![
        CatalogEndpoint::List(ListResource::Attributes),
        CatalogEndpoint::List(ListResource::Categories),
        CatalogEndpoint::Retrieve(RetrieveResource::Category),
        CatalogEndpoint::List(ListResource::Products),
        CatalogEndpoint::Retrieve(RetrieveResource::Product),
        CatalogEndpoint::List(ListResource::ProductSkus),
        CatalogEndpoint::Retrieve(RetrieveResource::Sku),
    ]
}

/// `route` is the manifest entry of endpoint `e`: a dual-token `GET` owned by
/// the catalog capability, at `e`'s path, under `e`'s operation id.
pub open spec fn is_manifest_entry_of(route: HttpRoute, e: CatalogEndpoint) -> bool {
    &&& route.method == HttpMethod::Get
    &&& route.path@ == endpoint_path(e)
    &&& route.capability@ == catalog_capability()
    &&& route.operation@ == endpoint_operation(e)
    &&& route.auth == RouteAuth::DualToken
}

/// `routes` is the catalog gateway manifest: one entry per endpoint of
/// [`manifest_endpoints`], in that order.
pub open spec fn is_catalog_manifest(routes: Seq<HttpRoute>) -> bool {
    &&& routes.len() == manifest_endpoints().len()
    &&& forall|i: int|
        0 <= i < routes.len() ==> is_manifest_entry_of(#[trigger] routes[i], manifest_endpoints()[i])
}

/// Some entry of `routes` authorizes endpoint `e`: it is at `e`'s path, under
/// `e`'s operation id.
pub open spec fn names(routes: Seq<HttpRoute>, e: CatalogEndpoint) -> bool {
    exists|i: int|
        0 <= i < routes.len() && (#[trigger] routes[i]).path@ == endpoint_path(e)
            && routes[i].operation@ == endpoint_operation(e)
}

/// The manifest entry of one endpoint.
fn catalog_route(e: CatalogEndpoint) -> (r: HttpRoute)
    ensures
        is_manifest_entry_of(r, e),
{
    HttpRoute::dual_token(HttpMethod::Get, e.path(), "catalog", e.operation_id())
}

/// The gateway route manifest of the catalog app API.
pub fn gateway_route_manifest() -> (m: HttpRouteManifest)
    ensures
        is_catalog_manifest(m.routes@),
{
    let mut routes: Vec<HttpRoute> = Vec::new();
    routes.push(catalog_route(CatalogEndpoint::List(ListResource::Attributes)));
    routes.push(catalog_route(CatalogEndpoint::List(ListResource::Categories)));
    routes.push(catalog_route(CatalogEndpoint::Retrieve(RetrieveResource::Category)));
    routes.push(catalog_route(CatalogEndpoint::List(ListResource::Products)));
    routes.push(catalog_route(CatalogEndpoint::Retrieve(RetrieveResource::Product)));
    routes.push(catalog_route(CatalogEndpoint::List(ListResource::ProductSkus)));
    routes.push(catalog_route(CatalogEndpoint::Retrieve(RetrieveResource::Sku)));
    HttpRouteManifest { routes }
}

} // verus!
