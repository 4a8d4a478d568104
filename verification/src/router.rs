//! The route table that the catalog app router mounts.
//!
//! Every route on this surface is a read: nothing here writes, which is why no
//! handler reads `If-Match` and none answers `428`.

use vstd::prelude::*;

use crate::endpoint::{endpoint_path, CatalogEndpoint, HttpMethod, ListResource, RetrieveResource};

verus! {

/// One mounted route: the method and path at which `endpoint` answers.
#[derive(Clone, Copy, Debug, PartialEq, Eq)]
pub struct AppRoute {
    pub method: HttpMethod,
    pub path: &'static str,
    pub endpoint: CatalogEndpoint,
}

/// The endpoints of the router, in the order in which they are mounted.
pub open spec fn router_endpoints() -> Seq<CatalogEndpoint> {
    seq![
        CatalogEndpoint::List(ListResource::Categories),
        CatalogEndpoint::Retrieve(RetrieveResource::Category),
        CatalogEndpoint::List(ListResource::Attributes),
        CatalogEndpoint::List(ListResource::Products),
        CatalogEndpoint::Retrieve(RetrieveResource::Product),
        CatalogEndpoint::List(ListResource::ProductSkus),
        CatalogEndpoint::Retrieve(RetrieveResource::Sku),
    ]
}

/// `route` mounts endpoint `e` as a `GET` at `e`'s path.
pub open spec fn is_route_of(route: AppRoute, e: CatalogEndpoint) -> bool {
    &&& route.method == HttpMethod::Get
    &&& route.endpoint == e
    &&& route.path@ == endpoint_path(e)
}

/// `routes` is the catalog app route table: one route per endpoint of
/// [`router_endpoints`], in that order.
pub open spec fn is_catalog_router(routes: Seq<AppRoute>) -> bool {
    &&& routes.len() == router_endpoints().len()
    &&& forall|i: int| 0 <= i < routes.len() ==> is_route_of(#[trigger] routes[i], router_endpoints()[i])
}

/// Some route of `routes` mounts endpoint `e`.
pub open spec fn mounts(routes: Seq<AppRoute>, e: CatalogEndpoint) -> bool {
    exists|i: int| 0 <= i < routes.len() && (#[trigger] routes[i]).endpoint == e
}

/// A read route for one endpoint.
fn get_route(e: CatalogEndpoint) -> (r: AppRoute)
    ensures
        is_route_of(r, e),
{
    AppRoute { method: HttpMethod::Get, path: e.path(), endpoint: e }
}

/// The routes of the catalog app router: the buyer-facing read model of
/// categories, attributes, products and SKUs.
pub fn app_catalog_routes() -> (routes: Vec<AppRoute>)
    ensures
        is_catalog_router(routes@),
{
    let mut routes: Vec<AppRoute> = Vec::new();
    routes.push(get_route(CatalogEndpoint::List(ListResource::Categories)));
    routes.push(get_route(CatalogEndpoint::Retrieve(RetrieveResource::Category)));
    routes.push(get_route(CatalogEndpoint::List(ListResource::Attributes)));
    routes.push(get_route(CatalogEndpoint::List(ListResource::Products)));
    routes.push(get_route(CatalogEndpoint::Retrieve(RetrieveResource::Product)));
    routes.push(get_route(CatalogEndpoint::List(ListResource::ProductSkus)));
    routes.push(get_route(CatalogEndpoint::Retrieve(RetrieveResource::Sku)));
    routes
}

} // verus!
