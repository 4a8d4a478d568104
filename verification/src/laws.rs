//! Properties of the catalog surface that relate the route table, the gateway
//! manifest and the endpoints.

use vstd::prelude::*;

use crate::endpoint::{
    endpoint_operation, endpoint_path, not_found_message, unavailable_message, CatalogEndpoint,
    HttpMethod, ListResource, RetrieveResource,
};
use crate::manifest::{catalog_capability, is_catalog_manifest, manifest_endpoints, names, HttpRoute, RouteAuth};
use crate::query::{
    is_active_status, query_endpoint, query_for, query_status, query_tenant, request_endpoint,
    AppSubject, CatalogQuery, CatalogRequest,
};
use crate::router::{is_catalog_router, mounts, router_endpoints, AppRoute};

verus! {

/// The common prefix of every path of the catalog app surface.
pub open spec fn catalog_path_prefix() -> Seq<char> {
    "/app/v3/api/catalog/"@
}

/// Every endpoint is one of the seven read endpoints, and every such endpoint
/// appears exactly once in `router_endpoints()` and once in `manifest_endpoints()`.
proof fn lemma_endpoint_lists()
    ensures
        router_endpoints().len() == 7,
        manifest_endpoints().len() == 7,
        forall|e: CatalogEndpoint| #[trigger] router_endpoints().contains(e),
        forall|e: CatalogEndpoint| #[trigger] manifest_endpoints().contains(e),
        forall|i: int, j: int|
            0 <= i < 7 && 0 <= j < 7 && i != j ==> #[trigger] router_endpoints()[i]
                != #[trigger] router_endpoints()[j],
        forall|i: int, j: int|
            0 <= i < 7 && 0 <= j < 7 && i != j ==> #[trigger] manifest_endpoints()[i]
                != #[trigger] manifest_endpoints()[j],
{
    let r = router_endpoints();
    let m = manifest_endpoints();
    assert(r[0] == CatalogEndpoint::List(ListResource::Categories));
    assert(r[1] == CatalogEndpoint::Retrieve(RetrieveResource::Category));
    assert(r[2] == CatalogEndpoint::List(ListResource::Attributes));
    assert(r[3] == CatalogEndpoint::List(ListResource::Products));
    assert(r[4] == CatalogEndpoint::Retrieve(RetrieveResource::Product));
    assert(r[5] == CatalogEndpoint::List(ListResource::ProductSkus));
    assert(r[6] == CatalogEndpoint::Retrieve(RetrieveResource::Sku));
    assert(m[0] == CatalogEndpoint::List(ListResource::Attributes));
    assert(m[1] == CatalogEndpoint::List(ListResource::Categories));
    assert(m[2] == CatalogEndpoint::Retrieve(RetrieveResource::Category));
    assert(m[3] == CatalogEndpoint::List(ListResource::Products));
    assert(m[4] == CatalogEndpoint::Retrieve(RetrieveResource::Product));
    assert(m[5] == CatalogEndpoint::List(ListResource::ProductSkus));
    assert(m[6] == CatalogEndpoint::Retrieve(RetrieveResource::Sku));
    assert forall|e: CatalogEndpoint| #[trigger] r.contains(e) by {
        match e {
            CatalogEndpoint::List(ListResource::Categories) => assert(r[0] == e),
            CatalogEndpoint::Retrieve(RetrieveResource::Category) => assert(r[1] == e),
            CatalogEndpoint::List(ListResource::Attributes) => assert(r[2] == e),
            CatalogEndpoint::List(ListResource::Products) => assert(r[3] == e),
            CatalogEndpoint::Retrieve(RetrieveResource::Product) => assert(r[4] == e),
            CatalogEndpoint::List(ListResource::ProductSkus) => assert(r[5] == e),
            CatalogEndpoint::Retrieve(RetrieveResource::Sku) => assert(r[6] == e),
        }
    }
    assert forall|e: CatalogEndpoint| #[trigger] m.contains(e) by {
        match e {
            CatalogEndpoint::List(ListResource::Attributes) => assert(m[0] == e),
            CatalogEndpoint::List(ListResource::Categories) => assert(m[1] == e),
            CatalogEndpoint::Retrieve(RetrieveResource::Category) => assert(m[2] == e),
            CatalogEndpoint::List(ListResource::Products) => assert(m[3] == e),
            CatalogEndpoint::Retrieve(RetrieveResource::Product) => assert(m[4] == e),
            CatalogEndpoint::List(ListResource::ProductSkus) => assert(m[5] == e),
            CatalogEndpoint::Retrieve(RetrieveResource::Sku) => assert(m[6] == e),
        }
    }
}

/// Distinct endpoints answer at distinct paths.
pub proof fn law_endpoint_paths_distinct(a: CatalogEndpoint, b: CatalogEndpoint)
    ensures
        a != b ==> endpoint_path(a) != endpoint_path(b),
{
    reveal_strlit("/app/v3/api/catalog/categories");
    reveal_strlit("/app/v3/api/catalog/categories/{categoryId}");
    reveal_strlit("/app/v3/api/catalog/attributes");
    reveal_strlit("/app/v3/api/catalog/products");
    reveal_strlit("/app/v3/api/catalog/products/{productId}");
    reveal_strlit("/app/v3/api/catalog/products/{productId}/skus");
    reveal_strlit("/app/v3/api/catalog/skus/{skuId}");
    if a != b && endpoint_path(a).len() == endpoint_path(b).len() {
        assert(endpoint_path(a)[20] != endpoint_path(b)[20]);
    }
}

/// Distinct endpoints are authorized under distinct operation ids.
pub proof fn law_endpoint_operations_distinct(a: CatalogEndpoint, b: CatalogEndpoint)
    ensures
        a != b ==> endpoint_operation(a) != endpoint_operation(b),
{
    reveal_strlit("categories.list");
    reveal_strlit("categories.retrieve");
    reveal_strlit("attributes.list");
    reveal_strlit("products.list");
    reveal_strlit("products.retrieve");
    reveal_strlit("products.skus.list");
    reveal_strlit("skus.retrieve");
    if a != b && endpoint_operation(a).len() == endpoint_operation(b).len() {
        assert(endpoint_operation(a)[0] != endpoint_operation(b)[0]);
    }
}

/// Every path of the surface lies under the catalog app prefix.
pub proof fn law_paths_under_catalog_prefix(e: CatalogEndpoint)
    ensures
        endpoint_path(e).len() > catalog_path_prefix().len(),
        endpoint_path(e).take(catalog_path_prefix().len() as int) == catalog_path_prefix(),
{
    reveal_strlit("/app/v3/api/catalog/");
    reveal_strlit("/app/v3/api/catalog/categories");
    reveal_strlit("/app/v3/api/catalog/categories/{categoryId}");
    reveal_strlit("/app/v3/api/catalog/attributes");
    reveal_strlit("/app/v3/api/catalog/products");
    reveal_strlit("/app/v3/api/catalog/products/{productId}");
    reveal_strlit("/app/v3/api/catalog/products/{productId}/skus");
    reveal_strlit("/app/v3/api/catalog/skus/{skuId}");
    assert(endpoint_path(e).take(20) =~= catalog_path_prefix());
}

/// The router mounts every endpoint exactly once, each at its own path, and
/// every mounted route is a read (`GET`).
pub proof fn law_router_mounts_each_endpoint_once(routes: Seq<AppRoute>)
    requires
        is_catalog_router(routes),
    ensures
        forall|i: int| 0 <= i < routes.len() ==> (#[trigger] routes[i]).method == HttpMethod::Get,
        forall|e: CatalogEndpoint| #[trigger] mounts(routes, e),
        forall|i: int, j: int|
            0 <= i < routes.len() && 0 <= j < routes.len() && i != j ==> (#[trigger] routes[i]).path@
                != (#[trigger] routes[j]).path@,
{
    lemma_endpoint_lists();
    assert forall|e: CatalogEndpoint| #[trigger] mounts(routes, e) by {
        let i = router_endpoints().index_of(e);
        assert(routes[i].endpoint == e);
    }
    assert forall|i: int, j: int|
        0 <= i < routes.len() && 0 <= j < routes.len() && i != j implies (#[trigger] routes[i]).path@
        != (#[trigger] routes[j]).path@ by {
        assert(router_endpoints()[i] != router_endpoints()[j]);
        law_endpoint_paths_distinct(routes[i].endpoint, routes[j].endpoint);
    }
}

/// The manifest names every endpoint exactly once: its paths are distinct, its
/// operation ids are distinct, and every entry is a dual-token `GET` owned by
/// the catalog capability.
pub proof fn law_manifest_names_each_endpoint_once(routes: Seq<HttpRoute>)
    requires
        is_catalog_manifest(routes),
    ensures
        forall|i: int|
            0 <= i < routes.len() ==> {
                &&& (#[trigger] routes[i]).method == HttpMethod::Get
                &&& routes[i].auth == RouteAuth::DualToken
                &&& routes[i].capability@ == catalog_capability()
            },
        forall|e: CatalogEndpoint| #[trigger] names(routes, e),
        forall|i: int, j: int|
            0 <= i < routes.len() && 0 <= j < routes.len() && i != j ==> {
                &&& (#[trigger] routes[i]).path@ != (#[trigger] routes[j]).path@
                &&& routes[i].operation@ != routes[j].operation@
            },
{
    lemma_endpoint_lists();
    assert forall|e: CatalogEndpoint| #[trigger] names(routes, e) by {
        let i = manifest_endpoints().index_of(e);
        assert(routes[i].path@ == endpoint_path(e));
    }
    assert forall|i: int, j: int|
        0 <= i < routes.len() && 0 <= j < routes.len() && i != j implies {
        &&& (#[trigger] routes[i]).path@ != (#[trigger] routes[j]).path@
        &&& routes[i].operation@ != routes[j].operation@
    } by {
        assert(manifest_endpoints()[i] != manifest_endpoints()[j]);
        law_endpoint_paths_distinct(manifest_endpoints()[i], manifest_endpoints()[j]);
        law_endpoint_operations_distinct(manifest_endpoints()[i], manifest_endpoints()[j]);
    }
}

/// The gateway authorizes exactly the routes that the router answers: every
/// mounted route has one manifest entry with the same method and path, under
/// the operation id of the route's endpoint, and every manifest entry names a
/// mounted route.
pub proof fn law_manifest_matches_router(routes: Seq<AppRoute>, manifest: Seq<HttpRoute>)
    requires
        is_catalog_router(routes),
        is_catalog_manifest(manifest),
    ensures
        routes.len() == manifest.len(),
        forall|i: int|
            0 <= i < routes.len() ==> exists|j: int|
                0 <= j < manifest.len() && (#[trigger] manifest[j]).method == (#[trigger] routes[i]).method
                    && manifest[j].path@ == routes[i].path@
                    && manifest[j].operation@ == endpoint_operation(routes[i].endpoint),
        forall|j: int|
            0 <= j < manifest.len() ==> exists|i: int|
                0 <= i < routes.len() && (#[trigger] routes[i]).method == (#[trigger] manifest[j]).method
                    && routes[i].path@ == manifest[j].path@
                    && endpoint_operation(routes[i].endpoint) == manifest[j].operation@,
{
    lemma_endpoint_lists();
    assert forall|i: int| 0 <= i < routes.len() implies exists|j: int|
        0 <= j < manifest.len() && (#[trigger] manifest[j]).method == (#[trigger] routes[i]).method
            && manifest[j].path@ == routes[i].path@
            && manifest[j].operation@ == endpoint_operation(routes[i].endpoint) by {
        let e = routes[i].endpoint;
        let j = manifest_endpoints().index_of(e);
        assert(manifest[j].path@ == endpoint_path(e));
    }
    assert forall|j: int| 0 <= j < manifest.len() implies exists|i: int|
        0 <= i < routes.len() && (#[trigger] routes[i]).method == (#[trigger] manifest[j]).method
            && routes[i].path@ == manifest[j].path@
            && endpoint_operation(routes[i].endpoint) == manifest[j].operation@ by {
        let e = manifest_endpoints()[j];
        let i = router_endpoints().index_of(e);
        assert(routes[i].endpoint == e);
    }
}

/// A query feeds the store call of the endpoint that its request addresses,
/// and is scoped to the caller's tenant.
pub proof fn law_query_addresses_request_in_caller_tenant(
    request: CatalogRequest,
    subject: AppSubject,
    q: CatalogQuery,
)
    requires
        query_for(request, subject, q),
    ensures
        query_endpoint(q) == request_endpoint(request),
        query_tenant(q) == subject.tenant_id,
{
}

/// Every list query is the buyer's view of the catalog: its status filter is
/// pinned to `active`.
pub proof fn law_list_queries_read_active_only(request: CatalogRequest, subject: AppSubject, q: CatalogQuery)
    requires
        query_for(request, subject, q),
    ensures
        query_endpoint(q) is List ==> is_active_status(query_status(q)),
{
}

/// Filters that the routes' authored contracts do not publish never reach the
/// store: the product list has no text filter and the SKU list no attribute
/// value filter.
pub proof fn law_unpublished_filters_absent(request: CatalogRequest, subject: AppSubject, q: CatalogQuery)
    requires
        query_for(request, subject, q),
    ensures
        q matches CatalogQuery::ProductList { q: text, .. } ==> text is None,
        q matches CatalogQuery::SkuList { attribute_value_id, .. } ==> attribute_value_id is None,
{
}

/// A caller-supplied shop narrows the product list to that shop; without one
/// the list is scoped to the caller's organization.
pub proof fn law_shop_overrides_organization(request: CatalogRequest, subject: AppSubject, q: CatalogQuery)
    requires
        query_for(request, subject, q),
        request is ListProducts,
    ensures
        q matches CatalogQuery::ProductList { organization_id, .. } && organization_id == (
        match request {
            CatalogRequest::ListProducts { shop_id: Some(shop), .. } => Some(shop),
            _ => subject.organization_id,
        }),
{
}

/// The product list passes the caller's category, product type, sort and
/// paging through to the store unchanged, whether or not a shop is given.
pub proof fn law_product_list_keeps_filters(request: CatalogRequest, subject: AppSubject, q: CatalogQuery)
    requires
        query_for(request, subject, q),
        request is ListProducts,
    ensures
        match (request, q) {
            (
                CatalogRequest::ListProducts { category_id, product_type, sort, page, page_size, .. },
                CatalogQuery::ProductList {
                    category_id: c,
                    product_type: pt,
                    sort: so,
                    page: pg,
                    page_size: ps,
                    ..
                },
            ) => c == category_id && pt == product_type && so == sort && pg == page && ps == page_size,
            _ => false,
        },
{
}

/// Two product list requests that differ only in the shop ask the store for
/// the same category, product type, sort and page; the shop changes only the
/// scope.
pub proof fn law_product_filters_independent_of_shop(
    r1: CatalogRequest,
    r2: CatalogRequest,
    subject: AppSubject,
    q1: CatalogQuery,
    q2: CatalogQuery,
)
    requires
        query_for(r1, subject, q1),
        query_for(r2, subject, q2),
        r1 is ListProducts,
        r2 is ListProducts,
        r1->ListProducts_category_id == r2->ListProducts_category_id,
        r1->ListProducts_product_type == r2->ListProducts_product_type,
        r1->ListProducts_sort == r2->ListProducts_sort,
        r1->ListProducts_page == r2->ListProducts_page,
        r1->ListProducts_page_size == r2->ListProducts_page_size,
    ensures
        q1 is ProductList && q2 is ProductList,
        q1->ProductList_category_id == q2->ProductList_category_id,
        q1->ProductList_product_type == q2->ProductList_product_type,
        q1->ProductList_sort == q2->ProductList_sort,
        q1->ProductList_page == q2->ProductList_page,
        q1->ProductList_page_size == q2->ProductList_page_size,
        q1->ProductList_tenant_id == q2->ProductList_tenant_id,
{
}

/// The SKU list reads the SKUs of the product named by the request, with the
/// request's page and page size, in the caller's organization.
pub proof fn law_sku_list_keeps_product_and_paging(request: CatalogRequest, subject: AppSubject, q: CatalogQuery)
    requires
        query_for(request, subject, q),
        request is ListProductSkus,
    ensures
        match (request, q) {
            (
                CatalogRequest::ListProductSkus { product_id, page, page_size },
                CatalogQuery::SkuList { organization_id: o, product_id: p, page: pg, page_size: ps, .. },
            ) => o == subject.organization_id && p == Some(product_id) && pg == page && ps
                == page_size,
            _ => false,
        },
{
}

/// The category list is scoped to the caller's organization whether or not a
/// parent is given, and keeps the parent and paging of the request.
pub proof fn law_category_list_scoped_to_caller(request: CatalogRequest, subject: AppSubject, q: CatalogQuery)
    requires
        query_for(request, subject, q),
        request is ListCategories,
    ensures
        match (request, q) {
            (
                CatalogRequest::ListCategories { parent_id, page, page_size },
                CatalogQuery::CategoryList { organization_id: o, parent_id: p, page: pg, page_size: ps, .. },
            ) => o == subject.organization_id && p == parent_id && pg == page && ps == page_size,
            _ => false,
        },
{
}

/// The attribute list is scoped to the caller's organization and keeps the
/// paging of the request.
pub proof fn law_attribute_list_scoped_to_caller(request: CatalogRequest, subject: AppSubject, q: CatalogQuery)
    requires
        query_for(request, subject, q),
        request is ListAttributes,
    ensures
        match (request, q) {
            (
                CatalogRequest::ListAttributes { page, page_size },
                CatalogQuery::AttributeList { organization_id: o, page: pg, page_size: ps, .. },
            ) => o == subject.organization_id && pg == page && ps == page_size,
            _ => false,
        },
{
}

/// A retrieve asks the store for exactly the id in the request, within the
/// caller's tenant.
pub proof fn law_retrieve_names_requested_id(request: CatalogRequest, subject: AppSubject, q: CatalogQuery)
    requires
        query_for(request, subject, q),
        request is RetrieveCategory || request is RetrieveProduct || request is RetrieveSku,
    ensures
        match (request, q) {
            (
                CatalogRequest::RetrieveCategory { category_id },
                CatalogQuery::CategoryRetrieve { tenant_id, category_id: id },
            ) => tenant_id == subject.tenant_id && id == category_id,
            (
                CatalogRequest::RetrieveProduct { product_id },
                CatalogQuery::ProductRetrieve { tenant_id, product_id: id },
            ) => tenant_id == subject.tenant_id && id == product_id,
            (
                CatalogRequest::RetrieveSku { sku_id },
                CatalogQuery::SkuRetrieve { tenant_id, sku_id: id },
            ) => tenant_id == subject.tenant_id && id == sku_id,
            _ => false,
        },
{
}

/// A retrieve does not depend on the caller's organization: two callers of the
/// same tenant asking for the same id get the same query.
pub proof fn law_retrieve_independent_of_organization(
    request: CatalogRequest,
    s1: AppSubject,
    s2: AppSubject,
    q1: CatalogQuery,
    q2: CatalogQuery,
)
    requires
        query_for(request, s1, q1),
        query_for(request, s2, q2),
        request is RetrieveCategory || request is RetrieveProduct || request is RetrieveSku,
        s1.tenant_id == s2.tenant_id,
    ensures
        q1 == q2,
{
}

/// Each endpoint answers a store failure with its own message, and each
/// retrieve answers a missing id with its own message.
pub proof fn law_reply_messages_distinct(a: CatalogEndpoint, b: CatalogEndpoint, x: RetrieveResource, y: RetrieveResource)
    ensures
        a != b ==> unavailable_message(a) != unavailable_message(b),
        x != y ==> not_found_message(x) != not_found_message(y),
{
    reveal_strlit("category list is unavailable");
    reveal_strlit("category read model is unavailable");
    reveal_strlit("attribute list is unavailable");
    reveal_strlit("product list is unavailable");
    reveal_strlit("product read model is unavailable");
    reveal_strlit("product sku list is unavailable");
    reveal_strlit("sku read model is unavailable");
    reveal_strlit("category was not found");
    reveal_strlit("product was not found");
    reveal_strlit("sku was not found");
    if a != b && unavailable_message(a).len() == unavailable_message(b).len() {
        assert(unavailable_message(a)[0] != unavailable_message(b)[0]);
    }
    if x != y {
        assert(not_found_message(x).len() != not_found_message(y).len());
    }
}

} // verus!
