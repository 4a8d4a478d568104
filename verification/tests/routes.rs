use sdkwork_catalog::endpoint::{CatalogEndpoint, HttpMethod, ListResource, RetrieveResource};
use sdkwork_catalog::manifest::{gateway_route_manifest, HttpRoute, RouteAuth};
use sdkwork_catalog::router::app_catalog_routes;

#[test]
fn manifest_lists_the_seven_read_routes_in_order() {
    let manifest = gateway_route_manifest();
    let expected: Vec<(&str, &str)> = vec![
        ("/app/v3/api/catalog/attributes", "attributes.list"),
        ("/app/v3/api/catalog/categories", "categories.list"),
        ("/app/v3/api/catalog/categories/{categoryId}", "categories.retrieve"),
        ("/app/v3/api/catalog/products", "products.list"),
        ("/app/v3/api/catalog/products/{productId}", "products.retrieve"),
        ("/app/v3/api/catalog/products/{productId}/skus", "products.skus.list"),
        ("/app/v3/api/catalog/skus/{skuId}", "skus.retrieve"),
    ];
    assert_eq!(manifest.routes.len(), expected.len());
    for (route, (path, operation)) in manifest.routes.iter().zip(expected.iter()) {
        assert_eq!(route.method, HttpMethod::Get);
        assert_eq!(route.path, *path);
        assert_eq!(route.capability, "catalog");
        assert_eq!(route.operation, *operation);
        assert_eq!(route.auth, RouteAuth::DualToken);
    }
}

#[test]
fn dual_token_route_keeps_its_arguments() {
    let route = HttpRoute::dual_token(HttpMethod::Get, "/x", "cap", "op.list");
    assert_eq!(route.method, HttpMethod::Get);
    assert_eq!(route.path, "/x");
    assert_eq!(route.capability, "cap");
    assert_eq!(route.operation, "op.list");
    assert_eq!(route.auth, RouteAuth::DualToken);
}

#[test]
fn router_mounts_the_seven_read_routes_in_order() {
    let routes = app_catalog_routes();
    let expected = vec![
        (CatalogEndpoint::List(ListResource::Categories), "/app/v3/api/catalog/categories"),
        (
            CatalogEndpoint::Retrieve(RetrieveResource::Category),
            "/app/v3/api/catalog/categories/{categoryId}",
        ),
        (CatalogEndpoint::List(ListResource::Attributes), "/app/v3/api/catalog/attributes"),
        (CatalogEndpoint::List(ListResource::Products), "/app/v3/api/catalog/products"),
        (
            CatalogEndpoint::Retrieve(RetrieveResource::Product),
            "/app/v3/api/catalog/products/{productId}",
        ),
        (
            CatalogEndpoint::List(ListResource::ProductSkus),
            "/app/v3/api/catalog/products/{productId}/skus",
        ),
        (CatalogEndpoint::Retrieve(RetrieveResource::Sku), "/app/v3/api/catalog/skus/{skuId}"),
    ];
    assert_eq!(routes.len(), expected.len());
    for (route, (endpoint, path)) in routes.iter().zip(expected.iter()) {
        assert_eq!(route.method, HttpMethod::Get);
        assert_eq!(route.endpoint, *endpoint);
        assert_eq!(route.path, *path);
    }
}

#[test]
fn every_mounted_route_has_exactly_one_manifest_entry() {
    let routes = app_catalog_routes();
    let manifest = gateway_route_manifest();
    assert_eq!(routes.len(), manifest.routes.len());
    for route in &routes {
        let entries: Vec<_> = manifest
            .routes
            .iter()
            .filter(|m| m.method == route.method && m.path == route.path)
            .collect();
        assert_eq!(entries.len(), 1, "{}", route.path);
        assert_eq!(entries[0].operation, route.endpoint.operation_id());
    }
    for entry in &manifest.routes {
        assert!(routes.iter().any(|r| r.method == entry.method && r.path == entry.path));
    }
}

#[test]
fn paths_and_operations_are_distinct() {
    let manifest = gateway_route_manifest();
    for (i, a) in manifest.routes.iter().enumerate() {
        for (j, b) in manifest.routes.iter().enumerate() {
            if i != j {
                assert_ne!(a.path, b.path);
                assert_ne!(a.operation, b.operation);
            }
        }
    }
}

#[test]
fn surface_is_read_only_and_has_no_cart_or_address_route() {
    for route in app_catalog_routes() {
        assert_eq!(route.method, HttpMethod::Get);
        assert!(route.path.starts_with("/app/v3/api/catalog/"));
        assert!(!route.path.contains("cart"));
        assert!(!route.path.contains("address"));
    }
}

#[test]
fn endpoint_messages() {
    assert_eq!(
        CatalogEndpoint::List(ListResource::Categories).unavailable_message(),
        "category list is unavailable"
    );
    assert_eq!(
        CatalogEndpoint::Retrieve(RetrieveResource::Category).unavailable_message(),
        "category read model is unavailable"
    );
    assert_eq!(
        CatalogEndpoint::List(ListResource::Attributes).unavailable_message(),
        "attribute list is unavailable"
    );
    assert_eq!(
        CatalogEndpoint::List(ListResource::Products).unavailable_message(),
        "product list is unavailable"
    );
    assert_eq!(
        CatalogEndpoint::Retrieve(RetrieveResource::Product).unavailable_message(),
        "product read model is unavailable"
    );
    assert_eq!(
        CatalogEndpoint::List(ListResource::ProductSkus).unavailable_message(),
        "product sku list is unavailable"
    );
    assert_eq!(
        CatalogEndpoint::Retrieve(RetrieveResource::Sku).unavailable_message(),
        "sku read model is unavailable"
    );
    assert_eq!(RetrieveResource::Category.not_found_message(), "category was not found");
    assert_eq!(RetrieveResource::Product.not_found_message(), "product was not found");
    assert_eq!(RetrieveResource::Sku.not_found_message(), "sku was not found");
}
