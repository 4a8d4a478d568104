use sdkwork_catalog::endpoint::{CatalogEndpoint, ListResource, RetrieveResource};
use sdkwork_catalog::query::{catalog_query, AppSubject, CatalogQuery, CatalogRequest};
use sdkwork_catalog::reply::{
    answer_list, answer_retrieve, plan_catalog_query, reject_query, Reply,
};

fn subject(org: Option<&str>) -> AppSubject {
    AppSubject { tenant_id: "tenant-1".to_string(), organization_id: org.map(|s| s.to_string()) }
}

#[test]
fn category_list_is_scoped_and_active() {
    let q = catalog_query(
        CatalogRequest::ListCategories {
            parent_id: Some("root".to_string()),
            page: Some(2),
            page_size: Some(20),
        },
        subject(Some("org-9")),
    );
    assert_eq!(
        q,
        CatalogQuery::CategoryList {
            tenant_id: "tenant-1".to_string(),
            organization_id: Some("org-9".to_string()),
            parent_id: Some("root".to_string()),
            status: Some("active"),
            page: Some(2),
            page_size: Some(20),
        }
    );
}

#[test]
fn attribute_list_is_scoped_and_active() {
    let q = catalog_query(
        CatalogRequest::ListAttributes { page: None, page_size: Some(5) },
        subject(None),
    );
    assert_eq!(
        q,
        CatalogQuery::AttributeList {
            tenant_id: "tenant-1".to_string(),
            organization_id: None,
            status: Some("active"),
            page: None,
            page_size: Some(5),
        }
    );
}

#[test]
fn product_list_shop_overrides_organization() {
    let q = catalog_query(
        CatalogRequest::ListProducts {
            shop_id: Some("shop-3".to_string()),
            category_id: Some("cat-1".to_string()),
            product_type: Some("physical".to_string()),
            sort: Some("-created".to_string()),
            page: Some(1),
            page_size: Some(10),
        },
        subject(Some("org-9")),
    );
    assert_eq!(
        q,
        CatalogQuery::ProductList {
            tenant_id: "tenant-1".to_string(),
            organization_id: Some("shop-3".to_string()),
            q: None,
            category_id: Some("cat-1".to_string()),
            product_type: Some("physical".to_string()),
            status: Some("active"),
            sort: Some("-created".to_string()),
            page: Some(1),
            page_size: Some(10),
        }
    );
}

#[test]
fn product_list_without_shop_uses_organization() {
    let q = catalog_query(
        CatalogRequest::ListProducts {
            shop_id: None,
            category_id: None,
            product_type: None,
            sort: None,
            page: None,
            page_size: None,
        },
        subject(Some("org-9")),
    );
    match q {
        CatalogQuery::ProductList { organization_id, q, status, .. } => {
            assert_eq!(organization_id, Some("org-9".to_string()));
            assert_eq!(q, None);
            assert_eq!(status, Some("active"));
        }
        other => panic!("unexpected query {:?}", other),
    }
}

#[test]
fn sku_list_is_bound_to_product_without_attribute_filter() {
    let q = catalog_query(
        CatalogRequest::ListProductSkus {
            product_id: "p-7".to_string(),
            page: Some(3),
            page_size: None,
        },
        subject(Some("org-9")),
    );
    assert_eq!(
        q,
        CatalogQuery::SkuList {
            tenant_id: "tenant-1".to_string(),
            organization_id: Some("org-9".to_string()),
            product_id: Some("p-7".to_string()),
            attribute_value_id: None,
            status: Some("active"),
            page: Some(3),
            page_size: None,
        }
    );
}

#[test]
fn retrieves_are_scoped_to_tenant_only() {
    assert_eq!(
        catalog_query(
            CatalogRequest::RetrieveCategory { category_id: "c-1".to_string() },
            subject(Some("org-9"))
        ),
        CatalogQuery::CategoryRetrieve {
            tenant_id: "tenant-1".to_string(),
            category_id: "c-1".to_string()
        }
    );
    assert_eq!(
        catalog_query(
            CatalogRequest::RetrieveProduct { product_id: "p-1".to_string() },
            subject(None)
        ),
        CatalogQuery::ProductRetrieve {
            tenant_id: "tenant-1".to_string(),
            product_id: "p-1".to_string()
        }
    );
    assert_eq!(
        catalog_query(CatalogRequest::RetrieveSku { sku_id: "s-1".to_string() }, subject(None)),
        CatalogQuery::SkuRetrieve { tenant_id: "tenant-1".to_string(), sku_id: "s-1".to_string() }
    );
}

#[test]
fn query_and_request_name_the_same_endpoint() {
    let request = CatalogRequest::ListProductSkus { product_id: "p".to_string(), page: None, page_size: None };
    let endpoint = request.endpoint();
    assert_eq!(endpoint, CatalogEndpoint::List(ListResource::ProductSkus));
    let q = catalog_query(request, subject(None));
    assert_eq!(q.endpoint(), endpoint);
}

#[test]
fn unresolved_subject_is_refused_before_any_query() {
    let r: Result<CatalogQuery, Reply<(), ()>> = plan_catalog_query(
        CatalogRequest::RetrieveSku { sku_id: "s".to_string() },
        Err("missing app context".to_string()),
    );
    assert_eq!(r, Err(Reply::Unauthorized { message: "missing app context".to_string() }));
}

#[test]
fn resolved_subject_gets_its_query() {
    let r: Result<CatalogQuery, Reply<(), ()>> = plan_catalog_query(
        CatalogRequest::RetrieveSku { sku_id: "s".to_string() },
        Ok(subject(None)),
    );
    assert_eq!(
        r,
        Ok(CatalogQuery::SkuRetrieve { tenant_id: "tenant-1".to_string(), sku_id: "s".to_string() })
    );
}

#[test]
fn rejected_query_is_invalid() {
    let r: Reply<(), ()> = reject_query("page_size must be positive".to_string());
    assert_eq!(r, Reply::Invalid { message: "page_size must be positive".to_string() });
}

#[test]
fn list_answers() {
    let page: Reply<Vec<u32>, &str> = answer_list(ListResource::Categories, Ok(vec![1, 2]));
    assert_eq!(page, Reply::Page { data: vec![1, 2] });
    let down: Reply<Vec<u32>, &str> = answer_list(ListResource::ProductSkus, Err("db down"));
    assert_eq!(
        down,
        Reply::Unavailable { message: "product sku list is unavailable", error: "db down" }
    );
}

#[test]
fn retrieve_answers() {
    let found: Reply<u32, &str> = answer_retrieve(RetrieveResource::Product, Ok(Some(7)));
    assert_eq!(found, Reply::Resource { data: 7 });
    let missing: Reply<u32, &str> = answer_retrieve(RetrieveResource::Sku, Ok(None));
    assert_eq!(missing, Reply::NotFound { message: "sku was not found" });
    let missing: Reply<u32, &str> = answer_retrieve(RetrieveResource::Category, Ok(None));
    assert_eq!(missing, Reply::NotFound { message: "category was not found" });
    let down: Reply<u32, &str> = answer_retrieve(RetrieveResource::Category, Err("timeout"));
    assert_eq!(
        down,
        Reply::Unavailable { message: "category read model is unavailable", error: "timeout" }
    );
}
