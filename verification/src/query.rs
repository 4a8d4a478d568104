//! How a request and the caller's subject become a store query.
//!
//! Every route on this surface is the buyer's view of the catalog, so every
//! list query pins the status filter to `active`. Filters that a route's
//! authored contract does not publish (`q` on the product list,
//! `attribute_value_id` on the SKU list) are never read from the transport and
//! are always absent. The product list scopes by the caller-supplied `shop_id`
//! when there is one, and by the caller's organization otherwise: a shop is an
//! organization-owned storefront, so `shop_id` narrows the same axis.

use vstd::prelude::*;

use crate::endpoint::{CatalogEndpoint, ListResource, RetrieveResource};

verus! {

/// The authenticated caller of an app route: the tenant and, where the caller
/// acts for one, the organization.
#[derive(Clone, Debug, PartialEq, Eq)]
pub struct AppSubject {
    pub tenant_id: String,
    pub organization_id: Option<String>,
}

/// What a caller asks of the catalog surface: the route and the parameters
/// that the route's authored contract publishes (path and query string).
#[derive(Clone, Debug, PartialEq, Eq)]
pub enum CatalogRequest {
    ListCategories { parent_id: Option<String>, page: Option<i64>, page_size: Option<i64> },
    RetrieveCategory { category_id: String },
    ListAttributes { page: Option<i64>, page_size: Option<i64> },
    ListProducts {
        shop_id: Option<String>,
        category_id: Option<String>,
        product_type: Option<String>,
        sort: Option<String>,
        page: Option<i64>,
        page_size: Option<i64>,
    },
    RetrieveProduct { product_id: String },
    ListProductSkus { product_id: String, page: Option<i64>, page_size: Option<i64> },
    RetrieveSku { sku_id: String },
}

/// The arguments of a store query, before the store's own validation.
#[derive(Clone, Debug, PartialEq, Eq)]
pub enum CatalogQuery {
    CategoryList {
        tenant_id: String,
        organization_id: Option<String>,
        parent_id: Option<String>,
        status: Option<&'static str>,
        page: Option<i64>,
        page_size: Option<i64>,
    },
    CategoryRetrieve { tenant_id: String, category_id: String },
    AttributeList {
        tenant_id: String,
        organization_id: Option<String>,
        status: Option<&'static str>,
        page: Option<i64>,
        page_size: Option<i64>,
    },
    ProductList {
        tenant_id: String,
        organization_id: Option<String>,
        q: Option<String>,
        category_id: Option<String>,
        product_type: Option<String>,
        status: Option<&'static str>,
        sort: Option<String>,
        page: Option<i64>,
        page_size: Option<i64>,
    },
    ProductRetrieve { tenant_id: String, product_id: String },
    SkuList {
        tenant_id: String,
        organization_id: Option<String>,
        product_id: Option<String>,
        attribute_value_id: Option<String>,
        status: Option<&'static str>,
        page: Option<i64>,
        page_size: Option<i64>,
    },
    SkuRetrieve { tenant_id: String, sku_id: String },
}

/// The endpoint that a request addresses.
pub open spec fn request_endpoint(r: CatalogRequest) -> CatalogEndpoint {
    match r {
        CatalogRequest::ListCategories { .. } => CatalogEndpoint::List(ListResource::Categories),
        CatalogRequest::RetrieveCategory { .. } => CatalogEndpoint::Retrieve(RetrieveResource::Category),
        CatalogRequest::ListAttributes { .. } => CatalogEndpoint::List(ListResource::Attributes),
        CatalogRequest::ListProducts { .. } => CatalogEndpoint::List(ListResource::Products),
        CatalogRequest::RetrieveProduct { .. } => CatalogEndpoint::Retrieve(RetrieveResource::Product),
        CatalogRequest::ListProductSkus { .. } => CatalogEndpoint::List(ListResource::ProductSkus),
        CatalogRequest::RetrieveSku { .. } => CatalogEndpoint::Retrieve(RetrieveResource::Sku),
    }
}

/// The endpoint whose store call a query feeds.
pub open spec fn query_endpoint(q: CatalogQuery) -> CatalogEndpoint {
    match q {
        CatalogQuery::CategoryList { .. } => CatalogEndpoint::List(ListResource::Categories),
        CatalogQuery::CategoryRetrieve { .. } => CatalogEndpoint::Retrieve(RetrieveResource::Category),
        CatalogQuery::AttributeList { .. } => CatalogEndpoint::List(ListResource::Attributes),
        CatalogQuery::ProductList { .. } => CatalogEndpoint::List(ListResource::Products),
        CatalogQuery::ProductRetrieve { .. } => CatalogEndpoint::Retrieve(RetrieveResource::Product),
        CatalogQuery::SkuList { .. } => CatalogEndpoint::List(ListResource::ProductSkus),
        CatalogQuery::SkuRetrieve { .. } => CatalogEndpoint::Retrieve(RetrieveResource::Sku),
    }
}

/// The tenant that scopes a query.
pub open spec fn query_tenant(q: CatalogQuery) -> String {
    match q {
        CatalogQuery::CategoryList { tenant_id, .. } => tenant_id,
        CatalogQuery::CategoryRetrieve { tenant_id, .. } => tenant_id,
        CatalogQuery::AttributeList { tenant_id, .. } => tenant_id,
        CatalogQuery::ProductList { tenant_id, .. } => tenant_id,
        CatalogQuery::ProductRetrieve { tenant_id, .. } => tenant_id,
        CatalogQuery::SkuList { tenant_id, .. } => tenant_id,
        CatalogQuery::SkuRetrieve { tenant_id, .. } => tenant_id,
    }
}

/// The status filter of a list query; retrieve queries have none.
pub open spec fn query_status(q: CatalogQuery) -> Option<&'static str> {
    match q {
        CatalogQuery::CategoryList { status, .. } => status,
        CatalogQuery::AttributeList { status, .. } => status,
        CatalogQuery::ProductList { status, .. } => status,
        CatalogQuery::SkuList { status, .. } => status,
        _ => None,
    }
}

/// The status filter is present and reads `active`.
pub open spec fn is_active_status(status: Option<&'static str>) -> bool {
    status matches Some(s) && s@ == "active"@
}

/// The organization that scopes the product list: the caller-supplied shop
/// where there is one, the caller's organization otherwise.
pub open spec fn product_scope(shop_id: Option<String>, subject: AppSubject) -> Option<String> {
    match shop_id {
        Some(shop) => Some(shop),
        None => subject.organization_id,
    }
}

/// `q` is the store query that `request`, made by `subject`, asks for.
pub open spec fn query_for(request: CatalogRequest, subject: AppSubject, q: CatalogQuery) -> bool {
    match request {
        CatalogRequest::ListCategories { parent_id, page, page_size } => q matches CatalogQuery::CategoryList {
            tenant_id: t,
            organization_id: o,
            parent_id: p,
            status: s,
            page: pg,
            page_size: ps,
        } && t == subject.tenant_id && o == subject.organization_id && p == parent_id
            && is_active_status(s) && pg == page && ps == page_size,
        CatalogRequest::RetrieveCategory { category_id } => q == CatalogQuery::CategoryRetrieve {
            tenant_id: subject.tenant_id,
            category_id,
        },
        CatalogRequest::ListAttributes { page, page_size } => q matches CatalogQuery::AttributeList {
            tenant_id: t,
            organization_id: o,
            status: s,
            page: pg,
            page_size: ps,
        } && t == subject.tenant_id && o == subject.organization_id && is_active_status(s)
            && pg == page && ps == page_size,
        CatalogRequest::ListProducts { shop_id, category_id, product_type, sort, page, page_size } =>
            q matches CatalogQuery::ProductList {
            tenant_id: t,
            organization_id: o,
            q: text,
            category_id: c,
            product_type: pt,
            status: s,
            sort: so,
            page: pg,
            page_size: ps,
        } && t == subject.tenant_id && o == product_scope(shop_id, subject) && text is None
            && c == category_id && pt == product_type && is_active_status(s) && so == sort
            && pg == page && ps == page_size,
        CatalogRequest::RetrieveProduct { product_id } => q == CatalogQuery::ProductRetrieve {
            tenant_id: subject.tenant_id,
            product_id,
        },
        CatalogRequest::ListProductSkus { product_id, page, page_size } => q matches CatalogQuery::SkuList {
            tenant_id: t,
            organization_id: o,
            product_id: p,
            attribute_value_id: a,
            status: s,
            page: pg,
            page_size: ps,
        } && t == subject.tenant_id && o == subject.organization_id && p == Some(product_id)
            && a is None && is_active_status(s) && pg == page && ps == page_size,
        CatalogRequest::RetrieveSku { sku_id } => q == CatalogQuery::SkuRetrieve {
            tenant_id: subject.tenant_id,
            sku_id,
        },
    }
}

impl CatalogRequest {
    /// The endpoint that this request addresses.
    pub fn endpoint(&self) -> (e: CatalogEndpoint)
        ensures
            e == request_endpoint(*self),
    {
        match self {
            CatalogRequest::ListCategories { .. } => CatalogEndpoint::List(ListResource::Categories),
            CatalogRequest::RetrieveCategory { .. } => CatalogEndpoint::Retrieve(RetrieveResource::Category),
            CatalogRequest::ListAttributes { .. } => CatalogEndpoint::List(ListResource::Attributes),
            CatalogRequest::ListProducts { .. } => CatalogEndpoint::List(ListResource::Products),
            CatalogRequest::RetrieveProduct { .. } => CatalogEndpoint::Retrieve(RetrieveResource::Product),
            CatalogRequest::ListProductSkus { .. } => CatalogEndpoint::List(ListResource::ProductSkus),
            CatalogRequest::RetrieveSku { .. } => CatalogEndpoint::Retrieve(RetrieveResource::Sku),
        }
    }
}

impl CatalogQuery {
    /// The endpoint whose store call this query feeds.
    pub fn endpoint(&self) -> (e: CatalogEndpoint)
        ensures
            e == query_endpoint(*self),
    {
        match self {
            CatalogQuery::CategoryList { .. } => CatalogEndpoint::List(ListResource::Categories),
            CatalogQuery::CategoryRetrieve { .. } => CatalogEndpoint::Retrieve(RetrieveResource::Category),
            CatalogQuery::AttributeList { .. } => CatalogEndpoint::List(ListResource::Attributes),
            CatalogQuery::ProductList { .. } => CatalogEndpoint::List(ListResource::Products),
            CatalogQuery::ProductRetrieve { .. } => CatalogEndpoint::Retrieve(RetrieveResource::Product),
            CatalogQuery::SkuList { .. } => CatalogEndpoint::List(ListResource::ProductSkus),
            CatalogQuery::SkuRetrieve { .. } => CatalogEndpoint::Retrieve(RetrieveResource::Sku),
        }
    }
}

/// The store query that `request`, made by `subject`, asks for.
pub fn catalog_query(request: CatalogRequest, subject: AppSubject) -> (q: CatalogQuery)
    ensures
        query_for(request, subject, q),
{
    let AppSubject { tenant_id, organization_id } = subject;
    match request {
        CatalogRequest::ListCategories { parent_id, page, page_size } => CatalogQuery::CategoryList {
            tenant_id,
            organization_id,
            parent_id,
            status: Some("active"),
            page,
            page_size,
        },
        CatalogRequest::RetrieveCategory { category_id } => CatalogQuery::CategoryRetrieve {
            tenant_id,
            category_id,
        },
        CatalogRequest::ListAttributes { page, page_size } => CatalogQuery::AttributeList {
            tenant_id,
            organization_id,
            status: Some("active"),
            page,
            page_size,
        },
        CatalogRequest::ListProducts { shop_id, category_id, product_type, sort, page, page_size } => {
            let scope = match shop_id {
                Some(shop) => Some(shop),
                None => organization_id,
            };
            CatalogQuery::ProductList {
                tenant_id,
                organization_id: scope,
                q: None,
                category_id,
                product_type,
                status: Some("active"),
                sort,
                page,
                page_size,
            }
        },
        CatalogRequest::RetrieveProduct { product_id } => CatalogQuery::ProductRetrieve {
            tenant_id,
            product_id,
        },
        CatalogRequest::ListProductSkus { product_id, page, page_size } => CatalogQuery::SkuList {
            tenant_id,
            organization_id,
            product_id: Some(product_id),
            attribute_value_id: None,
            status: Some("active"),
            page,
            page_size,
        },
        CatalogRequest::RetrieveSku { sku_id } => CatalogQuery::SkuRetrieve { tenant_id, sku_id },
    }
}

} // verus!
