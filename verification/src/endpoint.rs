//! The read endpoints of the catalog app surface.

use vstd::prelude::*;

verus! {

/// HTTP request methods.
#[derive(Clone, Copy, Debug, PartialEq, Eq)]
pub enum HttpMethod {
    Get,
    Head,
    Post,
    Put,
    Patch,
    Delete,
}

/// Collections that the surface lists, one page at a time.
#[derive(Clone, Copy, Debug, PartialEq, Eq)]
pub enum ListResource {
    Categories,
    Attributes,
    Products,
    ProductSkus,
}

/// Single resources that the surface opens by id.
#[derive(Clone, Copy, Debug, PartialEq, Eq)]
pub enum RetrieveResource {
    Category,
    Product,
    Sku,
}

/// One endpoint of the catalog app surface.
#[derive(Clone, Copy, Debug, PartialEq, Eq)]
pub enum CatalogEndpoint {
    List(ListResource),
    Retrieve(RetrieveResource),
}

/// The path template at which an endpoint answers.
pub open spec fn endpoint_path(e: CatalogEndpoint) -> Seq<char> {
    match e {
        CatalogEndpoint::List(ListResource::Categories) => "/app/v3/api/catalog/categories"@,
        CatalogEndpoint::Retrieve(RetrieveResource::Category) =>
            "/app/v3/api/catalog/categories/{categoryId}"@,
        CatalogEndpoint::List(ListResource::Attributes) => "/app/v3/api/catalog/attributes"@,
        CatalogEndpoint::List(ListResource::Products) => "/app/v3/api/catalog/products"@,
        CatalogEndpoint::Retrieve(RetrieveResource::Product) =>
            "/app/v3/api/catalog/products/{productId}"@,
        CatalogEndpoint::List(ListResource::ProductSkus) =>
            "/app/v3/api/catalog/products/{productId}/skus"@,
        CatalogEndpoint::Retrieve(RetrieveResource::Sku) => "/app/v3/api/catalog/skus/{skuId}"@,
    }
}

/// The operation id under which the gateway authorizes an endpoint.
pub open spec fn endpoint_operation(e: CatalogEndpoint) -> Seq<char> {
    match e {
        CatalogEndpoint::List(ListResource::Categories) => "categories.list"@,
        CatalogEndpoint::Retrieve(RetrieveResource::Category) => "categories.retrieve"@,
        CatalogEndpoint::List(ListResource::Attributes) => "attributes.list"@,
        CatalogEndpoint::List(ListResource::Products) => "products.list"@,
        CatalogEndpoint::Retrieve(RetrieveResource::Product) => "products.retrieve"@,
        CatalogEndpoint::List(ListResource::ProductSkus) => "products.skus.list"@,
        CatalogEndpoint::Retrieve(RetrieveResource::Sku) => "skus.retrieve"@,
    }
}

/// What an endpoint answers when the store cannot serve it.
pub open spec fn unavailable_message(e: CatalogEndpoint) -> Seq<char> {
    match e {
        CatalogEndpoint::List(ListResource::Categories) => "category list is unavailable"@,
        CatalogEndpoint::Retrieve(RetrieveResource::Category) =>
            "category read model is unavailable"@,
        CatalogEndpoint::List(ListResource::Attributes) => "attribute list is unavailable"@,
        CatalogEndpoint::List(ListResource::Products) => "product list is unavailable"@,
        CatalogEndpoint::Retrieve(RetrieveResource::Product) =>
            "product read model is unavailable"@,
        CatalogEndpoint::List(ListResource::ProductSkus) => "product sku list is unavailable"@,
        CatalogEndpoint::Retrieve(RetrieveResource::Sku) => "sku read model is unavailable"@,
    }
}

/// What a retrieve endpoint answers when the id names nothing.
pub open spec fn not_found_message(r: RetrieveResource) -> Seq<char> {
    match r {
        RetrieveResource::Category => "category was not found"@,
        RetrieveResource::Product => "product was not found"@,
        RetrieveResource::Sku => "sku was not found"@,
    }
}

impl CatalogEndpoint {
    /// The path template at which this endpoint answers.
    pub fn path(self) -> (p: &'static str)
        ensures
            p@ == endpoint_path(self),
    {
        match self {
            CatalogEndpoint::List(ListResource::Categories) => "/app/v3/api/catalog/categories",
            CatalogEndpoint::Retrieve(RetrieveResource::Category) =>
                "/app/v3/api/catalog/categories/{categoryId}",
            CatalogEndpoint::List(ListResource::Attributes) => "/app/v3/api/catalog/attributes",
            CatalogEndpoint::List(ListResource::Products) => "/app/v3/api/catalog/products",
            CatalogEndpoint::Retrieve(RetrieveResource::Product) =>
                "/app/v3/api/catalog/products/{productId}",
            CatalogEndpoint::List(ListResource::ProductSkus) =>
                "/app/v3/api/catalog/products/{productId}/skus",
            CatalogEndpoint::Retrieve(RetrieveResource::Sku) => "/app/v3/api/catalog/skus/{skuId}",
        }
    }

    /// The operation id under which the gateway authorizes this endpoint.
    pub fn operation_id(self) -> (op: &'static str)
        ensures
            op@ == endpoint_operation(self),
    {
        match self {
            CatalogEndpoint::List(ListResource::Categories) => "categories.list",
            CatalogEndpoint::Retrieve(RetrieveResource::Category) => "categories.retrieve",
            CatalogEndpoint::List(ListResource::Attributes) => "attributes.list",
            CatalogEndpoint::List(ListResource::Products) => "products.list",
            CatalogEndpoint::Retrieve(RetrieveResource::Product) => "products.retrieve",
            CatalogEndpoint::List(ListResource::ProductSkus) => "products.skus.list",
            CatalogEndpoint::Retrieve(RetrieveResource::Sku) => "skus.retrieve",
        }
    }

    /// What this endpoint answers when the store cannot serve it.
    pub fn unavailable_message(self) -> (m: &'static str)
        ensures
            m@ == unavailable_message(self),
    {
        match self {
            CatalogEndpoint::List(ListResource::Categories) => "category list is unavailable",
            CatalogEndpoint::Retrieve(RetrieveResource::Category) =>
                "category read model is unavailable",
            CatalogEndpoint::List(ListResource::Attributes) => "attribute list is unavailable",
            CatalogEndpoint::List(ListResource::Products) => "product list is unavailable",
            CatalogEndpoint::Retrieve(RetrieveResource::Product) =>
                "product read model is unavailable",
            CatalogEndpoint::List(ListResource::ProductSkus) => "product sku list is unavailable",
            CatalogEndpoint::Retrieve(RetrieveResource::Sku) => "sku read model is unavailable",
        }
    }
}

impl RetrieveResource {
    /// What the retrieve endpoint of this resource answers when the id names nothing.
    pub fn not_found_message(self) -> (m: &'static str)
        ensures
            m@ == not_found_message(self),
    {
        match self {
            RetrieveResource::Category => "category was not found",
            RetrieveResource::Product => "product was not found",
            RetrieveResource::Sku => "sku was not found",
        }
    }
}

} // verus!
