use sdkwork_catalog::assembly::{
    bind_address, bootstrap_failure, catalog_assembly_identity, require_postgres_pool,
    BootstrapStage,
};

#[test]
fn assembly_identity() {
    let id = catalog_assembly_identity();
    assert_eq!(id.module_id, "sdkwork-catalog");
    assert_eq!(id.title, "SDKWork Catalog API");
}

#[test]
fn postgres_pool_is_required() {
    assert_eq!(require_postgres_pool(true), Ok(()));
    assert_eq!(
        require_postgres_pool(false),
        Err("catalog requires a PostgreSQL database pool".to_string())
    );
}

#[test]
fn bootstrap_failures_name_their_stage() {
    assert_eq!(
        bootstrap_failure(BootstrapStage::ReadConfig, "CATALOG_DATABASE_URL is missing"),
        "read catalog database config failed: CATALOG_DATABASE_URL is missing"
    );
    assert_eq!(
        bootstrap_failure(BootstrapStage::CreatePool, "connection refused"),
        "create catalog database pool failed: connection refused"
    );
}

#[test]
fn bind_address_defaults_when_unconfigured() {
    assert_eq!(bind_address(None), "0.0.0.0:18099");
    assert_eq!(bind_address(Some("127.0.0.1:9000".to_string())), "127.0.0.1:9000");
}
