//! The catalog API assembly: its identity, its database requirement, the
//! wording of the host's bootstrap failures and the standalone gateway's
//! bind address.
//!
//! Catalog is an API-only dependency surface: every route reads tables owned
//! by the merchandise module, so the assembly needs a shared PostgreSQL pool
//! but no schema of its own.

use vstd::prelude::*;

verus! {

/// The indivisible identity under which the catalog contributes its routes.
#[derive(Clone, Copy, Debug, PartialEq, Eq)]
pub struct AssemblyIdentity {
    pub module_id: &'static str,
    pub title: &'static str,
}

/// The identity of the catalog API assembly.
pub fn catalog_assembly_identity() -> (id: AssemblyIdentity)
    ensures
        id.module_id@ == "sdkwork-catalog"@,
        id.title@ == "SDKWork Catalog API"@,
{
    AssemblyIdentity { module_id: "sdkwork-catalog", title: "SDKWork Catalog API" }
}

/// The error of an assembly asked to run on a pool that is not PostgreSQL.
pub open spec fn postgres_required_message() -> Seq<char> {
    "catalog requires a PostgreSQL database pool"@
}

/// The catalog runs only on a PostgreSQL pool: any other pool is refused.
pub fn require_postgres_pool(is_postgres: bool) -> (r: Result<(), String>)
    ensures
        is_postgres <==> r is Ok,
        r matches Err(message) ==> message@ == postgres_required_message(),
{
    if is_postgres {
        Ok(())
    } else {
        Err("catalog requires a PostgreSQL database pool".to_owned())
    }
}

/// The stages of the host's bootstrap that can fail.
#[derive(Clone, Copy, Debug, PartialEq, Eq)]
pub enum BootstrapStage {
    /// Reading the catalog database configuration from the environment.
    ReadConfig,
    /// Opening the catalog database pool.
    CreatePool,
}

/// How a failure at each bootstrap stage is introduced.
pub open spec fn bootstrap_failure_prefix(stage: BootstrapStage) -> Seq<char> {
    match stage {
        BootstrapStage::ReadConfig => "read catalog database config failed: "@,
        BootstrapStage::CreatePool => "create catalog database pool failed: "@,
    }
}

/// The message of a bootstrap failure: the stage that failed, then what the
/// failing component reported.
pub fn bootstrap_failure(stage: BootstrapStage, detail: &str) -> (m: String)
    ensures
        m@ == bootstrap_failure_prefix(stage) + detail@,
{
    let prefix: &str = match stage {
        BootstrapStage::ReadConfig => "read catalog database config failed: ",
        BootstrapStage::CreatePool => "create catalog database pool failed: ",
    };
    let mut message = prefix.to_owned();
    message.append(detail);
    message
}

/// The address at which the standalone gateway listens when none is configured.
pub open spec fn default_bind_address() -> Seq<char> {
    "0.0.0.0:18099"@
}

/// The standalone gateway listens at the configured address, or at the
/// default one when none is configured.
pub fn bind_address(configured: Option<String>) -> (addr: String)
    ensures
        match configured {
            Some(a) => addr == a,
            None => addr@ == default_bind_address(),
        },
{
    match configured {
        Some(a) => a,
        None => "0.0.0.0:18099".to_owned(),
    }
}

} // verus!
