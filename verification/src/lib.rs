//! A per-tenant backend balancer: it decides how backends are provisioned,
//! remembers where each tenant's backend lives, and decides how tenant
//! traffic is relayed to it.

pub mod auth_manager;
pub mod cache_provider;
pub mod instance_host;
pub mod routes;
