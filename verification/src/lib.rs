//! Verified core of the rumahl platform: runtime supervisor protocols,
//! configuration validation, identifier parsing and authentication decisions.
pub mod bytes;
pub mod text;
pub mod random;
pub mod clock;
pub mod domain_ids;
pub mod docker_runtime_target;
pub mod frame;
pub mod io_error;
pub mod runtime_model;
pub mod runtime_provider;
pub mod runtime_secrets;
pub mod runtime_secret_server;
pub mod digest;
pub mod docker_control;
pub mod staged_docker_image_resolver;
pub mod namespace_secret_target;
pub mod secret_store;
pub mod tpm2_key_provider;
pub mod supervisor_args;
pub mod app_operation_journal;
pub mod platform_api;
pub mod platform_service;
pub mod app_database_provider;
pub mod browser_session;
pub mod password_attempts;
pub mod oidc_grants;
