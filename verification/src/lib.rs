//! Verified core of an identity service: authentication contexts, scope
//! boundaries, role resolution, role assignments, SPIFFE bindings and password
//! hashing policy.

mod wrappers;
pub mod crypto;

pub mod util;
pub mod config;
pub mod password_hashing;
pub mod identity_service;
pub mod password_auth;
pub mod resource;
pub mod role;
pub mod identity;
pub mod credential;
pub mod spiffe;
pub mod assignment;
pub mod auth;
pub mod role_resolution;
pub mod assignment_backend;
pub mod assignment_service;
pub mod validated;
pub mod api_spiffe;
pub mod api_resource;
pub mod api_role_assignment;
