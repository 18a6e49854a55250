//! Built-in security rules (detectors).
//!
//! Each detector documents the problem it addresses and the evidence it relies
//! on. Detectors are deterministic and only report findings backed by concrete
//! evidence.
pub mod util;
pub mod checks;
pub mod missing_authorization;
pub mod cross_contract_auth;
pub mod unbounded_iteration;
pub mod panic_prone;
pub mod unsafe_code;
pub mod ttl_management;
pub mod hardcoded_address;
pub mod builtin;
pub mod validation;
pub mod laws;
