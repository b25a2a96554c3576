//! The engine of a self-updating installer: credentials, authentication,
//! the framework state and the self-replace retry protocol.

pub mod claims;
pub mod config;
pub mod credentials;
pub mod form;
pub mod framework;
pub mod json;
pub mod response;
pub mod services;
pub mod swap;
pub mod token;
