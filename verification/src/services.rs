//! The services that the user interface calls, each as a function from
//! what was received to what is answered.

pub mod authentication;
pub mod browser;
pub mod config;
pub mod dark_mode;
