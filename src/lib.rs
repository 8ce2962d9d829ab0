//! Session lifecycle, response cache and account-binding logic of the
//! Railways backend, with its contracts.

pub mod admin;
pub mod cache;
pub mod error;
pub mod ids;
pub mod model;
pub mod rebind;
pub mod session;
