//! The browser side: what is asked of K-Ruoka, what its answers mean, and when the
//! browser that asks is started, replaced or given up.

pub mod basket;
pub mod chrome;
pub mod error;
pub mod limiter;
pub mod offers;
pub mod page;
pub mod profile;
pub mod response;
pub mod script;
pub mod session;

pub use error::ApiError;
