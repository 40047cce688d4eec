//! The logic of an MCP server that manages one K-Plussa account's K-Ruoka shopping cart.
//!
//! K-Ruoka has no public API, and the cart lives behind a private one that the browser's
//! cookies authenticate. So a real browser is kept on the shop's page, and requests are made
//! from inside it. What to ask for, what an answer means, when to ask again, when a browser
//! is launched or replaced, and how a user is walked through signing in are decided here, in
//! steps that say what to do next and take up what came of it.
//!
//! Nothing here can place an order: every request reads or changes a basket, or reads offers.

pub mod amount;
pub mod browser;
pub mod json;
pub mod login;
pub mod login_flow;
pub mod mcp;
pub mod probe;
pub mod text;
pub mod types;
