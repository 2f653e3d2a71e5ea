//! The endpoint catalog of the exchange's REST API, and the construction of the
//! clients that use it.
//!
//! The exchange serves four product families: spot, savings, USDT-margined
//! futures and coin-margined futures. [`api`] names every operation of every
//! family and resolves it to its request path; [`config`] holds the base
//! location of each family; [`api::Binance`] builds each type of client from
//! optional credentials and a configuration, bound to the location of its
//! own family. [`laws`] proves what holds of the catalog and of construction
//! as a whole.

pub mod account;
pub mod api;
pub mod client;
pub mod config;
pub mod futures;
pub mod general;
pub mod laws;
pub mod market;
pub mod savings;
pub mod userstream;
