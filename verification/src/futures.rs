//! Clients of the two futures families.

pub mod account;
pub mod coinaccount;
pub mod coingeneral;
pub mod coinmarket;
pub mod general;
pub mod market;
pub mod userstream;
