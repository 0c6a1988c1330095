pub mod error;
pub mod network;
pub mod model;
pub mod keyed;
pub mod transaction;
pub mod ledger;
pub mod fee;
pub mod builder;
pub mod prelude;
