//! A backend-agnostic layer over SQL drivers: one canonical value model, and the
//! mapping between it and a driver's native rows, columns and arguments.

pub mod arguments;
pub mod column;
pub mod connection;
pub mod driver;
pub mod error;
pub mod postgres;
pub mod row;
pub mod statement;
pub mod type_info;
pub mod types;
pub mod value;
