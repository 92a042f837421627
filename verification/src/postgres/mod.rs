//! The PostgreSQL backend: its native types, and their mapping to and
//! from the canonical model.

pub mod any;
pub mod arguments;
pub mod connection;
pub mod database;
pub mod row;
pub mod type_info;
pub mod value;
