//! A typed persistence layer on top of SQLite: typed identifiers, entity
//! descriptions with their statements, dependency-ordered schema creation,
//! validated pagination and a cache of labels for foreign keys.
pub mod accounting;
pub mod auth;
pub mod config;
pub mod database;
pub mod document;
pub mod error;
pub mod frontend;
pub mod migrations;
pub mod person;
pub mod text;
pub mod user;
pub mod util;

pub use self::error::RequestError;
pub use self::util::{Column, Date, DateError, Limit, Order, Pagination, PaginationError};
