//! The storage layer: typed identifiers, records, the contracts that
//! storable types fulfil and the values exchanged with the store.
pub mod column_type;
pub mod dependency;
pub mod error;
pub mod outside;
pub mod primary_key;
pub mod record;
pub mod sample;
pub mod schema;
pub mod sqlite;
pub mod traits;
pub mod value;

pub use self::column_type::DatabaseType;
pub use self::dependency::{Dependency, DependencyView};
pub use self::error::{DatabaseError, ErrorKind};
pub use self::primary_key::{ParseError, PrimaryKey};
pub use self::record::Record;
pub use self::sqlite::{Database, Migration};
pub use self::traits::{
    DatabaseEntry, Decodable, DefaultGenerator, Indexable, Insertable, ReadBack, Referenceable,
    Selectable, SelectableByPrimaryKey, Sortable,
};
pub use self::value::{SqlValue, SqlValueView};
