//! Helpers of the storage layer: the paging of listings.
pub mod bytes;
pub mod date;
pub mod flexible_input;
pub mod pagination;
pub mod pdf_output;

pub use self::date::{Date, DateError};
pub use self::flexible_input::{DocumentForm, FlexibleInput, MappingError};
pub use self::pagination::{Column, Length, Limit, Order, Pagination, PaginationError};
pub use self::pdf_output::PdfOutput;
