//! Bookkeeping: amounts of money and the entities that carry them.
pub mod account_summary;
pub mod accounts;
pub mod amount;
pub mod category;
pub mod cost_center;
pub mod entry;

pub use self::account_summary::AccountSummary;
pub use self::accounts::Account;
pub use self::amount::{Amount, AmountError};
pub use self::category::Category;
pub use self::cost_center::CostCenter;
pub use self::entry::Entry;
