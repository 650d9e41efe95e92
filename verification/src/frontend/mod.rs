//! What the pages of the application are made from: the labels of foreign
//! keys, overviews and the fields of forms.
pub mod dashboard;
pub mod forms;
pub mod overviews;
pub mod tables;
pub mod util;

pub use self::dashboard::{group_summaries, CategoryAccounts, CostCenterAccounts};
pub use self::forms::{Field, FileMetadata, HiddenValue, InputType};
pub use self::overviews::{GroupOverview, MembershipOverview};
pub use self::tables::{RenderableDatabaseEntry, TableRenderer};
pub use self::util::{Container, ForeignKeyStorage, LabelMap, List};
