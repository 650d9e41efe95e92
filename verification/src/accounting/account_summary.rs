//! The sums of the entries, by account and cost center.
use vstd::prelude::*;

use super::amount::Amount;
use crate::database::error::{DatabaseError, ErrorKind};
use crate::database::sqlite::{queried, Database};
use crate::database::column_type::DatabaseType;
use crate::database::traits::{deserialize_all, selected, selected_by, Decodable};
use crate::database::value::{row_view, SqlValue, SqlValueView};

verus! {

/// The sum of the entries of one account on one cost center.
#[derive(Debug, Clone, PartialEq, Eq)]
pub struct AccountSummary {
    pub account: String,
    pub cost_center: String,
    pub category: String,
    pub amount: Amount,
}

impl Decodable for AccountSummary {
    type Output = AccountSummary;

    open spec fn accepts(row: Seq<SqlValueView>) -> bool {
        &&& row.len() == 4
        &&& <Amount as DatabaseType>::accepts(row[0])
        &&& <String as DatabaseType>::accepts(row[1])
        &&& <String as DatabaseType>::accepts(row[2])
        &&& <String as DatabaseType>::accepts(row[3])
    }

    open spec fn decodes(row: Seq<SqlValueView>, output: AccountSummary) -> bool {
        &&& row.len() == 4
        &&& <Amount as DatabaseType>::decodes(row[0], output.amount)
        &&& <String as DatabaseType>::decodes(row[1], output.account)
        &&& <String as DatabaseType>::decodes(row[2], output.cost_center)
        &&& <String as DatabaseType>::decodes(row[3], output.category)
    }

    fn deserialize_sql(row: &Vec<SqlValue>) -> (output: Option<AccountSummary>) {
        if row.len() != 4 {
            return None;
        }
        let amount = match <Amount as DatabaseType>::from_sql(&row[0]) {
            Some(value) => value,
            None => {
                return None;
            },
        };
        let account = match <String as DatabaseType>::from_sql(&row[1]) {
            Some(value) => value,
            None => {
                return None;
            },
        };
        let cost_center = match <String as DatabaseType>::from_sql(&row[2]) {
            Some(value) => value,
            None => {
                return None;
            },
        };
        let category = match <String as DatabaseType>::from_sql(&row[3]) {
            Some(value) => value,
            None => {
                return None;
            },
        };
        Some(AccountSummary { account, cost_center, category, amount })
    }
}

/// The statement that sums the entries of every account and cost center,
/// sorted by cost center, category and account.
pub const SUMMARY_STATEMENT: &'static str =
    "SELECT SUM(amount), accounts.description, cost_centers.description, categories.description FROM entries INNER JOIN cost_centers ON cost_centers.id = cost_center INNER JOIN accounts ON accounts.id = account INNER JOIN categories ON categories.id = accounts.category GROUP BY account, cost_center ORDER BY cost_center, categories.id, account";

impl AccountSummary {
    /// Load the summaries: for every cost center and account the sum of the
    /// entries, sorted by cost center, category and account.
    pub fn load_all(database: &Database) -> (summaries: Result<Vec<Self>, DatabaseError>)
        ensures
            selected_by::<AccountSummary>(
                database,
                SUMMARY_STATEMENT@,
                Seq::<SqlValueView>::empty(),
                summaries,
            ),
            summaries is Ok ==> exists|rows: Seq<Option<Vec<SqlValue>>>| #[trigger]
                selected::<AccountSummary>(rows, summaries->Ok_0@),
            summaries is Err ==> summaries->Err_0.kind == ErrorKind::Store,
    {
        let text = SUMMARY_STATEMENT;
        let params: Vec<SqlValue> = Vec::new();
        let found = database.query(text, &params);
        let ghost given = found;
        proof {
            assert(row_view(params@) =~= Seq::<SqlValueView>::empty());
            assert(call_ensures(Database::query, (database, text, &params), given));
            assert(queried(database, text@, Seq::<SqlValueView>::empty(), given));
        }
        match found {
            Ok(rows) => {
                let decoded = deserialize_all::<AccountSummary>(&rows);
                assert(selected::<AccountSummary>(rows@, decoded@));
                let summaries = Ok(decoded);
                assert(summaries->Ok_0@ == decoded@);
                summaries
            },
            Err(error) => Err(error),
        }
    }
}

} // verus!
