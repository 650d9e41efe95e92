//! The dashboard: the sums of the accounts, by cost center and category.
use vstd::prelude::*;

use crate::accounting::{AccountSummary, Amount};

verus! {

/// The accounts of one category on one cost center, with their sums.
#[derive(Debug, Clone, PartialEq, Eq)]
pub struct CategoryAccounts {
    pub category: String,
    pub accounts: Vec<(String, Amount)>,
}

/// The categories of one cost center.
#[derive(Debug, Clone, PartialEq, Eq)]
pub struct CostCenterAccounts {
    pub cost_center: String,
    pub categories: Vec<CategoryAccounts>,
}

/// The accounts among `summaries` that belong to the given cost center and
/// category, each with its sum, in the order of the summaries.
pub open spec fn accounts_of(
    summaries: Seq<AccountSummary>,
    cost_center: Seq<char>,
    category: Seq<char>,
) -> Seq<(Seq<char>, Amount)>
    decreases summaries.len(),
{
    if summaries.len() == 0 {
        Seq::empty()
    } else {
        let before = accounts_of(summaries.drop_last(), cost_center, category);
        let last = summaries.last();
        if last.cost_center@ == cost_center && last.category@ == category {
            before.push((last.account@, last.amount))
        } else {
            before
        }
    }
}

/// The models of a list of accounts with their sums.
pub open spec fn account_views(accounts: Seq<(String, Amount)>) -> Seq<(Seq<char>, Amount)> {
    accounts.map_values(|account: (String, Amount)| (account.0@, account.1))
}

/// Whether the entry of a category on a cost center holds the accounts that
/// belong there, and at least one.
pub open spec fn entry_holds(
    groups: Seq<CostCenterAccounts>,
    summaries: Seq<AccountSummary>,
    i: int,
    a: int,
) -> bool {
    let entry = groups[i].categories@[a];
    entry.accounts@.len() > 0 && account_views(entry.accounts@) == accounts_of(
        summaries,
        groups[i].cost_center@,
        entry.category@,
    )
}

/// Whether a category on a cost center has an entry.
pub open spec fn has_entry(
    groups: Seq<CostCenterAccounts>,
    cost_center: Seq<char>,
    category: Seq<char>,
) -> bool {
    exists|i: int, a: int|
        0 <= i < groups.len() && 0 <= a < groups[i].categories@.len()
            && #[trigger] groups[i].categories@[a].category@ == category
            && groups[i].cost_center@ == cost_center
}

/// Whether `groups` is the dashboard of `summaries`: no cost center and, on
/// a cost center, no category stands twice; every entry holds the accounts
/// of its category on its cost center; and every category on a cost center
/// that an account belongs to has an entry.
pub open spec fn is_dashboard_of(
    groups: Seq<CostCenterAccounts>,
    summaries: Seq<AccountSummary>,
) -> bool {
    &&& forall|i: int, j: int|
        0 <= i < j < groups.len() ==> groups[i].cost_center@ != groups[j].cost_center@
    &&& forall|i: int, a: int, b: int|
        0 <= i < groups.len() && 0 <= a < b < groups[i].categories@.len()
            ==> groups[i].categories@[a].category@ != groups[i].categories@[b].category@
    &&& forall|i: int, a: int|
        0 <= i < groups.len() && 0 <= a < groups[i].categories@.len() ==> #[trigger] entry_holds(
            groups,
            summaries,
            i,
            a,
        )
    &&& forall|cost_center: Seq<char>, category: Seq<char>|
        accounts_of(summaries, cost_center, category).len() > 0 ==> #[trigger] has_entry(
            groups,
            cost_center,
            category,
        )
}

/// The place of a cost center among the groups.
fn find_group(groups: &Vec<CostCenterAccounts>, cost_center: &String) -> (place: Option<usize>)
    ensures
        match place {
            Some(i) => i < groups.len() && groups[i as int].cost_center@ == cost_center@,
            None => forall|i: int| 0 <= i < groups.len() ==> groups[i].cost_center@ != cost_center@,
        },
{
    let mut i: usize = 0;
    while i < groups.len()
        invariant
            i <= groups.len(),
            forall|k: int| 0 <= k < i ==> groups[k].cost_center@ != cost_center@,
        decreases groups.len() - i,
    {
        if groups[i].cost_center == *cost_center {
            return Some(i);
        }
        i += 1;
    }
    None
}

/// The place of a category among the categories of a cost center.
fn find_category(categories: &Vec<CategoryAccounts>, category: &String) -> (place: Option<usize>)
    ensures
        match place {
            Some(a) => a < categories.len() && categories[a as int].category@ == category@,
            None => forall|a: int|
                0 <= a < categories.len() ==> categories[a].category@ != category@,
        },
{
    let mut a: usize = 0;
    while a < categories.len()
        invariant
            a <= categories.len(),
            forall|k: int| 0 <= k < a ==> categories[k].category@ != category@,
        decreases categories.len() - a,
    {
        if categories[a].category == *category {
            return Some(a);
        }
        a += 1;
    }
    None
}

/// Sort the sums of the accounts by cost center and, on each cost center,
/// by category. Cost centers, categories and accounts keep the order in
/// which they first come.
pub fn group_summaries(summaries: &Vec<AccountSummary>) -> (groups: Vec<CostCenterAccounts>)
    ensures
        is_dashboard_of(groups@, summaries@),
{
    let mut groups: Vec<CostCenterAccounts> = Vec::new();
    let mut n: usize = 0;
    assert(summaries@.subrange(0, 0).len() == 0);
    assert forall|cost_center: Seq<char>, category: Seq<char>|
        accounts_of(summaries@.subrange(0, 0), cost_center, category).len() == 0 by {}
    while n < summaries.len()
        invariant
            n <= summaries.len(),
            is_dashboard_of(groups@, summaries@.subrange(0, n as int)),
        decreases summaries.len() - n,
    {
        let summary = &summaries[n];
        let ghost before = groups@;
        let ghost seen = summaries@.subrange(0, n as int);
        let ghost next = summaries@.subrange(0, n + 1);
        let ghost cc = summary.cost_center@;
        let ghost cat = summary.category@;
        assert(next.drop_last() == seen);
        assert(next.last() == *summary);
        let account = (summary.account.clone(), summary.amount);
        let ghost place: (int, int);
        match find_group(&groups, &summary.cost_center) {
            Some(i) => {
                match find_category(&groups[i].categories, &summary.category) {
                    Some(a) => {
                        assert(entry_holds(before, seen, i as int, a as int));
                        groups[i].categories[a].accounts.push(account);
                        proof {
                            place = (i as int, a as int);
                            assert(account_views(groups@[i as int].categories@[a as int].accounts@)
                                =~= account_views(
                                before[i as int].categories@[a as int].accounts@,
                            ).push((summary.account@, summary.amount)));
                        }
                    },
                    None => {
                        let mut accounts: Vec<(String, Amount)> = Vec::new();
                        accounts.push(account);
                        groups[i].categories.push(
                            CategoryAccounts { category: summary.category.clone(), accounts },
                        );
                        proof {
                            place = (i as int, groups@[i as int].categories@.len() - 1);
                            if accounts_of(seen, cc, cat).len() > 0 {
                                assert(has_entry(before, cc, cat));
                                let (i2, a2) = choose|i2: int, a2: int|
                                    0 <= i2 < before.len() && 0 <= a2
                                        < before[i2].categories@.len()
                                        && #[trigger] before[i2].categories@[a2].category@ == cat
                                        && before[i2].cost_center@ == cc;
                                if i2 < i {
                                    assert(before[i2].cost_center@
                                        != before[i as int].cost_center@);
                                }
                                if i < i2 {
                                    assert(before[i as int].cost_center@
                                        != before[i2].cost_center@);
                                }
                                assert(false);
                            }
                            assert(account_views(accounts@) =~= seq![
                                (summary.account@, summary.amount),
                            ]);
                        }
                    },
                }
            },
            None => {
                let mut accounts: Vec<(String, Amount)> = Vec::new();
                accounts.push(account);
                let mut categories: Vec<CategoryAccounts> = Vec::new();
                categories.push(CategoryAccounts { category: summary.category.clone(), accounts });
                groups.push(
                    CostCenterAccounts { cost_center: summary.cost_center.clone(), categories },
                );
                proof {
                    place = (groups@.len() - 1, 0);
                    if accounts_of(seen, cc, cat).len() > 0 {
                        assert(has_entry(before, cc, cat));
                        let (i2, a2) = choose|i2: int, a2: int|
                            0 <= i2 < before.len() && 0 <= a2 < before[i2].categories@.len()
                                && #[trigger] before[i2].categories@[a2].category@ == cat
                                && before[i2].cost_center@ == cc;
                        assert(false);
                    }
                    assert(account_views(accounts@) =~= seq![(summary.account@, summary.amount)]);
                }
            },
        }
        proof {
            let after = groups@;
            assert(after[place.0].cost_center@ == cc);
            assert(after[place.0].categories@[place.1].category@ == cat);
            assert forall|i: int, a: int|
                0 <= i < after.len() && 0 <= a
                    < after[i].categories@.len() implies #[trigger] entry_holds(
                after,
                next,
                i,
                a,
            ) by {
                if i == place.0 && a == place.1 {
                    assert(accounts_of(next, cc, cat) == accounts_of(seen, cc, cat).push(
                        (summary.account@, summary.amount),
                    ));
                    assert(after[i].categories@[a].accounts@.len() > 0);
                    assert(account_views(after[i].categories@[a].accounts@) == accounts_of(
                        next,
                        cc,
                        cat,
                    ));
                } else {
                    assert(entry_holds(before, seen, i, a));
                    assert(after[i].categories@[a] == before[i].categories@[a]);
                    assert(after[i].cost_center@ == before[i].cost_center@);
                    if i == place.0 {
                        if a < place.1 {
                            assert(after[i].categories@[a].category@
                                != after[i].categories@[place.1].category@);
                        } else {
                            assert(after[i].categories@[place.1].category@
                                != after[i].categories@[a].category@);
                        }
                    } else {
                        if i < place.0 {
                            assert(after[i].cost_center@ != after[place.0].cost_center@);
                        } else {
                            assert(after[place.0].cost_center@ != after[i].cost_center@);
                        }
                    }
                    assert(accounts_of(
                        next,
                        after[i].cost_center@,
                        after[i].categories@[a].category@,
                    ) == accounts_of(
                        seen,
                        after[i].cost_center@,
                        after[i].categories@[a].category@,
                    ));
                }
            }
            assert forall|cost_center: Seq<char>, category: Seq<char>|
                accounts_of(next, cost_center, category).len() > 0 implies #[trigger] has_entry(
                after,
                cost_center,
                category,
            ) by {
                if cost_center == cc && category == cat {
                    assert(after[place.0].categories@[place.1].category@ == category);
                } else {
                    assert(has_entry(before, cost_center, category));
                    let (i, a) = choose|i: int, a: int|
                        0 <= i < before.len() && 0 <= a < before[i].categories@.len()
                            && #[trigger] before[i].categories@[a].category@ == category
                            && before[i].cost_center@ == cost_center;
                    assert(after[i].categories@[a].category@ == category);
                }
            }
        }
        n += 1;
    }
    assert(summaries@.subrange(0, n as int) == summaries@);
    groups
}

} // verus!
