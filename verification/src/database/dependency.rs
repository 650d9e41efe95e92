//! The tables that a table needs, and the order in which they are created.
use vstd::prelude::*;

use super::error::{DatabaseError, ErrorKind};
use super::sqlite::{executed, Database};
use super::value::{row_view, SqlValue, SqlValueView};

verus! {

/// What has to exist before a table can be created: nothing, one other
/// table with what that one needs, or two such sets.
#[derive(Debug, PartialEq, Eq)]
pub enum Dependency {
    /// Nothing is needed.
    Unit,
    /// A table, its `CREATE TABLE` statement and what the table needs.
    Entry { table_name: &'static str, statement: String, depends_on: Box<Dependency> },
    /// Both sets are needed.
    Pair(Box<Dependency>, Box<Dependency>),
}

/// The mathematical model of a [`Dependency`].
pub enum DependencyView {
    Unit,
    Entry { table_name: Seq<char>, statement: Seq<char>, depends_on: Box<DependencyView> },
    Pair(Box<DependencyView>, Box<DependencyView>),
}

/// One step of a schema creation: the table that is created, the statement
/// that creates it, and the tables that it needs.
pub struct Step {
    pub table_name: Seq<char>,
    pub statement: Seq<char>,
    pub needs: Set<Seq<char>>,
}

impl Dependency {
    /// The model of the set.
    pub open spec fn model(&self) -> DependencyView
        decreases self,
    {
        match self {
            Dependency::Unit => DependencyView::Unit,
            Dependency::Entry { table_name, statement, depends_on } => DependencyView::Entry {
                table_name: table_name@,
                statement: statement@,
                depends_on: Box::new((**depends_on).model()),
            },
            Dependency::Pair(left, right) => DependencyView::Pair(
                Box::new((**left).model()),
                Box::new((**right).model()),
            ),
        }
    }
}

impl View for Dependency {
    type V = DependencyView;

    open spec fn view(&self) -> DependencyView {
        self.model()
    }
}

impl DependencyView {
    /// Every table of the set, with the tables that those need in turn.
    pub open spec fn tables(self) -> Set<Seq<char>>
        decreases self,
    {
        match self {
            DependencyView::Unit => Set::empty(),
            DependencyView::Entry { table_name, statement, depends_on } => {
                depends_on.tables().insert(table_name)
            },
            DependencyView::Pair(left, right) => left.tables().union(right.tables()),
        }
    }

    /// The steps that create every table of the set: for a table first what
    /// it needs and then the table itself, for two sets the first and then
    /// the second.
    pub open spec fn schedule(self) -> Seq<Step>
        decreases self,
    {
        match self {
            DependencyView::Unit => Seq::empty(),
            DependencyView::Entry { table_name, statement, depends_on } => {
                depends_on.schedule().push(
                    Step { table_name, statement, needs: depends_on.tables() },
                )
            },
            DependencyView::Pair(left, right) => left.schedule() + right.schedule(),
        }
    }
}

/// The statements of a schedule, in its order.
pub open spec fn statements(steps: Seq<Step>) -> Seq<Seq<char>> {
    steps.map_values(|step: Step| step.statement)
}

/// Whether the table `table_name` is created by one of the first `count`
/// steps.
pub open spec fn created_within(steps: Seq<Step>, count: int, table_name: Seq<char>) -> bool {
    exists|j: int|
        0 <= j < count && j < steps.len() && (#[trigger] steps[j]).table_name == table_name
}

/// Whether every step comes after the steps that create what it needs.
pub open spec fn in_order(steps: Seq<Step>) -> bool {
    forall|i: int, table_name: Seq<char>|
        0 <= i < steps.len() && (#[trigger] steps[i]).needs.contains(table_name)
            ==> #[trigger] created_within(steps, i, table_name)
}

/// The tables that exist once the steps have run on a store that held the
/// tables `existing`: a step adds its table unless the store holds it.
pub open spec fn tables_after(existing: Set<Seq<char>>, steps: Seq<Step>) -> Set<Seq<char>>
    decreases steps.len(),
{
    if steps.len() == 0 {
        existing
    } else {
        tables_after(existing, steps.drop_last()).insert(steps.last().table_name)
    }
}

/// The schedule of a set creates the tables of the set and no others.
pub proof fn lemma_schedule_tables(dependency: DependencyView, table_name: Seq<char>)
    ensures
        dependency.tables().contains(table_name) <==> created_within(
            dependency.schedule(),
            dependency.schedule().len() as int,
            table_name,
        ),
    decreases dependency,
{
    let steps = dependency.schedule();
    match dependency {
        DependencyView::Unit => {},
        DependencyView::Entry { table_name: own, statement, depends_on } => {
            lemma_schedule_tables(*depends_on, table_name);
            let before = depends_on.schedule();
            if depends_on.tables().contains(table_name) {
                let j = choose|j: int|
                    0 <= j < before.len() && (#[trigger] before[j]).table_name == table_name;
                assert(steps[j] == before[j]);
            }
            if own == table_name {
                assert(steps[steps.len() - 1].table_name == table_name);
            }
            if created_within(steps, steps.len() as int, table_name) {
                let j = choose|j: int|
                    0 <= j < steps.len() && (#[trigger] steps[j]).table_name == table_name;
                if j < before.len() {
                    assert(before[j] == steps[j]);
                }
            }
        },
        DependencyView::Pair(left, right) => {
            lemma_schedule_tables(*left, table_name);
            lemma_schedule_tables(*right, table_name);
            let first = left.schedule();
            let second = right.schedule();
            if left.tables().contains(table_name) {
                let j = choose|j: int|
                    0 <= j < first.len() && (#[trigger] first[j]).table_name == table_name;
                assert(steps[j] == first[j]);
            }
            if right.tables().contains(table_name) {
                let j = choose|j: int|
                    0 <= j < second.len() && (#[trigger] second[j]).table_name == table_name;
                assert(steps[first.len() + j] == second[j]);
            }
            if created_within(steps, steps.len() as int, table_name) {
                let j = choose|j: int|
                    0 <= j < steps.len() && (#[trigger] steps[j]).table_name == table_name;
                if j < first.len() {
                    assert(first[j] == steps[j]);
                } else {
                    assert(second[j - first.len()] == steps[j]);
                }
            }
        },
    }
}

/// In the schedule of a set, every table is created after all the tables
/// that it needs.
pub proof fn lemma_schedule_in_order(dependency: DependencyView)
    ensures
        in_order(dependency.schedule()),
    decreases dependency,
{
    let steps = dependency.schedule();
    match dependency {
        DependencyView::Unit => {},
        DependencyView::Entry { table_name: own, statement, depends_on } => {
            lemma_schedule_in_order(*depends_on);
            let before = depends_on.schedule();
            assert forall|i: int, table_name: Seq<char>|
                0 <= i < steps.len() && (#[trigger] steps[i]).needs.contains(
                    table_name,
                ) implies #[trigger] created_within(steps, i, table_name) by {
                if i < before.len() {
                    assert(steps[i] == before[i]);
                    assert(created_within(before, i, table_name));
                    let j = choose|j: int|
                        0 <= j < i && j < before.len() && (#[trigger] before[j]).table_name
                            == table_name;
                    assert(steps[j] == before[j]);
                } else {
                    lemma_schedule_tables(*depends_on, table_name);
                    let j = choose|j: int|
                        0 <= j < before.len() && (#[trigger] before[j]).table_name == table_name;
                    assert(steps[j] == before[j]);
                }
            }
        },
        DependencyView::Pair(left, right) => {
            lemma_schedule_in_order(*left);
            lemma_schedule_in_order(*right);
            let first = left.schedule();
            let second = right.schedule();
            assert forall|i: int, table_name: Seq<char>|
                0 <= i < steps.len() && (#[trigger] steps[i]).needs.contains(
                    table_name,
                ) implies #[trigger] created_within(steps, i, table_name) by {
                if i < first.len() {
                    assert(steps[i] == first[i]);
                    assert(created_within(first, i, table_name));
                    let j = choose|j: int|
                        0 <= j < i && j < first.len() && (#[trigger] first[j]).table_name
                            == table_name;
                    assert(steps[j] == first[j]);
                } else {
                    let k = i - first.len();
                    assert(steps[i] == second[k]);
                    assert(created_within(second, k, table_name));
                    let j = choose|j: int|
                        0 <= j < k && j < second.len() && (#[trigger] second[j]).table_name
                            == table_name;
                    assert(steps[first.len() + j] == second[j]);
                }
            }
        },
    }
}

/// Running steps adds their tables to the store and takes none away.
pub proof fn lemma_tables_after(existing: Set<Seq<char>>, steps: Seq<Step>, table_name: Seq<char>)
    ensures
        tables_after(existing, steps).contains(table_name) <==> existing.contains(table_name)
            || created_within(steps, steps.len() as int, table_name),
    decreases steps.len(),
{
    if steps.len() > 0 {
        let before = steps.drop_last();
        lemma_tables_after(existing, before, table_name);
        if created_within(before, before.len() as int, table_name) {
            let j = choose|j: int|
                0 <= j < before.len() && (#[trigger] before[j]).table_name == table_name;
            assert(steps[j] == before[j]);
        }
        if steps.last().table_name == table_name {
            assert(steps[steps.len() - 1].table_name == table_name);
        }
        if created_within(steps, steps.len() as int, table_name) {
            let j = choose|j: int|
                0 <= j < steps.len() && (#[trigger] steps[j]).table_name == table_name;
            if j < before.len() {
                assert(before[j] == steps[j]);
            }
        }
    }
}

/// Creating a schema a second time changes nothing: the store holds the
/// same tables as after the first time.
pub proof fn lemma_schedule_idempotent(existing: Set<Seq<char>>, dependency: DependencyView)
    ensures
        tables_after(tables_after(existing, dependency.schedule()), dependency.schedule())
            == tables_after(existing, dependency.schedule()),
        tables_after(existing, dependency.schedule()) == existing.union(dependency.tables()),
{
    let steps = dependency.schedule();
    let once = tables_after(existing, steps);
    let twice = tables_after(once, steps);
    assert forall|table_name: Seq<char>| twice.contains(table_name) == once.contains(
        table_name,
    ) by {
        lemma_tables_after(existing, steps, table_name);
        lemma_tables_after(once, steps, table_name);
    }
    assert(twice =~= once);
    assert forall|table_name: Seq<char>|
        once.contains(table_name) == existing.union(dependency.tables()).contains(
            table_name,
        ) by {
        lemma_tables_after(existing, steps, table_name);
        lemma_schedule_tables(dependency, table_name);
    }
    assert(once =~= existing.union(dependency.tables()));
}

impl Dependency {
    /// Append the statements that create every table of the set.
    fn push_statements(&self, out: &mut Vec<String>)
        ensures
            crate::database::dependency::texts(final(out)@) == crate::database::dependency::texts(
                old(out)@,
            ) + statements(self@.schedule()),
        decreases self,
    {
        match self {
            Dependency::Unit => {
                assert(statements(self@.schedule()) == Seq::<Seq<char>>::empty());
                assert(texts(out@) == texts(old(out)@) + statements(self@.schedule()));
            },
            Dependency::Entry { table_name, statement, depends_on } => {
                depends_on.push_statements(out);
                let ghost before = texts(out@);
                out.push(statement.clone());
                assert(texts(out@) == before.push(statement@));
                assert(statements(self@.schedule()) == statements(depends_on@.schedule()).push(
                    statement@,
                ));
                assert(texts(out@) == texts(old(out)@) + statements(self@.schedule()));
            },
            Dependency::Pair(left, right) => {
                left.push_statements(out);
                right.push_statements(out);
                assert(statements(self@.schedule()) == statements(left@.schedule()) + statements(
                    right@.schedule(),
                ));
                assert(texts(out@) == texts(old(out)@) + statements(self@.schedule()));
            },
        }
    }

    /// Create every table of the set, each after the tables that it needs.
    /// The statements of [`Dependency::creation_order`] are executed on the
    /// store one by one, with no value bound, and the first failure of the
    /// store ends the creation.
    pub fn create_dependencies(&self, database: &Database) -> (created: Result<
        (),
        DatabaseError,
    >)
        ensures
            created_in_order(database, statements(self@.schedule()), created),
            created is Err ==> created->Err_0.kind == ErrorKind::Store,
    {
        let order = self.creation_order();
        let params: Vec<SqlValue> = Vec::new();
        let run = |statement: &String| -> (changed: Result<usize, DatabaseError>)
            ensures
                executed(database, statement@, Seq::<SqlValueView>::empty(), changed),
                changed is Err ==> changed->Err_0.kind == ErrorKind::Store,
            {
                let text = statement.as_str();
                let changed = database.execute(text, &params);
                assert(row_view(params@) =~= Seq::<SqlValueView>::empty());
                assert(call_ensures(Database::execute, (database, text, &params), changed));
                changed
            };
        let created = run_statements(&order, run);
        proof {
            let wanted = statements(self@.schedule());
            assert forall|i: int|
                0 <= i < order@.len() && went_well(run, order@[i]) implies created_one(
                database,
                #[trigger] wanted[i],
            ) by {
                assert(texts(order@)[i] == order@[i]@);
                let changed = choose|changed: usize|
                    call_ensures(run, (&order@[i],), Ok::<usize, DatabaseError>(changed));
                assert(executed(
                    database,
                    wanted[i],
                    Seq::<SqlValueView>::empty(),
                    Ok::<usize, DatabaseError>(changed),
                ));
            }
            if created is Err {
                let error = created->Err_0;
                let failed = choose|failed: int|
                    0 <= failed < order@.len() && call_ensures(
                        run,
                        (&#[trigger] order@[failed],),
                        Err::<usize, DatabaseError>(error),
                    ) && forall|i: int| 0 <= i < failed ==> went_well(run, #[trigger] order@[i]);
                assert(texts(order@)[failed] == order@[failed]@);
                assert(executed(
                    database,
                    wanted[failed],
                    Seq::<SqlValueView>::empty(),
                    Err::<usize, DatabaseError>(error),
                ));
            }
        }
        created
    }

    /// The statements that create every table of the set, in an order in
    /// which each table comes after the tables that it needs.
    pub fn creation_order(&self) -> (order: Vec<String>)
        ensures
            texts(order@) == statements(self@.schedule()),
    {
        let mut order: Vec<String> = Vec::new();
        assert(texts(order@) == Seq::<Seq<char>>::empty());
        self.push_statements(&mut order);
        order
    }
}

/// Whether the store can execute `statement`, with no value bound, without
/// a failure.
pub open spec fn created_one(database: &Database, statement: Seq<char>) -> bool {
    exists|changed: usize|
        #[trigger] executed(
            database,
            statement,
            Seq::<SqlValueView>::empty(),
            Ok::<usize, DatabaseError>(changed),
        )
}

/// How the outcome of a creation relates to the store: all is well where
/// the store executed every statement, and else the first statement that
/// the store refused gives the failure, after which none was executed.
pub open spec fn created_in_order(
    database: &Database,
    statements: Seq<Seq<char>>,
    created: Result<(), DatabaseError>,
) -> bool {
    match created {
        Ok(()) => forall|i: int|
            0 <= i < statements.len() ==> created_one(database, #[trigger] statements[i]),
        Err(error) => exists|failed: int|
            0 <= failed < statements.len() && executed(
                database,
                #[trigger] statements[failed],
                Seq::<SqlValueView>::empty(),
                Err::<usize, DatabaseError>(error),
            ) && forall|i: int|
                0 <= i < failed ==> created_one(database, #[trigger] statements[i]),
    }
}

/// Whether running a statement can go well.
pub open spec fn went_well<F: Fn(&String) -> Result<usize, DatabaseError>>(
    run: F,
    statement: String,
) -> bool {
    exists|changed: usize|
        #[trigger] call_ensures(run, (&statement,), Ok::<usize, DatabaseError>(changed))
}

/// How the outcome of running statements one by one relates to the outcome
/// of each: all is well where every statement went well, and the first
/// statement that failed gives its failure, after which none was run.
pub open spec fn ran_in_order<F: Fn(&String) -> Result<usize, DatabaseError>>(
    statements: Seq<String>,
    run: F,
    outcome: Result<(), DatabaseError>,
) -> bool {
    match outcome {
        Ok(()) => forall|i: int|
            0 <= i < statements.len() ==> went_well(run, #[trigger] statements[i]),
        Err(error) => exists|failed: int|
            0 <= failed < statements.len() && call_ensures(
                run,
                (&#[trigger] statements[failed],),
                Err::<usize, DatabaseError>(error),
            ) && forall|i: int| 0 <= i < failed ==> went_well(run, #[trigger] statements[i]),
    }
}

/// Run statements one by one and stop at the first that fails.
pub fn run_statements<F: Fn(&String) -> Result<usize, DatabaseError>>(
    statements: &Vec<String>,
    run: F,
) -> (outcome: Result<(), DatabaseError>)
    requires
        forall|statement: &String| call_requires(run, (statement,)),
    ensures
        ran_in_order(statements@, run, outcome),
{
    let mut i: usize = 0;
    while i < statements.len()
        invariant
            i <= statements.len(),
            forall|statement: &String| call_requires(run, (statement,)),
            forall|k: int| 0 <= k < i ==> went_well(run, #[trigger] statements@[k]),
        decreases statements.len() - i,
    {
        match run(&statements[i]) {
            Ok(changed) => {
                assert(call_ensures(
                    run,
                    (&statements@[i as int],),
                    Ok::<usize, DatabaseError>(changed),
                ));
            },
            Err(error) => {
                assert(call_ensures(
                    run,
                    (&statements@[i as int],),
                    Err::<usize, DatabaseError>(error),
                ));
                return Err(error);
            },
        }
        i += 1;
    }
    Ok(())
}

/// The models of a list of texts.
pub open spec fn texts(list: Seq<String>) -> Seq<Seq<char>> {
    list.map_values(|text: String| text@)
}

} // verus!
