//! The cache of the labels that stand for foreign keys on a page.
use std::collections::HashMap;
use vstd::prelude::*;

use crate::database::error::{DatabaseError, ErrorKind};
use crate::database::primary_key::{key_text, PrimaryKey};
use crate::database::sqlite::Database;
use crate::database::traits::{DatabaseEntry, Indexable, Referenceable};
use crate::database::value::SqlValue;

verus! {

broadcast use vstd::std_specs::hash::group_hash_axioms;

/// The model of the labels of a table as they were read: the integer of
/// each key with the label of its row.
pub open spec fn raw_view<T: Indexable>(raw: Seq<(PrimaryKey<T>, String)>) -> Seq<
    (i64, Seq<char>),
> {
    raw.map_values(|pair: (PrimaryKey<T>, String)| (pair.0.0, pair.1@))
}

/// What the cache keeps of one table.
pub trait Container: Sized {
    /// Whether the container is what is made of the labels `raw` of the
    /// table `table`.
    spec fn holds(&self, table: Seq<char>, raw: Seq<(i64, Seq<char>)>) -> bool;

    /// The container of the labels of the table of `T`.
    fn from<T: Indexable>(raw_container: Vec<(PrimaryKey<T>, String)>) -> (container: Self)
        ensures
            container.holds(T::table_name_spec(), raw_view(raw_container@)),
    ;
}

/// The models of a list of pairs of texts.
pub open spec fn pairs_view(pairs: Seq<(String, String)>) -> Seq<(Seq<char>, Seq<char>)> {
    pairs.map_values(|pair: (String, String)| (pair.0@, pair.1@))
}

/// The list of the labels `raw` of `table`: for each the text of the key
/// and the label, in the same order.
pub open spec fn listed(table: Seq<char>, raw: Seq<(i64, Seq<char>)>) -> Seq<
    (Seq<char>, Seq<char>),
> {
    raw.map_values(|pair: (i64, Seq<char>)| (key_text(table, pair.0), pair.1))
}

/// An ordered list of the text of a key and the label of its row.
#[derive(Debug, Clone, PartialEq, Eq)]
pub struct List(pub Vec<(String, String)>);

impl Container for List {
    open spec fn holds(&self, table: Seq<char>, raw: Seq<(i64, Seq<char>)>) -> bool {
        pairs_view(self.0@) == listed(table, raw)
    }

    fn from<T: Indexable>(raw_container: Vec<(PrimaryKey<T>, String)>) -> (container: Self) {
        let mut pairs: Vec<(String, String)> = Vec::new();
        let ghost table = T::table_name_spec();
        let ghost raw = raw_view(raw_container@);
        let mut i: usize = 0;
        while i < raw_container.len()
            invariant
                i <= raw_container.len(),
                table == T::table_name_spec(),
                raw == raw_view(raw_container@),
                pairs_view(pairs@) == listed(table, raw.subrange(0, i as int)),
            decreases raw_container.len() - i,
        {
            let ghost before = pairs_view(pairs@);
            let key = raw_container[i].0.to_string();
            let label = raw_container[i].1.clone();
            pairs.push((key, label));
            assert(pairs_view(pairs@) =~= before.push(
                (key_text(table, raw[i as int].0), raw[i as int].1),
            ));
            assert(listed(table, raw.subrange(0, i + 1)) =~= listed(
                table,
                raw.subrange(0, i as int),
            ).push((key_text(table, raw[i as int].0), raw[i as int].1)));
            i += 1;
        }
        assert(raw.subrange(0, i as int) == raw);
        List(pairs)
    }
}

/// The labels of a table by the integer of the key. Where a key stands
/// more than once, its last label counts.
pub open spec fn labels_of(raw: Seq<(i64, Seq<char>)>) -> Map<i64, Seq<char>>
    decreases raw.len(),
{
    if raw.len() == 0 {
        Map::empty()
    } else {
        labels_of(raw.drop_last()).insert(raw.last().0, raw.last().1)
    }
}

/// A fast map from the integer of a key to the label of its row.
#[derive(Debug)]
pub struct LabelMap {
    labels: HashMap<i64, String>,
    keys: Vec<i64>,
}

impl LabelMap {
    #[verifier::type_invariant]
    spec fn consistent(self) -> bool {
        &&& forall|i: int| 0 <= i < self.keys@.len() ==> self.labels@.contains_key(self.keys@[i])
        &&& forall|key: i64| self.labels@.contains_key(key) ==> self.keys@.contains(key)
        &&& forall|i: int, j: int|
            0 <= i < j < self.keys@.len() ==> self.keys@[i] != self.keys@[j]
    }

    /// The label of each key.
    pub closed spec fn labels(&self) -> Map<i64, Seq<char>> {
        Map::new(|key: i64| self.labels@.contains_key(key), |key: i64| self.labels@[key]@)
    }

    /// The keys in the order in which they first came.
    pub closed spec fn keys(&self) -> Seq<i64> {
        self.keys@
    }

    /// Whether the keys are the keys that have a label, each of them once.
    pub open spec fn keys_complete(&self) -> bool {
        &&& forall|key: i64| self.labels().contains_key(key) <==> self.keys().contains(key)
        &&& self.keys().no_duplicates()
        &&& self.keys().len() == self.labels().dom().len()
        &&& self.labels().dom().finite()
    }

    /// The label of a key, if the map holds the key.
    pub fn get(&self, key: i64) -> (label: Option<&str>)
        ensures
            label is Some <==> self.labels().contains_key(key),
            label is Some ==> label->0@ == self.labels()[key],
    {
        match self.labels.get(&key) {
            Some(label) => Some(label.as_str()),
            None => None,
        }
    }

    /// Whether `list` is the list of the labels of `table`: for each key,
    /// in the order in which the keys first came, the text of the key and
    /// its label.
    pub open spec fn listed_as(&self, table: Seq<char>, list: List) -> bool {
        &&& self.keys_complete()
        &&& list.0.len() == self.keys().len()
        &&& forall|i: int|
            0 <= i < self.keys().len() ==> (#[trigger] list.0@[i]).0@ == key_text(
                table,
                self.keys()[i],
            ) && self.labels().contains_key(self.keys()[i]) && list.0@[i].1@
                == self.labels()[self.keys()[i]]
    }

    /// The list of the labels of `table`, in the order in which the keys
    /// first came.
    pub fn to_list(&self, table: &str) -> (list: List)
        ensures
            self.listed_as(table@, list),
    {
        proof {
            use_type_invariant(self);
            let keys = self.keys();
            assert forall|key: i64| self.labels().contains_key(key) <==> keys.contains(key) by {
                if keys.contains(key) {
                    let i = choose|i: int| 0 <= i < keys.len() && keys[i] == key;
                    assert(self.labels@.contains_key(self.keys@[i]));
                }
            }
            assert(keys.to_set() =~= self.labels().dom());
            keys.unique_seq_to_set();
            vstd::seq_lib::seq_to_set_is_finite(keys);
        }
        let mut pairs: Vec<(String, String)> = Vec::new();
        let mut i: usize = 0;
        while i < self.keys.len()
            invariant
                i <= self.keys.len(),
                pairs.len() == i,
                forall|k: int|
                    0 <= k < self.keys@.len() ==> self.labels@.contains_key(self.keys@[k]),
                forall|k: int|
                    0 <= k < i ==> (#[trigger] pairs@[k]).0@ == key_text(table@, self.keys@[k])
                        && pairs@[k].1@ == self.labels@[self.keys@[k]]@,
            decreases self.keys.len() - i,
        {
            let key = self.keys[i];
            let mut out: Vec<char> = Vec::new();
            out.push('/');
            crate::text::push_str(&mut out, table);
            out.push('/');
            crate::text::push_i64(&mut out, key);
            assert(out@ == key_text(table@, key));
            let text = crate::text::from_chars(&out);
            let label = match self.labels.get(&key) {
                Some(label) => label.clone(),
                None => String::new(),
            };
            pairs.push((text, label));
            i += 1;
        }
        List(pairs)
    }
}

impl Container for LabelMap {
    open spec fn holds(&self, table: Seq<char>, raw: Seq<(i64, Seq<char>)>) -> bool {
        self.labels() == labels_of(raw)
    }

    fn from<T: Indexable>(raw_container: Vec<(PrimaryKey<T>, String)>) -> (container: Self) {
        let mut labels: HashMap<i64, String> = HashMap::new();
        let mut keys: Vec<i64> = Vec::new();
        let ghost raw = raw_view(raw_container@);
        let mut i: usize = 0;
        assert(Map::new(|key: i64| labels@.contains_key(key), |key: i64| labels@[key]@)
            =~= labels_of(raw.subrange(0, 0)));
        while i < raw_container.len()
            invariant
                i <= raw_container.len(),
                raw == raw_view(raw_container@),
                Map::new(|key: i64| labels@.contains_key(key), |key: i64| labels@[key]@)
                    == labels_of(raw.subrange(0, i as int)),
                forall|k: int| 0 <= k < keys@.len() ==> labels@.contains_key(keys@[k]),
                forall|key: i64| labels@.contains_key(key) ==> keys@.contains(key),
                forall|k: int, j: int| 0 <= k < j < keys@.len() ==> keys@[k] != keys@[j],
            decreases raw_container.len() - i,
        {
            let key = raw_container[i].0.0;
            let label = raw_container[i].1.clone();
            let ghost before = labels@;
            let ghost keys_before = keys@;
            let ghost next = raw.subrange(0, i + 1);
            assert(next.drop_last() == raw.subrange(0, i as int));
            assert(next.last() == raw[i as int]);
            if !labels.contains_key(&key) {
                keys.push(key);
                assert forall|other: i64| before.contains_key(other) implies keys@.contains(
                    other,
                ) by {
                    assert(keys_before.contains(other));
                    let k = choose|k: int| 0 <= k < keys_before.len() && keys_before[k] == other;
                    assert(keys@[k] == other);
                }
                assert(keys@[keys@.len() - 1] == key);
                assert forall|k: int, j: int| 0 <= k < j < keys@.len() implies keys@[k]
                    != keys@[j] by {
                    if j == keys@.len() - 1 {
                        assert(before.contains_key(keys_before[k]));
                    }
                }
            }
            labels.insert(key, label);
            assert(Map::new(|key: i64| labels@.contains_key(key), |key: i64| labels@[key]@)
                =~= labels_of(next));
            i += 1;
        }
        assert(raw.subrange(0, i as int) == raw);
        LabelMap { labels, keys }
    }
}

/// The first place at which `table` stands in `tables`.
pub open spec fn first_place(tables: Seq<Seq<char>>, table: Seq<char>) -> int {
    choose|i: int|
        0 <= i < tables.len() && tables[i] == table && forall|j: int|
            0 <= j < i ==> tables[j] != table
}

/// A place at which `table` stands and before which it does not stand is
/// the first place of `table`.
pub proof fn lemma_first_place(tables: Seq<Seq<char>>, table: Seq<char>, place: int)
    requires
        0 <= place < tables.len(),
        tables[place] == table,
        forall|j: int| 0 <= j < place ==> tables[j] != table,
    ensures
        first_place(tables, table) == place,
{
    let first = first_place(tables, table);
    if first < place {
        assert(tables[first] != table);
    }
    if place < first {
        assert(tables[place] != table);
    }
}

/// Whether `container` is what is made of the labels `labels`, which were
/// read from the rows `rows` of the name query of `T`.
pub open spec fn read_as<T: Referenceable, C: Container>(
    container: C,
    rows: Seq<Option<Vec<SqlValue>>>,
    labels: Seq<(PrimaryKey<T>, String)>,
) -> bool {
    T::labelled(rows, labels) && container.holds(T::table_name_spec(), raw_view(labels))
}

/// Whether `container` is made of the labels that were read from the rows
/// of one name query of `T`.
pub open spec fn loaded_from<T: Referenceable, C: Container>(container: C) -> bool {
    exists|rows: Seq<Option<Vec<SqlValue>>>, labels: Seq<(PrimaryKey<T>, String)>|
        #[trigger] read_as::<T, C>(container, rows, labels)
}

/// Whether the cache holds every one of the tables `needed`.
pub open spec fn holds_needed<C: Container>(
    foreign_keys: ForeignKeyStorage<'_, C>,
    needed: Seq<Seq<char>>,
) -> bool {
    forall|i: int| 0 <= i < needed.len() ==> foreign_keys.tables().contains(#[trigger] needed[i])
}

/// How a cache changes when the tables `needed` are loaded into it. What
/// the cache held, it holds as before, in the same places. Where all went
/// well, it holds every needed table. It holds no table that it did not hold
/// and that is not needed. Where it held every needed table at the start,
/// all goes well and nothing changes, and no query is sent. A failure is a
/// failure of the store.
pub open spec fn loads_tables<C: Container>(
    before: ForeignKeyStorage<'_, C>,
    after: ForeignKeyStorage<'_, C>,
    needed: Seq<Seq<char>>,
    loaded: Result<(), DatabaseError>,
) -> bool {
    &&& before.tables().len() <= after.tables().len()
    &&& after.tables().subrange(0, before.tables().len() as int) == before.tables()
    &&& before.containers().len() <= after.containers().len()
    &&& after.containers().subrange(0, before.containers().len() as int)
        == before.containers()
    &&& loaded is Ok ==> holds_needed(after, needed)
    &&& forall|i: int|
        0 <= i < after.tables().len() ==> before.tables().contains(#[trigger] after.tables()[i])
            || needed.contains(after.tables()[i])
    &&& holds_needed(before, needed) ==> {
        &&& loaded is Ok
        &&& after.tables() == before.tables()
        &&& after.containers() == before.containers()
        &&& after.loads() == before.loads()
    }
    &&& loaded is Err ==> loaded->Err_0.kind == ErrorKind::Store
}

/// What the cache has done so far: the names of the tables that it holds, in
/// the order in which they were loaded, and the number of queries that it
/// has sent.
pub struct StorageState {
    pub tables: Seq<Seq<char>>,
    pub loads: nat,
}

impl StorageState {
    /// The state after the cache was asked to load `table`. A table that
    /// the cache holds costs nothing. Any other costs one query and is held
    /// from then on, unless the query failed.
    pub open spec fn after_add(self, table: Seq<char>, succeeded: bool) -> StorageState {
        if self.tables.contains(table) {
            self
        } else {
            StorageState {
                tables: if succeeded {
                    self.tables.push(table)
                } else {
                    self.tables
                },
                loads: self.loads + 1,
            }
        }
    }
}

/// A table that was loaded is loaded once: however often the cache is asked
/// for it afterwards, it sends no further query.
pub proof fn lemma_loaded_once(state: StorageState, table: Seq<char>, again: bool)
    requires
        !state.tables.contains(table),
    ensures
        state.after_add(table, true).after_add(table, again).loads == state.loads + 1,
        state.after_add(table, true).after_add(table, again) == state.after_add(table, true),
{
    let once = state.after_add(table, true);
    assert(once.tables[once.tables.len() - 1] == table);
}

/// A cache of the labels that stand for foreign keys, table by table. It is
/// made for one page and loads each table at most once.
pub struct ForeignKeyStorage<'a, C: Container = List> {
    database: &'a Database,
    cache: Vec<(&'static str, C)>,
    loads: usize,
}

impl<'a, C: Container> ForeignKeyStorage<'a, C> {
    /// No table stands twice in the cache.
    #[verifier::type_invariant]
    spec fn no_table_twice(self) -> bool {
        forall|i: int, j: int|
            0 <= i < j < self.cache@.len() ==> self.cache@[i].0@ != self.cache@[j].0@
    }

    /// The database that the cache reads from.
    pub closed spec fn database(&self) -> &'a Database {
        self.database
    }

    /// The names of the tables that the cache holds.
    pub closed spec fn tables(&self) -> Seq<Seq<char>> {
        self.cache@.map_values(|entry: (&'static str, C)| entry.0@)
    }

    /// What the cache holds of its tables, in the order of their names.
    pub closed spec fn containers(&self) -> Seq<C> {
        self.cache@.map_values(|entry: (&'static str, C)| entry.1)
    }

    /// The cache holds one container for each table.
    pub proof fn lemma_one_container_each(&self)
        ensures
            self.tables().len() == self.containers().len(),
    {
    }

    /// The number of queries that the cache has sent.
    pub closed spec fn loads(&self) -> nat {
        self.loads as nat
    }

    /// What the cache has done so far.
    pub open spec fn state(&self) -> StorageState {
        StorageState { tables: self.tables(), loads: self.loads() }
    }

    /// The empty cache for one page.
    pub fn from(database: &'a Database) -> (storage: Self)
        ensures
            storage.database() == database,
            storage.tables().len() == 0,
            storage.containers().len() == 0,
            storage.loads() == 0,
    {
        ForeignKeyStorage { database, cache: Vec::new(), loads: 0 }
    }

    /// The number of queries that the cache has sent.
    pub fn num_loads(&self) -> (loads: usize)
        ensures
            loads == self.loads(),
    {
        self.loads
    }

    /// The place of a table among the tables that the cache holds.
    fn find(&self, table: &str) -> (place: Option<usize>)
        ensures
            place is Some <==> self.tables().contains(table@),
            place is Some ==> place->0 < self.tables().len() && self.tables()[place->0 as int]
                == table@ && forall|j: int| 0 <= j < place->0 ==> self.tables()[j] != table@,
    {
        let wanted = crate::text::to_chars(table);
        let mut i: usize = 0;
        while i < self.cache.len()
            invariant
                i <= self.cache.len(),
                wanted@ == table@,
                forall|j: int| 0 <= j < i ==> self.tables()[j] != table@,
            decreases self.cache.len() - i,
        {
            let name = crate::text::to_chars(self.cache[i].0);
            assert(self.tables()[i as int] == self.cache@[i as int].0@);
            if crate::text::same_text(&name, &wanted) {
                return Some(i);
            }
            i += 1;
        }
        None
    }

    /// No table stands twice among the tables of the cache.
    fn each_table_once(&self)
        ensures
            self.tables().no_duplicates(),
    {
        proof {
            use_type_invariant(self);
            assert forall|i: int, j: int|
                0 <= i < self.tables().len() && 0 <= j < self.tables().len() && i
                    != j implies self.tables()[i] != self.tables()[j] by {
                if i < j {
                    assert(self.cache@[i].0@ != self.cache@[j].0@);
                } else {
                    assert(self.cache@[j].0@ != self.cache@[i].0@);
                }
            }
        }
    }

    /// Whether the cache holds the table of `T`.
    pub fn is_loaded<T: Referenceable>(&self) -> (loaded: bool)
        ensures
            loaded == self.tables().contains(T::table_name_spec()),
            self.tables().no_duplicates(),
    {
        self.each_table_once();
        self.find(T::table_name()).is_some()
    }

    /// Load the labels of the table of `T` into the cache. Where the cache
    /// holds the table, nothing happens. Else one query on the database of
    /// the cache reads the key and the label of every row, and the cache
    /// holds the container made of what the query gave; where it fails, its
    /// failure is the failure of the call and the cache holds what it held.
    /// Where the count of queries is full, no query is sent and the cache
    /// stays as it is.
    pub fn add<T: Referenceable>(&mut self) -> (added: Result<(), DatabaseError>)
        ensures
            final(self).database() == old(self).database(),
            final(self).tables().no_duplicates(),
            !old(self).tables().contains(T::table_name_spec()) && old(self).loads() < usize::MAX
                ==> exists|labels: Result<Vec<(PrimaryKey<T>, String)>, DatabaseError>|
                {
                    &&& #[trigger] call_ensures(
                        T::generate_descriptions,
                        (old(self).database(),),
                        labels,
                    )
                    &&& labels is Ok ==> added is Ok && final(self).containers().last().holds(
                        T::table_name_spec(),
                        raw_view(labels->Ok_0@),
                    )
                    &&& labels is Err ==> added == Err::<(), DatabaseError>(labels->Err_0)
                },
            !old(self).tables().contains(T::table_name_spec()) && old(self).loads()
                == usize::MAX ==> {
                &&& added is Err
                &&& added->Err_0.code is None
                &&& added->Err_0.message@ == "the cache has sent too many queries"@
                &&& final(self).loads() == old(self).loads()
            },
            old(self).tables().contains(T::table_name_spec()) ==> {
                &&& added is Ok
                &&& final(self).tables() == old(self).tables()
                &&& final(self).containers() == old(self).containers()
                &&& final(self).loads() == old(self).loads()
            },
            !old(self).tables().contains(T::table_name_spec()) && old(self).loads() < usize::MAX
                ==> final(self).state() == old(self).state().after_add(
                T::table_name_spec(),
                added is Ok,
            ),
            !old(self).tables().contains(T::table_name_spec()) && added is Ok ==> {
                &&& final(self).tables() == old(self).tables().push(T::table_name_spec())
                &&& final(self).containers().len() == old(self).containers().len() + 1
                &&& final(self).containers().drop_last() == old(self).containers()
                &&& loaded_from::<T, C>(final(self).containers().last())
            },
            added is Err ==> {
                &&& added->Err_0.kind == ErrorKind::Store
                &&& final(self).tables() == old(self).tables()
                &&& final(self).containers() == old(self).containers()
            },
            loads_tables(*old(self), *final(self), seq![T::table_name_spec()], added),
    {
        let ghost needed = seq![T::table_name_spec()];
        let ghost held = self.tables();
        proof {
            use_type_invariant(&*self);
            assert(needed[0] == T::table_name_spec());
            assert(held.subrange(0, held.len() as int) == held);
            assert(self.containers().subrange(0, self.containers().len() as int)
                == self.containers());
            assert forall|i: int| 0 <= i < held.len() implies held.contains(
                #[trigger] held[i],
            ) by {}
        }
        if self.find(T::table_name()).is_some() {
            return Ok(());
        }
        if self.loads == usize::MAX {
            return Err(
                DatabaseError::internal(ErrorKind::Store, "the cache has sent too many queries"),
            );
        }
        self.loads = self.loads + 1;
        let read = T::generate_descriptions(self.database);
        let ghost given = read;
        assert(call_ensures(T::generate_descriptions, (old(self).database(),), given));
        match read {
            Ok(raw) => {
                let ghost labels = raw@;
                let ghost rows = choose|rows: Seq<Option<Vec<SqlValue>>>|
                    T::labelled(rows, labels);
                let container = C::from::<T>(raw);
                assert(read_as::<T, C>(container, rows, labels));
                let mut cache: Vec<(&'static str, C)> = Vec::new();
                core::mem::swap(&mut self.cache, &mut cache);
                cache.push((T::table_name(), container));
                proof {
                    assert forall|i: int, j: int| 0 <= i < j < cache@.len() implies cache@[i].0@
                        != cache@[j].0@ by {
                        if j == cache@.len() - 1 {
                            assert(held[i] == old(self).cache@[i].0@);
                        }
                    }
                }
                core::mem::swap(&mut self.cache, &mut cache);
                assert(self.tables() =~= old(self).tables().push(T::table_name_spec()));
                assert(self.containers().drop_last() =~= old(self).containers());
                assert(self.containers().last() == container);
                proof {
                    let after = self.tables();
                    assert(after.subrange(0, held.len() as int) =~= held);
                    assert(self.containers().subrange(0, old(self).containers().len() as int)
                        =~= self.containers().drop_last());
                    assert(after[held.len() as int] == needed[0]);
                    assert forall|i: int| 0 <= i < after.len() implies held.contains(
                        #[trigger] after[i],
                    ) || needed.contains(after[i]) by {
                        if i < held.len() {
                            assert(held[i] == after[i]);
                        }
                    }
                }
                Ok(())
            },
            Err(error) => Err(error),
        }
    }
}

impl<'a> ForeignKeyStorage<'a, List> {
    /// What the cache holds, as plain values for handing out: for each
    /// table, in the order in which the tables were loaded, its name and the
    /// text of every key with its label.
    pub fn snapshot(&self) -> (tables: Vec<(String, Vec<(String, String)>)>)
        ensures
            tables.len() == self.tables().len(),
            forall|i: int|
                0 <= i < tables.len() ==> (#[trigger] tables[i]).0@ == self.tables()[i]
                    && pairs_view(tables[i].1@) == pairs_view(self.containers()[i].0@),
    {
        let mut tables: Vec<(String, Vec<(String, String)>)> = Vec::new();
        let mut i: usize = 0;
        while i < self.cache.len()
            invariant
                i <= self.cache.len(),
                tables.len() == i,
                forall|k: int|
                    0 <= k < i ==> (#[trigger] tables[k]).0@ == self.tables()[k] && pairs_view(
                        tables[k].1@,
                    ) == pairs_view(self.containers()[k].0@),
            decreases self.cache.len() - i,
        {
            let list = &self.cache[i].1.0;
            let mut pairs: Vec<(String, String)> = Vec::new();
            let mut j: usize = 0;
            while j < list.len()
                invariant
                    j <= list.len(),
                    pairs.len() == j,
                    forall|k: int|
                        0 <= k < j ==> (#[trigger] pairs[k]).0@ == list[k].0@ && pairs[k].1@
                            == list[k].1@,
                decreases list.len() - j,
            {
                pairs.push((list[j].0.clone(), list[j].1.clone()));
                j += 1;
            }
            assert(pairs_view(pairs@) =~= pairs_view(list@));
            assert(self.containers()[i as int] == self.cache@[i as int].1);
            assert(self.tables()[i as int] == self.cache@[i as int].0@);
            tables.push((self.cache[i].0.to_owned(), pairs));
            i += 1;
        }
        tables
    }
}

impl<'a> ForeignKeyStorage<'a, LabelMap> {
    /// The label that the cache holds for a key: none where the table was
    /// never loaded, and none where no row had the key when it was.
    pub open spec fn label_of(&self, table: Seq<char>, key: i64) -> Option<Seq<char>> {
        if self.tables().contains(table) {
            let place = first_place(self.tables(), table);
            if self.containers()[place].labels().contains_key(key) {
                Some(self.containers()[place].labels()[key])
            } else {
                None
            }
        } else {
            None
        }
    }

    /// Get the label for a primary key from what the cache holds. The store
    /// is not asked.
    pub fn get<T: Referenceable>(&self, primary_key: PrimaryKey<T>) -> (label: Option<&str>)
        ensures
            match self.label_of(T::table_name_spec(), primary_key.0) {
                Some(text) => label is Some && label->0@ == text,
                None => label is None,
            },
    {
        match self.find(T::table_name()) {
            Some(place) => {
                assert(self.containers()[place as int] == self.cache@[place as int].1);
                proof {
                    lemma_first_place(self.tables(), T::table_name_spec(), place as int);
                }
                self.cache[place].1.get(primary_key.0)
            },
            None => None,
        }
    }

    /// The same cache with every table as a list, for handing out: the
    /// tables in the order in which they were loaded, and of each table the
    /// text of every key with its label.
    pub fn into_lists(self) -> (lists: ForeignKeyStorage<'a, List>)
        ensures
            lists.database() == self.database(),
            lists.tables() == self.tables(),
            lists.tables().no_duplicates(),
            lists.loads() == self.loads(),
            lists.containers().len() == self.containers().len(),
            forall|i: int|
                #![trigger lists.containers()[i]]
                0 <= i < self.tables().len() ==> self.containers()[i].listed_as(
                    self.tables()[i],
                    lists.containers()[i],
                ),
    {
        self.each_table_once();
        let mut cache: Vec<(&'static str, List)> = Vec::new();
        let mut i: usize = 0;
        while i < self.cache.len()
            invariant
                i <= self.cache.len(),
                cache.len() == i,
                forall|k: int| 0 <= k < i ==> (#[trigger] cache@[k]).0@ == self.cache@[k].0@,
                forall|k: int|
                    0 <= k < i ==> self.cache@[k].1.listed_as(
                        self.cache@[k].0@,
                        (#[trigger] cache@[k]).1,
                    ),
            decreases self.cache.len() - i,
        {
            let table = self.cache[i].0;
            let list = self.cache[i].1.to_list(table);
            cache.push((table, list));
            i += 1;
        }
        proof {
            use_type_invariant(&self);
            assert forall|k: int, j: int| 0 <= k < j < cache@.len() implies cache@[k].0@
                != cache@[j].0@ by {
                assert(self.cache@[k].0@ != self.cache@[j].0@);
            }
        }
        let lists = ForeignKeyStorage { database: self.database, cache, loads: self.loads };
        assert(lists.tables() =~= self.tables());
        assert forall|k: int|
            #![trigger lists.containers()[k]]
            0 <= k < self.tables().len() implies self.containers()[k].listed_as(
            self.tables()[k],
            lists.containers()[k],
        ) by {
            assert(lists.containers()[k] == cache@[k].1);
            assert(self.containers()[k] == self.cache@[k].1);
            assert(self.tables()[k] == self.cache@[k].0@);
        }
        lists
    }
}

} // verus!
