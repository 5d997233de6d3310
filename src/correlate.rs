use vstd::prelude::*;

use crate::error::{Error, ErrorView};
use crate::views::result_view;
use crate::records::{Program, Record, program_name_aliases, repeat_id_aliases};
use crate::row::{Cell, Row, get_int, get_text, int_field, names_of, text_field};

verus! {

/// The composite key that joins part and remnant rows to a program:
/// program name and repeat index. The name alone is ambiguous, since a
/// program can be run again against other stock.
#[derive(Debug)]
pub struct Key {
    pub program_name: String,
    pub repeat_id: i32,
}

pub type KeyView = (Seq<char>, i32);

impl View for Key {
    type V = KeyView;

    open spec fn view(&self) -> KeyView {
        (self.program_name@, self.repeat_id)
    }
}

/// The key read from a row that carries both key columns.
pub open spec fn key_of_row(cells: Seq<Cell>) -> Result<KeyView, ErrorView> {
    match text_field(cells, program_name_aliases()) {
        Err(e) => Err(e),
        Ok(name) => match int_field(cells, repeat_id_aliases()) {
            Err(e) => Err(e),
            Ok(repeat_id) => Ok((name, repeat_id)),
        },
    }
}

/// A row read as a key and a record.
pub open spec fn keyed_row<T: Record>(cells: Seq<Cell>) -> Result<(KeyView, T::V), ErrorView> {
    match key_of_row(cells) {
        Err(e) => Err(e),
        Ok(k) => match T::of_row(cells) {
            Err(e) => Err(e),
            Ok(v) => Ok((k, v)),
        },
    }
}

/// Rows read as keys and records, in order; the first row that fails
/// decides the error.
pub open spec fn keyed_rows<T: Record>(rows: Seq<Row>) -> Result<Seq<(KeyView, T::V)>, ErrorView>
    decreases rows.len(),
{
    if rows.len() == 0 {
        Ok(Seq::empty())
    } else {
        match keyed_rows::<T>(rows.drop_last()) {
            Err(e) => Err(e),
            Ok(s) => match keyed_row::<T>(rows.last().cells@) {
                Err(e) => Err(e),
                Ok(kv) => Ok(s.push(kv)),
            },
        }
    }
}

/// The records filed under `k`, in their order.
pub open spec fn children_of<V>(keyed: Seq<(KeyView, V)>, k: KeyView) -> Seq<V>
    decreases keyed.len(),
{
    if keyed.len() == 0 {
        Seq::empty()
    } else {
        let rest = children_of(keyed.drop_last(), k);
        if keyed.last().0 == k {
            rest.push(keyed.last().1)
        } else {
            rest
        }
    }
}

impl Key {
    /// Reads the key columns of a row.
    pub fn from_row(row: &Row) -> (r: Result<Key, Error>)
        ensures
            result_view(r) == key_of_row(row.cells@),
    {
        assert(names_of(["ProgramName"]@) =~= program_name_aliases());
        assert(names_of(["RepeatID", "RepeatId"]@) =~= repeat_id_aliases());
        let program_name = match get_text(row, &["ProgramName"]) {
            Ok(v) => v,
            Err(e) => return Err(e),
        };
        let repeat_id = match get_int(row, &["RepeatID", "RepeatId"]) {
            Ok(v) => v,
            Err(e) => return Err(e),
        };
        Ok(Key { program_name, repeat_id })
    }

    /// The key of a program.
    pub fn of_program(program: &Program) -> (r: Key)
        ensures
            r@ == (program@.program_name, program@.repeat_id),
    {
        Key { program_name: program.program_name.clone(), repeat_id: program.repeat_id }
    }

    pub fn matches(&self, other: &Key) -> (r: bool)
        ensures
            r == (self@ == other@),
    {
        self.repeat_id == other.repeat_id && self.program_name == other.program_name
    }
}

/// The records of one key, in the order they were filed.
pub struct Group<T> {
    pub key: Key,
    pub items: Vec<T>,
}

/// A map from key to the records filed under it, in filing order.
pub struct Groups<T> {
    pub groups: Vec<Group<T>>,
}

impl<T: View> Groups<T> {
    /// No key has two groups.
    pub open spec fn wf(&self) -> bool {
        forall|i: int, j: int|
            0 <= i < j < self.groups@.len() ==> #[trigger] self.groups@[i].key@
                != #[trigger] self.groups@[j].key@
    }

    pub open spec fn has_key(&self, k: KeyView) -> bool {
        exists|i: int| 0 <= i < self.groups@.len() && #[trigger] self.groups@[i].key@ == k
    }

    /// The records filed under `k`; empty for a key never filed.
    pub open spec fn items_of(&self, k: KeyView) -> Seq<T::V> {
        if self.has_key(k) {
            let i = choose|i: int| 0 <= i < self.groups@.len() && #[trigger] self.groups@[i].key@ == k;
            self.groups@[i].items@.map_values(|t: T| t@)
        } else {
            Seq::empty()
        }
    }

    proof fn lemma_items_at(&self, i: int)
        requires
            self.wf(),
            0 <= i < self.groups@.len(),
        ensures
            self.items_of(self.groups@[i].key@) == self.groups@[i].items@.map_values(|t: T| t@),
    {
        let k = self.groups@[i].key@;
        assert(self.has_key(k));
        let j = choose|j: int| 0 <= j < self.groups@.len() && #[trigger] self.groups@[j].key@ == k;
        if j < i {
            assert(self.groups@[j].key@ != self.groups@[i].key@);
        } else if i < j {
            assert(self.groups@[i].key@ != self.groups@[j].key@);
        }
    }

    pub fn new() -> (r: Groups<T>)
        ensures
            r.wf(),
            forall|k: KeyView| #[trigger] r.items_of(k) == Seq::<T::V>::empty(),
    {
        Groups { groups: Vec::new() }
    }

    /// Index of the group of `key`.
    fn find(&self, key: &Key) -> (r: Option<usize>)
        ensures
            match r {
                Some(i) => i < self.groups@.len() && self.groups@[i as int].key@ == key@,
                None => !self.has_key(key@),
            },
    {
        let mut i: usize = 0;
        while i < self.groups.len()
            invariant
                i <= self.groups@.len(),
                forall|j: int| 0 <= j < i ==> #[trigger] self.groups@[j].key@ != key@,
            decreases self.groups@.len() - i,
        {
            if self.groups[i].key.matches(key) {
                return Some(i);
            }
            i += 1;
        }
        None
    }

    /// Files `item` under `key`, after the records already there.
    pub fn insert(&mut self, key: Key, item: T)
        requires
            old(self).wf(),
        ensures
            final(self).wf(),
            forall|k: KeyView|
                #[trigger] final(self).items_of(k) == if k == key@ {
                    old(self).items_of(k).push(item@)
                } else {
                    old(self).items_of(k)
                },
    {
        let ghost k0 = key@;
        let ghost item_view = item@;
        match self.find(&key) {
            Some(i) => {
                let ghost before = *self;
                proof {
                    before.lemma_items_at(i as int);
                }
                self.groups[i].items.push(item);
                assert forall|a: int, b: int| 0 <= a < b < self.groups@.len() implies #[trigger] self.groups@[a].key@
                    != #[trigger] self.groups@[b].key@ by {
                    assert(before.groups@[a].key@ != before.groups@[b].key@);
                }
                proof {
                    self.lemma_items_at(i as int);
                }
                assert(self.groups@[i as int].items@.map_values(|t: T| t@) =~= before.groups@[i as int].items@.map_values(|t: T| t@).push(item_view));
                assert forall|k: KeyView| #[trigger] self.items_of(k) == if k == k0 {
                    before.items_of(k).push(item_view)
                } else {
                    before.items_of(k)
                } by {
                    if k != k0 {
                        if before.has_key(k) {
                            let j = choose|j: int| 0 <= j < before.groups@.len() && #[trigger] before.groups@[j].key@ == k;
                            before.lemma_items_at(j);
                            assert(self.groups@[j].key@ == k);
                            self.lemma_items_at(j);
                        } else {
                            assert forall|j: int| 0 <= j < self.groups@.len() implies #[trigger] self.groups@[j].key@ != k by {
                                assert(before.groups@[j].key@ != k);
                            }
                        }
                    }
                }
            },
            None => {
                let ghost before = *self;
                let mut items: Vec<T> = Vec::new();
                items.push(item);
                self.groups.push(Group { key, items });
                let n = self.groups.len() - 1;
                assert forall|a: int, b: int| 0 <= a < b < self.groups@.len() implies #[trigger] self.groups@[a].key@
                    != #[trigger] self.groups@[b].key@ by {
                    if b < n {
                        assert(before.groups@[a].key@ != before.groups@[b].key@);
                    } else {
                        assert(before.groups@[a].key@ != k0);
                    }
                }
                proof {
                    self.lemma_items_at(n as int);
                }
                assert(self.groups@[n as int].items@.map_values(|t: T| t@) =~= seq![item_view]);
                assert forall|k: KeyView| #[trigger] self.items_of(k) == if k == k0 {
                    before.items_of(k).push(item_view)
                } else {
                    before.items_of(k)
                } by {
                    if k == k0 {
                        assert(before.items_of(k) == Seq::<T::V>::empty());
                        assert(Seq::<T::V>::empty().push(item_view) =~= seq![item_view]);
                    } else if before.has_key(k) {
                        let j = choose|j: int| 0 <= j < before.groups@.len() && #[trigger] before.groups@[j].key@ == k;
                        before.lemma_items_at(j);
                        assert(self.groups@[j] == before.groups@[j]);
                        self.lemma_items_at(j);
                    } else {
                        assert forall|j: int| 0 <= j < self.groups@.len() implies #[trigger] self.groups@[j].key@ != k by {
                            if j < n {
                                assert(before.groups@[j].key@ != k);
                            }
                        }
                    }
                }
            },
        }
    }
}

impl<T: Record> Groups<T> {
    /// Copies of the records filed under `key`; empty for a key never filed.
    pub fn get(&self, key: &Key) -> (r: Vec<T>)
        requires
            self.wf(),
        ensures
            r@.map_values(|t: T| t@) == self.items_of(key@),
    {
        let mut out: Vec<T> = Vec::new();
        match self.find(key) {
            None => {
                assert(out@.map_values(|t: T| t@) =~= Seq::<T::V>::empty());
            },
            Some(i) => {
                proof {
                    self.lemma_items_at(i as int);
                }
                let items = &self.groups[i].items;
                let mut j: usize = 0;
                while j < items.len()
                    invariant
                        j <= items@.len(),
                        out@.len() == j,
                        forall|m: int| 0 <= m < j ==> #[trigger] out@[m]@ == items@[m]@,
                    decreases items@.len() - j,
                {
                    out.push(items[j].duplicate());
                    j += 1;
                }
                assert(out@.map_values(|t: T| t@) =~= items@.map_values(|t: T| t@));
            },
        }
        out
    }

    /// Reads every row as a key and a record and files the records under
    /// their keys, in row order. The first row that fails stops the work.
    pub fn from_rows(rows: &Vec<Row>) -> (r: Result<Groups<T>, Error>)
        ensures
            match r {
                Ok(g) => g.wf() && keyed_rows::<T>(rows@) is Ok && forall|k: KeyView|
                    #[trigger] g.items_of(k) == children_of(keyed_rows::<T>(rows@)->Ok_0, k),
                Err(e) => keyed_rows::<T>(rows@) == Err::<Seq<(KeyView, T::V)>, ErrorView>(e@),
            },
    {
        let mut groups: Groups<T> = Groups::new();
        let ghost mut keyed: Seq<(KeyView, T::V)> = Seq::empty();
        let mut i: usize = 0;
        assert(rows@.subrange(0, 0) =~= Seq::<Row>::empty());
        while i < rows.len()
            invariant
                i <= rows@.len(),
                groups.wf(),
                keyed_rows::<T>(rows@.subrange(0, i as int)) == Ok::<Seq<(KeyView, T::V)>, ErrorView>(keyed),
                forall|k: KeyView| #[trigger] groups.items_of(k) == children_of(keyed, k),
            decreases rows@.len() - i,
        {
            let ghost prefix = rows@.subrange(0, i as int + 1);
            assert(prefix.drop_last() =~= rows@.subrange(0, i as int));
            assert(prefix.last() == rows@[i as int]);
            let key = match Key::from_row(&rows[i]) {
                Ok(k) => k,
                Err(e) => {
                    proof {
                        lemma_keyed_rows_fail::<T>(rows@, i as int);
                    }
                    return Err(e);
                },
            };
            let item = match T::from_row(&rows[i]) {
                Ok(v) => v,
                Err(e) => {
                    proof {
                        lemma_keyed_rows_fail::<T>(rows@, i as int);
                    }
                    return Err(e);
                },
            };
            let ghost kv = (key@, item@);
            let ghost old_keyed = keyed;
            groups.insert(key, item);
            proof {
                keyed = keyed.push(kv);
                assert forall|k: KeyView| #[trigger] groups.items_of(k) == children_of(keyed, k) by {
                    assert(keyed.drop_last() =~= old_keyed);
                }
            }
            i += 1;
        }
        assert(rows@.subrange(0, i as int) =~= rows@);
        Ok(groups)
    }
}

/// Once a row fails, reading every longer prefix fails with its error.
pub proof fn lemma_keyed_rows_fail<T: Record>(rows: Seq<Row>, i: int)
    requires
        0 <= i < rows.len(),
        keyed_rows::<T>(rows.subrange(0, i)) is Ok,
        keyed_row::<T>(rows[i].cells@) is Err,
    ensures
        keyed_rows::<T>(rows) == Err::<Seq<(KeyView, T::V)>, ErrorView>(keyed_row::<T>(rows[i].cells@)->Err_0),
    decreases rows.len() - i,
{
    if rows.len() == i + 1 {
        assert(rows.drop_last() =~= rows.subrange(0, i));
    } else {
        assert(rows.drop_last().subrange(0, i) =~= rows.subrange(0, i));
        lemma_keyed_rows_fail::<T>(rows.drop_last(), i);
    }
}

} // verus!
