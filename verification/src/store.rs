//! The record store: one record per function name, replaced whole on every
//! write. `FunctionStore` keeps the records in memory, in the order in which
//! they were inserted.

use crate::record::{Function, FunctionView};
use vstd::prelude::*;
use vstd::string::*;

verus! {

/// Why the store did not do what it was asked.
#[derive(Copy, Clone, Debug)]
pub enum StoreFault {
    /// No record has the name.
    NotFound,
    /// A record already has the name.
    UniqueViolation,
    /// Any other fault.
    Other,
}

/// Whether some row has the name.
pub open spec fn has_name(rows: Seq<FunctionView>, name: Seq<char>) -> bool {
    exists|i: int| 0 <= i < rows.len() && (#[trigger] rows[i]).function_name == name
}

/// The place of a row that has the name, where one has it.
pub open spec fn index_of(rows: Seq<FunctionView>, name: Seq<char>) -> int {
    choose|i: int| 0 <= i < rows.len() && (#[trigger] rows[i]).function_name == name
}

/// No two rows have the same name.
pub open spec fn distinct_names(rows: Seq<FunctionView>) -> bool {
    forall|i: int, j: int|
        0 <= i < rows.len() && 0 <= j < rows.len() && i != j ==> (#[trigger] rows[i]).function_name
            != (#[trigger] rows[j]).function_name
}

/// The row that has the name, if any.
pub open spec fn lookup(rows: Seq<FunctionView>, name: Seq<char>) -> Option<FunctionView> {
    if has_name(rows, name) {
        Some(rows[index_of(rows, name)])
    } else {
        None
    }
}

/// The rows after an insert: the record is appended unless its name is taken.
pub open spec fn inserted(rows: Seq<FunctionView>, record: FunctionView) -> Seq<FunctionView> {
    if has_name(rows, record.function_name) {
        rows
    } else {
        rows.push(record)
    }
}

/// Whether an update of the row called `name` by `record` can be carried
/// out: the row exists, and the name of `record` is that of no other row.
pub open spec fn can_replace(rows: Seq<FunctionView>, name: Seq<char>, record: FunctionView)
    -> bool {
    &&& has_name(rows, name)
    &&& record.function_name != name ==> !has_name(rows, record.function_name)
}

/// The rows after an update: the row called `name` is replaced whole.
pub open spec fn replaced(rows: Seq<FunctionView>, name: Seq<char>, record: FunctionView) -> Seq<
    FunctionView,
> {
    if can_replace(rows, name, record) {
        rows.update(index_of(rows, name), record)
    } else {
        rows
    }
}

/// The rows after a removal: the row called `name` is gone.
pub open spec fn removed(rows: Seq<FunctionView>, name: Seq<char>) -> Seq<FunctionView> {
    if has_name(rows, name) {
        rows.remove(index_of(rows, name))
    } else {
        rows
    }
}

/// The content of what the store gave for a record.
pub open spec fn outcome_view(outcome: Result<Function, StoreFault>) -> Result<
    FunctionView,
    StoreFault,
> {
    match outcome {
        Ok(record) => Ok(record@),
        Err(fault) => Err(fault),
    }
}

/// What a fetch gives: the row of the name, or nothing found.
pub open spec fn get_outcome(rows: Seq<FunctionView>, name: Seq<char>) -> Result<
    FunctionView,
    StoreFault,
> {
    match lookup(rows, name) {
        Some(row) => Ok(row),
        None => Err(StoreFault::NotFound),
    }
}

/// What an insert gives: the record, or a unique violation where its name is
/// taken.
pub open spec fn insert_outcome(rows: Seq<FunctionView>, record: FunctionView) -> Result<
    FunctionView,
    StoreFault,
> {
    if has_name(rows, record.function_name) {
        Err(StoreFault::UniqueViolation)
    } else {
        Ok(record)
    }
}

/// What an update gives: the record; nothing found where no row is called
/// `name`; a unique violation where the record would take another row's name.
pub open spec fn update_outcome(rows: Seq<FunctionView>, name: Seq<char>, record: FunctionView)
    -> Result<FunctionView, StoreFault> {
    if !has_name(rows, name) {
        Err(StoreFault::NotFound)
    } else if !can_replace(rows, name, record) {
        Err(StoreFault::UniqueViolation)
    } else {
        Ok(record)
    }
}

/// How many rows a removal takes away.
pub open spec fn delete_outcome(rows: Seq<FunctionView>, name: Seq<char>) -> usize {
    if has_name(rows, name) {
        1
    } else {
        0
    }
}

/// Where names are distinct, a row with the name is the row of that name.
pub proof fn lemma_index_of(rows: Seq<FunctionView>, name: Seq<char>, i: int)
    requires
        distinct_names(rows),
        0 <= i < rows.len(),
        rows[i].function_name == name,
    ensures
        has_name(rows, name),
        index_of(rows, name) == i,
        lookup(rows, name) == Some(rows[i]),
{
}

/// An insert keeps the names distinct.
pub proof fn lemma_insert_keeps_names_distinct(rows: Seq<FunctionView>, record: FunctionView)
    requires
        distinct_names(rows),
    ensures
        distinct_names(inserted(rows, record)),
{
    if !has_name(rows, record.function_name) {
        let after = rows.push(record);
        assert forall|i: int, j: int|
            0 <= i < after.len() && 0 <= j < after.len() && i != j implies (#[trigger] after[i]).function_name
            != (#[trigger] after[j]).function_name by {
            if i < rows.len() {
                assert(after[i] == rows[i]);
            }
            if j < rows.len() {
                assert(after[j] == rows[j]);
            }
        }
    }
}

/// An update keeps the names distinct.
pub proof fn lemma_update_keeps_names_distinct(
    rows: Seq<FunctionView>,
    name: Seq<char>,
    record: FunctionView,
)
    requires
        distinct_names(rows),
    ensures
        distinct_names(replaced(rows, name, record)),
{
    if can_replace(rows, name, record) {
        let at = index_of(rows, name);
        let after = rows.update(at, record);
        assert forall|i: int, j: int|
            0 <= i < after.len() && 0 <= j < after.len() && i != j implies (#[trigger] after[i]).function_name
            != (#[trigger] after[j]).function_name by {
            if i != at {
                assert(after[i] == rows[i]);
            }
            if j != at {
                assert(after[j] == rows[j]);
            }
        }
    }
}

/// A removal keeps the names distinct.
pub proof fn lemma_delete_keeps_names_distinct(rows: Seq<FunctionView>, name: Seq<char>)
    requires
        distinct_names(rows),
    ensures
        distinct_names(removed(rows, name)),
{
    if has_name(rows, name) {
        let at = index_of(rows, name);
        let after = rows.remove(at);
        assert forall|i: int, j: int|
            0 <= i < after.len() && 0 <= j < after.len() && i != j implies (#[trigger] after[i]).function_name
            != (#[trigger] after[j]).function_name by {
            let si = if i < at { i } else { i + 1 };
            let sj = if j < at { j } else { j + 1 };
            assert(after[i] == rows[si]);
            assert(after[j] == rows[sj]);
        }
    }
}

/// The rows that a vector of records holds.
pub open spec fn rows_of(records: Seq<Function>) -> Seq<FunctionView> {
    Seq::new(records.len(), |i: int| records[i]@)
}

/// An in-memory record store.
#[derive(Debug)]
pub struct FunctionStore {
    records: Vec<Function>,
}

impl View for FunctionStore {
    type V = Seq<FunctionView>;

    closed spec fn view(&self) -> Seq<FunctionView> {
        rows_of(self.records@)
    }
}

impl FunctionStore {
    #[verifier::type_invariant]
    spec fn unique(self) -> bool {
        distinct_names(self@)
    }

    /// An empty store.
    pub fn new() -> (store: FunctionStore)
        ensures
            store@ == Seq::<FunctionView>::empty(),
    {
        FunctionStore { records: Vec::new() }
    }

    /// The number of records.
    pub fn len(&self) -> (n: usize)
        ensures
            n == self@.len(),
            distinct_names(self@),
    {
        proof {
            use_type_invariant(self);
        }
        self.records.len()
    }

    fn take_records(&mut self) -> (records: Vec<Function>)
        ensures
            records == old(self).records,
            final(self).records@.len() == 0,
    {
        let mut taken = FunctionStore { records: Vec::new() };
        core::mem::swap(self, &mut taken);
        taken.records
    }

    fn find(&self, name: &str) -> (at: Option<usize>)
        ensures
            distinct_names(self@),
            at is Some <==> has_name(self@, name@),
            at is Some ==> at->0 < self@.len() && at->0 == index_of(self@, name@),
    {
        proof {
            use_type_invariant(self);
        }
        let key = String::from_str(name);
        let n: usize = self.records.len();
        let mut i: usize = 0;
        while i < n
            invariant
                i <= n,
                n == self.records@.len(),
                n == self@.len(),
                key@ == name@,
                distinct_names(self@),
                forall|k: int| 0 <= k < i ==> (#[trigger] self@[k]).function_name != name@,
            decreases n - i,
        {
            if self.records[i].function_name == key {
                proof {
                    lemma_index_of(self@, name@, i as int);
                }
                return Some(i);
            }
            i += 1;
        }
        None
    }

    /// Fetches the record of a name.
    pub fn get(&self, name: &str) -> (r: Result<Function, StoreFault>)
        ensures
            outcome_view(r) == get_outcome(self@, name@),
            distinct_names(self@),
    {
        match self.find(name) {
            Some(at) => Ok(self.records[at].duplicate()),
            None => Err(StoreFault::NotFound),
        }
    }

    /// Fetches every record, in the order of insertion.
    pub fn get_all(&self) -> (r: Result<Vec<Function>, StoreFault>)
        ensures
            r is Ok,
            r->Ok_0@.len() == self@.len(),
            forall|i: int| 0 <= i < self@.len() ==> (#[trigger] r->Ok_0@[i])@ == self@[i],
    {
        let mut all: Vec<Function> = Vec::new();
        let n: usize = self.records.len();
        let mut i: usize = 0;
        while i < n
            invariant
                i <= n,
                n == self.records@.len(),
                n == self@.len(),
                all@.len() == i,
                forall|k: int| 0 <= k < i ==> (#[trigger] all@[k])@ == self@[k],
            decreases n - i,
        {
            all.push(self.records[i].duplicate());
            i += 1;
        }
        Ok(all)
    }

    /// Inserts a record under its name. A name that is taken is a unique
    /// violation and leaves the store as it was.
    pub fn insert(&mut self, record: Function) -> (r: Result<Function, StoreFault>)
        ensures
            final(self)@ == inserted(old(self)@, record@),
            distinct_names(final(self)@),
            outcome_view(r) == insert_outcome(old(self)@, record@),
    {
        match self.find(record.function_name.as_str()) {
            Some(_) => Err(StoreFault::UniqueViolation),
            None => {
                let copy = record.duplicate();
                let mut records = self.take_records();
                records.push(record);
                proof {
                    lemma_insert_keeps_names_distinct(old(self)@, record@);
                    assert(rows_of(records@) =~= old(self)@.push(record@));
                }
                *self = FunctionStore { records };
                Ok(copy)
            },
        }
    }

    /// Replaces the record called `name` by `record`, whole. Without such a
    /// record nothing is found; a `record` that would take the name of
    /// another is a unique violation. Either leaves the store as it was.
    pub fn update(&mut self, name: &str, record: Function) -> (r: Result<Function, StoreFault>)
        ensures
            final(self)@ == replaced(old(self)@, name@, record@),
            distinct_names(final(self)@),
            outcome_view(r) == update_outcome(old(self)@, name@, record@),
    {
        let at = match self.find(name) {
            Some(at) => at,
            None => {
                return Err(StoreFault::NotFound);
            },
        };
        match self.find(record.function_name.as_str()) {
            Some(other) => {
                if other != at {
                    return Err(StoreFault::UniqueViolation);
                }
            },
            None => {},
        }
        let copy = record.duplicate();
        let mut records = self.take_records();
        records.set(at, record);
        proof {
            lemma_update_keeps_names_distinct(old(self)@, name@, record@);
            assert(rows_of(records@) =~= old(self)@.update(at as int, record@));
        }
        *self = FunctionStore { records };
        Ok(copy)
    }

    /// Removes the record called `name` and tells how many records went: one,
    /// or none where no record has the name.
    pub fn delete(&mut self, name: &str) -> (r: Result<usize, StoreFault>)
        ensures
            final(self)@ == removed(old(self)@, name@),
            distinct_names(final(self)@),
            r is Ok,
            r->Ok_0 == delete_outcome(old(self)@, name@),
    {
        match self.find(name) {
            Some(at) => {
                let mut records = self.take_records();
                records.remove(at);
                proof {
                    lemma_delete_keeps_names_distinct(old(self)@, name@);
                    assert(rows_of(records@) =~= old(self)@.remove(at as int));
                }
                *self = FunctionStore { records };
                Ok(1)
            },
            None => Ok(0),
        }
    }
}

} // verus!
