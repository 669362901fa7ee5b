use vstd::prelude::*;
use crate::bytes::text_equal;
use crate::records::{FinalizedTask, NewFinalizedTask, StoredRecord};

verus! {

/// Why the store refused a record.
#[derive(Debug, Clone, Copy, PartialEq, Eq, Structural)]
pub enum StoreError {
    /// A record with the same task id is already stored.
    DuplicateTask,
    /// The store holds as many records as row numbers exist.
    Full,
}

/// The finalized records of this node, in the order in which they were
/// stored. Records are only ever appended, and no task id occurs twice.
pub struct TaskRecordStore {
    records: Vec<FinalizedTask>,
}

impl View for TaskRecordStore {
    type V = Seq<StoredRecord>;

    closed spec fn view(&self) -> Seq<StoredRecord> {
        views_of(self.records@)
    }
}

/// Each record of a sequence replaced by its view.
spec fn views_of(records: Seq<FinalizedTask>) -> Seq<StoredRecord> {
    Seq::new(records.len(), |i: int| records[i]@)
}

/// Whether some record of `records` is stored under `key`.
pub open spec fn has_key(records: Seq<StoredRecord>, key: Seq<char>) -> bool {
    exists|i: int| 0 <= i < records.len() && (#[trigger] records[i]).text.task_id == key
}

/// The first record of `records` that is stored under `key`.
pub open spec fn lookup(records: Seq<StoredRecord>, key: Seq<char>) -> Option<StoredRecord>
    decreases records.len(),
{
    if records.len() == 0 {
        None
    } else if records[0].text.task_id == key {
        Some(records[0])
    } else {
        lookup(records.drop_first(), key)
    }
}

/// No task id occurs twice, and each record's row number is its position,
/// counted from one.
pub open spec fn well_formed_records(records: Seq<StoredRecord>) -> bool {
    &&& records.len() <= i32::MAX
    &&& forall|i: int| 0 <= i < records.len() ==> (#[trigger] records[i]).id == i + 1
    &&& forall|i: int, j: int|
        0 <= i < j < records.len() ==> (#[trigger] records[i]).text.task_id != (
        #[trigger] records[j]).text.task_id
}

impl TaskRecordStore {
    /// The invariant of the store, which holds of every store there is.
    #[verifier::type_invariant]
    pub open spec fn well_formed(&self) -> bool {
        well_formed_records(self@)
    }

    /// Whether a record is stored under `key`.
    pub open spec fn contains_key(&self, key: Seq<char>) -> bool {
        has_key(self@, key)
    }

    /// A store without records.
    pub fn new() -> (store: TaskRecordStore)
        ensures
            store@ == Seq::<StoredRecord>::empty(),
            well_formed_records(store@),
    {
        let store = TaskRecordStore { records: Vec::new() };
        assert(store@ =~= Seq::<StoredRecord>::empty());
        store
    }

    /// The number of records stored.
    pub fn len(&self) -> (n: usize)
        ensures
            n == self@.len(),
    {
        self.records.len()
    }

    /// The record stored under `task_id`, if there is one.
    pub fn find_by_task_id(&self, task_id: &str) -> (found: Option<&FinalizedTask>)
        ensures
            match found {
                Some(record) => lookup(self@, task_id@) == Some(record@),
                None => lookup(self@, task_id@).is_none(),
            },
            found.is_some() == self.contains_key(task_id@),
    {
        proof {
            lemma_lookup_finds_key(self@, task_id@);
        }
        let mut i: usize = 0;
        assert(self@.subrange(0, self@.len() as int) =~= self@);
        while i < self.records.len()
            invariant
                i <= self.records@.len(),
                self@.len() == self.records@.len(),
                lookup(self@, task_id@) == lookup(
                    self@.subrange(i as int, self@.len() as int),
                    task_id@,
                ),
            decreases self.records@.len() - i,
        {
            let ghost rest = self@.subrange(i as int, self@.len() as int);
            assert(rest[0] == self.records@[i as int]@);
            if text_equal(self.records[i].task_id.as_str(), task_id) {
                return Some(&self.records[i]);
            }
            assert(rest.drop_first() =~= self@.subrange(i as int + 1, self@.len() as int));
            i += 1;
        }
        None
    }

    /// Appends a record, unless one is already stored under its task id.
    /// Returns the number of records written, which is one.
    pub fn insert(&mut self, new_task: &NewFinalizedTask) -> (written: Result<usize, StoreError>)
        ensures
            well_formed_records(old(self)@),
            well_formed_records(final(self)@),
            match written {
                Ok(count) => {
                    &&& count == 1
                    &&& !old(self).contains_key(new_task@.task_id)
                    &&& final(self)@ == old(self)@.push(
                        StoredRecord { id: old(self)@.len() as int + 1, text: new_task@ },
                    )
                },
                Err(StoreError::DuplicateTask) => {
                    &&& old(self).contains_key(new_task@.task_id)
                    &&& final(self)@ == old(self)@
                },
                Err(StoreError::Full) => {
                    &&& !old(self).contains_key(new_task@.task_id)
                    &&& old(self)@.len() == i32::MAX
                    &&& final(self)@ == old(self)@
                },
            },
    {
        proof {
            use_type_invariant(&*self);
        }
        if self.find_by_task_id(new_task.task_id).is_some() {
            return Err(StoreError::DuplicateTask);
        }
        let count = self.records.len();
        if count >= 2147483647usize {
            return Err(StoreError::Full);
        }
        let id: i32 = (count + 1) as i32;
        let record = FinalizedTask {
            id,
            task_id: new_task.task_id.to_owned(),
            image_id: new_task.image_id.to_owned(),
            public_input_hash: new_task.public_input_hash.to_owned(),
            proof_hash: new_task.proof_hash.to_owned(),
        };
        // The vector leaves the store while it grows, so that the store is
        // well formed at every moment.
        let mut records: Vec<FinalizedTask> = Vec::new();
        core::mem::swap(&mut self.records, &mut records);
        assert(self@ =~= Seq::<StoredRecord>::empty());
        records.push(record);
        proof {
            let added = StoredRecord { id: old(self)@.len() as int + 1, text: new_task@ };
            let grown = views_of(records@);
            assert(grown =~= old(self)@.push(added));
            assert forall|i: int, j: int| 0 <= i < j < grown.len() implies (#[trigger] grown[i]).text.task_id
                != (#[trigger] grown[j]).text.task_id by {
                assert(grown[i] == old(self)@[i]);
                if j < old(self)@.len() {
                    assert(grown[j] == old(self)@[j]);
                }
            }
            assert(well_formed_records(grown));
        }
        core::mem::swap(&mut self.records, &mut records);
        assert(self@ =~= old(self)@.push(
            StoredRecord { id: old(self)@.len() as int + 1, text: new_task@ },
        ));
        Ok(1)
    }
}

/// A key is looked up with success exactly where some record is stored
/// under it, and what is found is a stored record with that key.
pub proof fn lemma_lookup_finds_key(records: Seq<StoredRecord>, key: Seq<char>)
    ensures
        lookup(records, key).is_some() == has_key(records, key),
        lookup(records, key) matches Some(record) ==> records.contains(record)
            && record.text.task_id == key,
    decreases records.len(),
{
    if records.len() == 0 {
    } else if records[0].text.task_id == key {
    } else {
        let rest = records.drop_first();
        lemma_lookup_finds_key(rest, key);
        if has_key(rest, key) {
            let i = choose|i: int| 0 <= i < rest.len() && (#[trigger] rest[i]).text.task_id == key;
            assert(records[i + 1] == rest[i]);
        }
        if has_key(records, key) {
            let i = choose|i: int|
                0 <= i < records.len() && (#[trigger] records[i]).text.task_id == key;
            assert(rest[i - 1] == records[i]);
        }
        if let Some(record) = lookup(rest, key) {
            let i = choose|i: int| 0 <= i < rest.len() && rest[i] == record;
            assert(records[i + 1] == record);
        }
    }
}

/// Appending a record changes no lookup that succeeded before, and makes the
/// lookup of the new record's key succeed where it did not.
pub proof fn lemma_lookup_after_push(records: Seq<StoredRecord>, added: StoredRecord, key: Seq<char>)
    ensures
        lookup(records.push(added), key) == if lookup(records, key).is_some() {
            lookup(records, key)
        } else if added.text.task_id == key {
            Some(added)
        } else {
            None
        },
    decreases records.len(),
{
    let extended = records.push(added);
    if records.len() == 0 {
        assert(extended[0] == added);
        assert(extended.drop_first() =~= records);
    } else {
        assert(extended[0] == records[0]);
        assert(extended.drop_first() =~= records.drop_first().push(added));
        lemma_lookup_after_push(records.drop_first(), added, key);
    }
}

} // verus!
