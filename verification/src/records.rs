use vstd::prelude::*;
use crate::events::TaskFinalized;
use crate::hex::{encode, hex_encode};

verus! {

/// A stored record of a finalized task. Every text field is the lowercase
/// hexadecimal form of the bytes it stands for.
#[derive(Debug)]
pub struct FinalizedTask {
    pub id: i32,
    pub task_id: String,
    pub image_id: String,
    pub public_input_hash: String,
    pub proof_hash: String,
}

/// A record that is about to be stored.
#[derive(Debug)]
pub struct NewFinalizedTask<'a> {
    pub task_id: &'a str,
    pub image_id: &'a str,
    pub public_input_hash: &'a str,
    pub proof_hash: &'a str,
}

/// The four texts of a record.
pub struct RecordText {
    pub task_id: Seq<char>,
    pub image_id: Seq<char>,
    pub public_input_hash: Seq<char>,
    pub proof_hash: Seq<char>,
}

/// A stored record as mathematics sees it: its row number and its texts.
pub struct StoredRecord {
    pub id: int,
    pub text: RecordText,
}

impl View for FinalizedTask {
    type V = StoredRecord;

    open spec fn view(&self) -> StoredRecord {
        StoredRecord {
            id: self.id as int,
            text: RecordText {
                task_id: self.task_id@,
                image_id: self.image_id@,
                public_input_hash: self.public_input_hash@,
                proof_hash: self.proof_hash@,
            },
        }
    }
}

impl<'a> View for NewFinalizedTask<'a> {
    type V = RecordText;

    open spec fn view(&self) -> RecordText {
        RecordText {
            task_id: self.task_id@,
            image_id: self.image_id@,
            public_input_hash: self.public_input_hash@,
            proof_hash: self.proof_hash@,
        }
    }
}

/// The key under which a task is stored: the hexadecimal text of its id.
pub open spec fn task_key(task_id: Seq<u8>) -> Seq<char> {
    hex_encode(task_id)
}

/// The texts under which a finalization event is stored.
pub open spec fn record_of_event(event: TaskFinalized) -> RecordText {
    RecordText {
        task_id: task_key(event.task_id@),
        image_id: hex_encode(event.image_id@),
        public_input_hash: hex_encode(event.public_input_hash@),
        proof_hash: hex_encode(event.proof_hash@),
    }
}

/// The four texts of a record, owned, ready to be lent to a
/// [`NewFinalizedTask`].
#[derive(Debug)]
pub struct RecordFields {
    pub task_id: String,
    pub image_id: String,
    pub public_input_hash: String,
    pub proof_hash: String,
}

impl View for RecordFields {
    type V = RecordText;

    open spec fn view(&self) -> RecordText {
        RecordText {
            task_id: self.task_id@,
            image_id: self.image_id@,
            public_input_hash: self.public_input_hash@,
            proof_hash: self.proof_hash@,
        }
    }
}

impl RecordFields {
    /// Hex-encodes the four byte fields of a finalization event.
    pub fn from_event(event: &TaskFinalized) -> (fields: RecordFields)
        ensures
            fields@ == record_of_event(*event),
    {
        RecordFields {
            task_id: encode(event.task_id.as_slice()),
            image_id: encode(event.image_id.as_slice()),
            public_input_hash: encode(event.public_input_hash.as_slice()),
            proof_hash: encode(event.proof_hash.as_slice()),
        }
    }

    /// The same texts, borrowed, in the shape that the store takes.
    pub fn as_new_task<'a>(&'a self) -> (new_task: NewFinalizedTask<'a>)
        ensures
            new_task@ == self@,
    {
        NewFinalizedTask {
            task_id: self.task_id.as_str(),
            image_id: self.image_id.as_str(),
            public_input_hash: self.public_input_hash.as_str(),
            proof_hash: self.proof_hash.as_str(),
        }
    }
}

/// The storage key of a task id.
pub fn task_key_of(task_id: &[u8; 32]) -> (key: String)
    ensures
        key@ == task_key(task_id@),
{
    encode(task_id.as_slice())
}

} // verus!
