use vstd::prelude::*;
use vstd::slice::{slice_subrange, slice_to_vec};
use vstd::utf8::{decode_utf8, encode_utf8, valid_utf8};
use crate::bytes::bytes_equal;
use crate::events::{FinalizedView, RequestedView, TaskFinalized, TaskRequested};
use crate::hashing::{keccak256, keccak256_digest};

verus! {

/// One entry of the chain's log: its topics and its data.
#[derive(Debug, Clone)]
pub struct LogRecord {
    pub topics: Vec<[u8; 32]>,
    pub data: Vec<u8>,
}

/// The number that a run of bytes stands for, the most significant first.
pub open spec fn be_value(bytes: Seq<u8>) -> nat
    decreases bytes.len(),
{
    if bytes.len() == 0 {
        0
    } else {
        be_value(bytes.drop_last()) * 256 + bytes.last() as nat
    }
}

/// The number in the word that starts at byte `at`, where `data` holds one
/// there.
pub open spec fn word_at(data: Seq<u8>, at: int) -> Option<nat> {
    if 0 <= at && at + 32 <= data.len() {
        Some(be_value(data.subrange(at, at + 32)))
    } else {
        None
    }
}

/// The dynamic argument whose head word starts at byte `head_at`: the head
/// holds the offset of the tail, and the tail is a length word followed by
/// that many bytes. `None` where any of this lies outside `data`.
pub open spec fn dynamic_bytes(data: Seq<u8>, head_at: int) -> Option<Seq<u8>> {
    match word_at(data, head_at) {
        Some(offset) => match word_at(data, offset as int) {
            Some(len) => if offset + 32 + len <= data.len() {
                Some(data.subrange(offset as int + 32, offset as int + 32 + len as int))
            } else {
                None
            },
            None => None,
        },
        None => None,
    }
}

/// The topic that marks the entries of one event: the Keccak-256 digest of
/// the event's signature.
pub open spec fn event_topic(signature: Seq<char>) -> Seq<u8> {
    keccak256(encode_utf8(signature))
}

/// The address in an indexed topic: its last twenty bytes, where the twelve
/// before them are zero.
pub open spec fn topic_address(topic: Seq<u8>) -> Option<Seq<u8>> {
    if topic.len() == 32 && (forall|i: int| 0 <= i < 12 ==> topic[i] == 0) {
        Some(topic.subrange(12, 32))
    } else {
        None
    }
}

/// The request event that an entry holds, if it holds one: four topics, the
/// first of them that of `TaskRequested(bytes32,address,address,string)`,
/// two well-formed addresses, and a data part whose one argument is UTF-8.
pub open spec fn task_requested_in(topics: Seq<[u8; 32]>, data: Seq<u8>) -> Option<RequestedView> {
    if topics.len() == 4 && topics[0]@ == event_topic(
        "TaskRequested(bytes32,address,address,string)"@,
    ) {
        match (topic_address(topics[2]@), topic_address(topics[3]@), dynamic_bytes(data, 0)) {
            (Some(requester), Some(prover), Some(endpoint)) => if valid_utf8(endpoint) {
                Some(
                    RequestedView {
                        task_id: topics[1]@,
                        requester,
                        prover,
                        endpoint: decode_utf8(endpoint),
                    },
                )
            } else {
                None
            },
            _ => None,
        }
    } else {
        None
    }
}

/// The finalization event that an entry holds, if it holds one: three
/// topics, the first of them that of
/// `TaskFinalized(bytes32,bytes32,bytes,bytes)`, and a data part with two
/// dynamic arguments.
pub open spec fn task_finalized_in(topics: Seq<[u8; 32]>, data: Seq<u8>) -> Option<FinalizedView> {
    if topics.len() == 3 && topics[0]@ == event_topic(
        "TaskFinalized(bytes32,bytes32,bytes,bytes)"@,
    ) {
        match (dynamic_bytes(data, 0), dynamic_bytes(data, 32)) {
            (Some(public_input_hash), Some(proof_hash)) => Some(
                FinalizedView {
                    task_id: topics[1]@,
                    image_id: topics[2]@,
                    public_input_hash,
                    proof_hash,
                },
            ),
            _ => None,
        }
    } else {
        None
    }
}

/// Calls `String::from_utf8` of the standard library and drops the error,
/// which holds nothing but the rejected bytes. Trusted: the call succeeds
/// exactly on valid UTF-8, and the text then holds the characters that the
/// bytes encode.
#[verifier::external_body]
fn text_from_utf8(bytes: Vec<u8>) -> (text: Option<String>)
    ensures
        match text {
            Some(t) => valid_utf8(bytes@) && t@ == decode_utf8(bytes@),
            None => !valid_utf8(bytes@),
        },
{
    String::from_utf8(bytes).ok()
}

/// A run of bytes stands for no less than any of its beginnings.
proof fn lemma_be_value_grows(bytes: Seq<u8>, taken: int)
    requires
        0 <= taken <= bytes.len(),
    ensures
        be_value(bytes.subrange(0, taken)) <= be_value(bytes),
    decreases bytes.len() - taken,
{
    if taken == bytes.len() {
        assert(bytes.subrange(0, taken) =~= bytes);
    } else {
        let longer = bytes.subrange(0, taken + 1);
        assert(longer.drop_last() =~= bytes.subrange(0, taken));
        lemma_be_value_grows(bytes, taken + 1);
    }
}

/// Reads the word that starts at byte `at`. `None` where `data` holds no
/// word there, or where the number is beyond what an index can be.
fn read_word(data: &[u8], at: usize) -> (value: Option<usize>)
    ensures
        match value {
            Some(v) => word_at(data@, at as int) == Some(v as nat),
            None => word_at(data@, at as int) matches Some(v) ==> v > usize::MAX,
        },
{
    let total = data.len();
    if at > total || total - at < 32 {
        return None;
    }
    let ghost word = data@.subrange(at as int, at + 32);
    let mut value: usize = 0;
    let mut i: usize = 0;
    while i < 32
        invariant
            i <= 32,
            at + 32 <= total == data@.len(),
            word == data@.subrange(at as int, at + 32),
            value == be_value(word.subrange(0, i as int)),
        decreases 32 - i,
    {
        let byte = data[at + i];
        proof {
            let longer = word.subrange(0, i as int + 1);
            assert(longer.drop_last() =~= word.subrange(0, i as int));
            assert(longer.last() == byte);
            lemma_be_value_grows(word, i as int + 1);
        }
        if value > (usize::MAX - byte as usize) / 256 {
            return None;
        }
        value = value * 256 + byte as usize;
        i += 1;
    }
    assert(word.subrange(0, 32) =~= word);
    Some(value)
}

/// Copies the dynamic argument whose head word starts at byte `head_at`.
pub fn dynamic_arg(data: &[u8], head_at: usize) -> (arg: Option<Vec<u8>>)
    ensures
        match arg {
            Some(bytes) => dynamic_bytes(data@, head_at as int) == Some(bytes@),
            None => dynamic_bytes(data@, head_at as int).is_none(),
        },
{
    let total = data.len();
    let offset = match read_word(data, head_at) {
        Some(offset) => offset,
        None => {
            return None;
        },
    };
    let len = match read_word(data, offset) {
        Some(len) => len,
        None => {
            return None;
        },
    };
    // A word was read at `offset`, so `offset + 32` is within `data`.
    assert(offset + 32 <= total);
    let start = offset + 32;
    if len > total - start {
        return None;
    }
    Some(slice_to_vec(slice_subrange(data, start, start + len)))
}

/// Whether `topic` marks the entries of the event with this signature.
pub fn is_event_topic(topic: &[u8; 32], signature: &str) -> (same: bool)
    ensures
        same == (topic@ == event_topic(signature@)),
{
    let expected = keccak256_digest(signature.as_bytes());
    bytes_equal(topic.as_slice(), expected.as_slice())
}

/// The address in an indexed topic.
pub fn address_of_topic(topic: &[u8; 32]) -> (address: Option<[u8; 20]>)
    ensures
        match address {
            Some(a) => topic_address(topic@) == Some(a@),
            None => topic_address(topic@).is_none(),
        },
{
    let mut i: usize = 0;
    while i < 12
        invariant
            i <= 12,
            forall|j: int| 0 <= j < i ==> topic@[j] == 0,
        decreases 12 - i,
    {
        if topic[i] != 0 {
            return None;
        }
        i += 1;
    }
    let mut address = [0u8; 20];
    let mut k: usize = 0;
    while k < 20
        invariant
            k <= 20,
            forall|j: int| 0 <= j < k ==> address@[j] == topic@[12 + j],
        decreases 20 - k,
    {
        address[k] = topic[12 + k];
        k += 1;
    }
    assert(address@ =~= topic@.subrange(12, 32));
    Some(address)
}

/// Decodes an entry as a request event. An entry that is none is skipped by
/// returning `None`.
pub fn decode_task_requested(log: &LogRecord) -> (event: Option<TaskRequested>)
    ensures
        match event {
            Some(e) => task_requested_in(log.topics@, log.data@) == Some(e@),
            None => task_requested_in(log.topics@, log.data@).is_none(),
        },
{
    if log.topics.len() != 4 {
        return None;
    }
    if !is_event_topic(&log.topics[0], "TaskRequested(bytes32,address,address,string)") {
        return None;
    }
    let requester = address_of_topic(&log.topics[2]);
    let prover = address_of_topic(&log.topics[3]);
    let endpoint = dynamic_arg(log.data.as_slice(), 0);
    match (requester, prover, endpoint) {
        (Some(requester), Some(prover), Some(bytes)) => match text_from_utf8(bytes) {
            Some(endpoint) => Some(
                TaskRequested { task_id: log.topics[1], requester, prover, endpoint },
            ),
            None => None,
        },
        _ => None,
    }
}

/// Decodes an entry as a finalization event. An entry that is none is
/// skipped by returning `None`.
pub fn decode_task_finalized(log: &LogRecord) -> (event: Option<TaskFinalized>)
    ensures
        match event {
            Some(e) => task_finalized_in(log.topics@, log.data@) == Some(e@),
            None => task_finalized_in(log.topics@, log.data@).is_none(),
        },
{
    if log.topics.len() != 3 {
        return None;
    }
    if !is_event_topic(&log.topics[0], "TaskFinalized(bytes32,bytes32,bytes,bytes)") {
        return None;
    }
    let public_input_hash = dynamic_arg(log.data.as_slice(), 0);
    let proof_hash = dynamic_arg(log.data.as_slice(), 32);
    match (public_input_hash, proof_hash) {
        (Some(public_input_hash), Some(proof_hash)) => Some(
            TaskFinalized {
                task_id: log.topics[1],
                image_id: log.topics[2],
                public_input_hash,
                proof_hash,
            },
        ),
        _ => None,
    }
}

} // verus!
