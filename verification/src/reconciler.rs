use vstd::prelude::*;
use crate::events::TaskFinalized;
use crate::bytes::bytes_equal;
use crate::hashing::{digest_proof, digest_public_input, keccak256, sha256};
use crate::hex::{decode, hex_decode, law_decode_inverts_encode};
use crate::models::Proof;
use crate::polling::{
    reachable, verdict, Outcome, PollAction, PollEvent, Phase, Polling, MAX_LOOKUPS,
};
use crate::prover_type::ProverType;
use crate::records::{
    record_of_event, task_key, task_key_of, FinalizedTask, RecordFields, RecordText, StoredRecord,
};
use crate::store::{
    has_key, lemma_lookup_after_push, lemma_lookup_finds_key, lookup, well_formed_records,
    StoreError, TaskRecordStore,
};

verus! {

/// Why an event or a submission was rejected.
#[derive(Debug, Clone, Copy, PartialEq, Eq, Structural)]
pub enum ReconcileError {
    /// The store already holds a record of the task.
    DuplicateFinalization,
    /// A RISC Zero submission without a receipt.
    MissingReceipt,
    /// A receipt without a succinct proof, so without a seal.
    MissingSeal,
    /// The store cannot take another record.
    StoreFull,
}

/// The two digests recomputed from a submission.
#[derive(Debug, Clone, Copy)]
pub struct SubmissionHashes {
    pub public_input_hash: [u8; 32],
    pub proof_hash: [u8; 32],
}

/// What became of a submission.
#[derive(Debug, Clone, Copy, PartialEq, Eq, Structural)]
pub enum Reconciliation {
    /// The submission is of a proof system whose digests are not checked: it
    /// is accepted as it is and nothing was looked up.
    Unverified,
    /// The submission was held against the store, which was asked `lookups`
    /// times.
    Resolved { outcome: Outcome, lookups: u8 },
}

impl Reconciliation {
    /// Whether the prover is to be slashed: the digests were compared and
    /// differ.
    pub open spec fn slashable(self) -> bool {
        self matches Reconciliation::Resolved { outcome: Outcome::Mismatched, .. }
    }

    /// Whether the prover is to be slashed: the digests were compared and
    /// differ.
    pub fn is_slashable(&self) -> (flag: bool)
        ensures
            flag == self.slashable(),
    {
        match self {
            Reconciliation::Resolved { outcome: Outcome::Mismatched, .. } => true,
            _ => false,
        }
    }
}

/// A task that this node requested and whose finalization it awaits, with
/// the digests of the proof it received for it.
#[derive(Debug, Clone, Copy)]
pub struct PendingVerification {
    pub task_id: [u8; 32],
    pub hashes: SubmissionHashes,
}

/// What the processing of a finalization event did.
#[derive(Debug, Clone, Copy, PartialEq, Eq, Structural)]
pub struct Finalization {
    /// Records written, which is one.
    pub written: usize,
    /// The verdict on this node's own pending task, where the event is about
    /// it.
    pub direct: Option<Outcome>,
}

impl Finalization {
    /// Whether the prover is to be slashed: the event finalized this node's
    /// own task with digests other than the recomputed ones.
    pub open spec fn slashable(self) -> bool {
        self.direct == Some(Outcome::Mismatched)
    }

    /// Whether the prover is to be slashed: the event finalized this node's
    /// own task with digests other than the recomputed ones.
    pub fn is_slashable(&self) -> (flag: bool)
        ensures
            flag == self.slashable(),
    {
        match self.direct {
            Some(Outcome::Mismatched) => true,
            _ => false,
        }
    }
}

/// The digests that a submission calls for: an error where the payload that
/// it announces is missing, `None` where its proof system is not checked,
/// else the SHA-256 of the journal and the Keccak-256 of the seal.
pub open spec fn extraction(submission: Proof) -> Result<Option<(Seq<u8>, Seq<u8>)>, ReconcileError> {
    if submission.prover_type != ProverType::RiscZero {
        Ok(None)
    } else {
        match submission.receipt {
            None => Err(ReconcileError::MissingReceipt),
            Some(receipt) => match receipt.seal {
                None => Err(ReconcileError::MissingSeal),
                Some(seal) => Ok(Some((sha256(receipt.journal@), keccak256(seal@)))),
            },
        }
    }
}

/// Whether a record's stored digests, decoded from their hexadecimal text,
/// are these two byte sequences. A text that does not decode matches nothing.
pub open spec fn record_matches(
    public_input_hash: Seq<u8>,
    proof_hash: Seq<u8>,
    text: RecordText,
) -> bool {
    &&& hex_decode(text.public_input_hash) == Some(public_input_hash)
    &&& hex_decode(text.proof_hash) == Some(proof_hash)
}

/// Whether a finalization event reports these two digests.
pub open spec fn event_matches(
    public_input_hash: Seq<u8>,
    proof_hash: Seq<u8>,
    event: TaskFinalized,
) -> bool {
    &&& event.public_input_hash@ == public_input_hash
    &&& event.proof_hash@ == proof_hash
}

/// The verdict on this node's own pending task that a finalization event
/// carries: none where there is no such task or the event is about another.
pub open spec fn direct_verdict(
    event: TaskFinalized,
    pending: Option<PendingVerification>,
) -> Option<Outcome> {
    match pending {
        Some(p) => if event.task_id@ == p.task_id@ {
            Some(
                verdict(
                    event_matches(p.hashes.public_input_hash@, p.hashes.proof_hash@, event),
                ),
            )
        } else {
            None
        },
        None => None,
    }
}

/// The store after a finalization event, and what is reported of it.
pub open spec fn finalize(
    records: Seq<StoredRecord>,
    event: TaskFinalized,
    pending: Option<PendingVerification>,
) -> (Seq<StoredRecord>, Result<Finalization, ReconcileError>) {
    if has_key(records, task_key(event.task_id@)) {
        (records, Err(ReconcileError::DuplicateFinalization))
    } else if records.len() >= i32::MAX {
        (records, Err(ReconcileError::StoreFull))
    } else {
        (
            records.push(
                StoredRecord { id: records.len() as int + 1, text: record_of_event(event) },
            ),
            Ok(Finalization { written: 1, direct: direct_verdict(event, pending) }),
        )
    }
}

/// What a submission for `task_id` comes to against a store that holds
/// `records` throughout.
pub open spec fn reconcile(
    submission: Proof,
    task_id: Seq<u8>,
    records: Seq<StoredRecord>,
) -> Result<Reconciliation, ReconcileError> {
    match extraction(submission) {
        Err(e) => Err(e),
        Ok(None) => Ok(Reconciliation::Unverified),
        Ok(Some((public_input_hash, proof_hash))) => match lookup(records, task_key(task_id)) {
            Some(record) => Ok(
                Reconciliation::Resolved {
                    outcome: verdict(record_matches(public_input_hash, proof_hash, record.text)),
                    lookups: 1,
                },
            ),
            None => Ok(
                Reconciliation::Resolved { outcome: Outcome::TimedOut, lookups: MAX_LOOKUPS },
            ),
        },
    }
}

/// Recomputes the digests of a submission.
pub fn extract_hashes(submission: &Proof) -> (hashes: Result<
    Option<SubmissionHashes>,
    ReconcileError,
>)
    ensures
        match hashes {
            Ok(Some(h)) => extraction(*submission) == Ok::<_, ReconcileError>(
                Some((h.public_input_hash@, h.proof_hash@)),
            ),
            Ok(None) => extraction(*submission) matches Ok(None),
            Err(e) => extraction(*submission) == Err::<Option<(Seq<u8>, Seq<u8>)>, _>(e),
        },
{
    match submission.prover_type {
        ProverType::SP1 => Ok(None),
        ProverType::RiscZero => match &submission.receipt {
            None => Err(ReconcileError::MissingReceipt),
            Some(receipt) => match &receipt.seal {
                None => Err(ReconcileError::MissingSeal),
                Some(seal) => Ok(
                    Some(
                        SubmissionHashes {
                            public_input_hash: digest_public_input(receipt.journal.as_slice()),
                            proof_hash: digest_proof(seal.as_slice()),
                        },
                    ),
                ),
            },
        },
    }
}

/// Whether a hexadecimal text stands for exactly the bytes of `digest`.
fn text_is_digest(text: &str, digest: &[u8; 32]) -> (same: bool)
    ensures
        same == (hex_decode(text@) == Some(digest@)),
{
    match decode(text) {
        Some(bytes) => bytes_equal(bytes.as_slice(), digest.as_slice()),
        None => false,
    }
}

/// Holds recomputed digests against a stored record, on the raw bytes.
pub fn compare_with_record(hashes: &SubmissionHashes, record: &FinalizedTask) -> (outcome: Outcome)
    ensures
        outcome == verdict(
            record_matches(hashes.public_input_hash@, hashes.proof_hash@, record@.text),
        ),
{
    let inputs_agree = text_is_digest(record.public_input_hash.as_str(), &hashes.public_input_hash);
    let proofs_agree = text_is_digest(record.proof_hash.as_str(), &hashes.proof_hash);
    if inputs_agree && proofs_agree {
        Outcome::Matched
    } else {
        Outcome::Mismatched
    }
}

/// Holds a finalization event against this node's own pending task.
pub fn check_finalized_event(event: &TaskFinalized, pending: Option<&PendingVerification>) -> (direct:
    Option<Outcome>)
    ensures
        direct == direct_verdict(
            *event,
            match pending {
                Some(p) => Some(*p),
                None => None,
            },
        ),
{
    match pending {
        None => None,
        Some(p) => {
            if !bytes_equal(event.task_id.as_slice(), p.task_id.as_slice()) {
                return None;
            }
            let inputs_agree = bytes_equal(
                event.public_input_hash.as_slice(),
                p.hashes.public_input_hash.as_slice(),
            );
            let proofs_agree = bytes_equal(
                event.proof_hash.as_slice(),
                p.hashes.proof_hash.as_slice(),
            );
            if inputs_agree && proofs_agree {
                Some(Outcome::Matched)
            } else {
                Some(Outcome::Mismatched)
            }
        },
    }
}

/// Stores the record of a finalized task, once. A second finalization of the
/// same task is rejected and leaves the store as it was. Where the event is
/// about this node's own pending task, its digests are held against the
/// recomputed ones.
pub fn on_task_finalized(
    store: &mut TaskRecordStore,
    event: &TaskFinalized,
    pending: Option<&PendingVerification>,
) -> (done: Result<Finalization, ReconcileError>)
    ensures
        well_formed_records(old(store)@),
        well_formed_records(final(store)@),
        (final(store)@, done) == finalize(
            old(store)@,
            *event,
            match pending {
                Some(p) => Some(*p),
                None => None,
            },
        ),
{
    let fields = RecordFields::from_event(event);
    let new_task = fields.as_new_task();
    match store.insert(&new_task) {
        Ok(written) => {
            let direct = check_finalized_event(event, pending);
            Ok(Finalization { written, direct })
        },
        Err(StoreError::DuplicateTask) => Err(ReconcileError::DuplicateFinalization),
        Err(StoreError::Full) => Err(ReconcileError::StoreFull),
    }
}

/// Recomputes the digests of a submission and holds them against the record
/// of `task_id`, asking the store up to the maximum number of times.
///
/// A submission of a proof system other than RISC Zero is accepted without
/// any check. The lookups follow each other without delay: a caller that
/// waits for a record to arrive drives a [`Polling`] session itself.
pub fn on_proof_submission(
    submission: &Proof,
    task_id: &[u8; 32],
    store: &TaskRecordStore,
) -> (done: Result<Reconciliation, ReconcileError>)
    ensures
        done == reconcile(*submission, task_id@, store@),
{
    let hashes = match extract_hashes(submission) {
        Err(e) => {
            return Err(e);
        },
        Ok(None) => {
            return Ok(Reconciliation::Unverified);
        },
        Ok(Some(h)) => h,
    };
    let key = task_key_of(task_id);
    let mut session = Polling::start();
    let mut resolved: Option<Reconciliation> = None;
    while resolved.is_none()
        invariant
            reachable(session@),
            resolved.is_none() ==> session@.phase == Phase::Looking,
            resolved.is_none() && lookup(store@, key@).is_some() ==> session@.made == 0,
            key@ == task_key(task_id@),
            extraction(*submission) == Ok::<_, ReconcileError>(
                Some((hashes.public_input_hash@, hashes.proof_hash@)),
            ),
            resolved matches Some(r) ==> Ok::<_, ReconcileError>(r) == reconcile(
                *submission,
                task_id@,
                store@,
            ),
        decreases
                if resolved.is_none() {
                    MAX_LOOKUPS - session@.made + 1
                } else {
                    0
                },
    {
        let event = match store.find_by_task_id(key.as_str()) {
            Some(record) => PollEvent::Found {
                matches: compare_with_record(&hashes, record) == Outcome::Matched,
            },
            None => PollEvent::NotFound,
        };
        match session.advance(event) {
            PollAction::Report { outcome } => {
                resolved = Some(Reconciliation::Resolved { outcome, lookups: session.lookups_made() });
            },
            PollAction::Sleep { .. } => {
                if let PollAction::Report { outcome } = session.advance(PollEvent::DelayElapsed) {
                    resolved = Some(
                        Reconciliation::Resolved { outcome, lookups: session.lookups_made() },
                    );
                }
            },
            _ => {},
        }
    }
    Ok(resolved.unwrap())
}

/// Finalizing keeps the store well formed.
pub proof fn law_finalize_keeps_store_well_formed(
    records: Seq<StoredRecord>,
    event: TaskFinalized,
    pending: Option<PendingVerification>,
)
    requires
        well_formed_records(records),
    ensures
        well_formed_records(finalize(records, event, pending).0),
{
    let after = finalize(records, event, pending).0;
    if after != records {
        let added = StoredRecord { id: records.len() as int + 1, text: record_of_event(event) };
        assert forall|i: int, j: int| 0 <= i < j < after.len() implies (#[trigger] after[i]).text.task_id
            != (#[trigger] after[j]).text.task_id by {
            if j == records.len() {
                assert(after[i] == records[i]);
            } else {
                assert(after[i] == records[i] && after[j] == records[j]);
            }
        }
    }
}

/// Finalization is idempotent: when the same event is processed twice, the
/// second attempt is rejected as a duplicate and changes nothing, and the
/// store holds exactly one record of the task. (A store that is full takes
/// no record at all, so it is left out.)
pub proof fn law_second_finalization_is_rejected(
    records: Seq<StoredRecord>,
    event: TaskFinalized,
    pending: Option<PendingVerification>,
)
    requires
        well_formed_records(records),
        records.len() < i32::MAX,
    ensures
        ({
            let first = finalize(records, event, pending);
            let second = finalize(first.0, event, pending);
            let key = task_key(event.task_id@);
            &&& second.1 == Err::<Finalization, _>(ReconcileError::DuplicateFinalization)
            &&& second.0 == first.0
            &&& exists|i: int|
                0 <= i < second.0.len() && (#[trigger] second.0[i]).text.task_id == key && forall|
                    j: int,
                |
                    0 <= j < second.0.len() && j != i ==> (#[trigger] second.0[j]).text.task_id
                        != key
        }),
{
    let first = finalize(records, event, pending);
    let key = task_key(event.task_id@);
    law_finalize_keeps_store_well_formed(records, event, pending);
    if !has_key(records, key) {
        assert(first.0[records.len() as int].text.task_id == key);
    }
    assert(has_key(first.0, key));
    let i = choose|i: int| 0 <= i < first.0.len() && (#[trigger] first.0[i]).text.task_id == key;
    assert forall|j: int| 0 <= j < first.0.len() && j != i implies (#[trigger] first.0[j]).text.task_id
        != key by {
        if j < i {
            assert(first.0[j].text.task_id != first.0[i].text.task_id);
        } else {
            assert(first.0[i].text.task_id != first.0[j].text.task_id);
        }
    }
}

/// While no record of the task is stored, a verifiable submission ends in a
/// timeout after exactly the maximum number of lookups.
pub proof fn law_absent_record_times_out(
    submission: Proof,
    task_id: Seq<u8>,
    records: Seq<StoredRecord>,
)
    requires
        extraction(submission) matches Ok(Some(_)),
        !has_key(records, task_key(task_id)),
    ensures
        reconcile(submission, task_id, records) == Ok::<_, ReconcileError>(
            Reconciliation::Resolved { outcome: Outcome::TimedOut, lookups: MAX_LOOKUPS },
        ),
{
    lemma_lookup_finds_key(records, task_key(task_id));
}

/// A submission whose recomputed digests are the ones that the task's record
/// holds, once its texts are decoded, is reported as matched.
pub proof fn law_equal_digests_match(
    submission: Proof,
    task_id: Seq<u8>,
    records: Seq<StoredRecord>,
    record: StoredRecord,
)
    requires
        lookup(records, task_key(task_id)) == Some(record),
        extraction(submission) matches Ok(Some(digests)) && hex_decode(
            record.text.public_input_hash,
        ) == Some(digests.0) && hex_decode(record.text.proof_hash) == Some(digests.1),
    ensures
        reconcile(submission, task_id, records) == Ok::<_, ReconcileError>(
            Reconciliation::Resolved { outcome: Outcome::Matched, lookups: 1 },
        ),
{
}

/// A submission of which a recomputed digest differs from what the task's
/// record holds is reported as mismatched, not as an error, and is flagged
/// for slashing.
pub proof fn law_different_digests_mismatch(
    submission: Proof,
    task_id: Seq<u8>,
    records: Seq<StoredRecord>,
    record: StoredRecord,
)
    requires
        lookup(records, task_key(task_id)) == Some(record),
        extraction(submission) matches Ok(Some(digests)) && (hex_decode(
            record.text.public_input_hash,
        ) != Some(digests.0) || hex_decode(record.text.proof_hash) != Some(digests.1)),
    ensures
        reconcile(submission, task_id, records) == Ok::<_, ReconcileError>(
            Reconciliation::Resolved { outcome: Outcome::Mismatched, lookups: 1 },
        ),
        reconcile(submission, task_id, records) matches Ok(r) && r.slashable(),
{
}

/// Once a task is finalized with the digests of a submission, that
/// submission reconciles as matched at the first lookup; with any other
/// digests it reconciles as mismatched.
pub proof fn law_finalized_task_reconciles(
    records: Seq<StoredRecord>,
    event: TaskFinalized,
    pending: Option<PendingVerification>,
    submission: Proof,
)
    requires
        well_formed_records(records),
        finalize(records, event, pending).1 is Ok,
        extraction(submission) matches Ok(Some(_)),
    ensures
        ({
            let stored = finalize(records, event, pending).0;
            let digests = extraction(submission)->Ok_0->Some_0;
            reconcile(submission, event.task_id@, stored) == Ok::<_, ReconcileError>(
                Reconciliation::Resolved {
                    outcome: verdict(event_matches(digests.0, digests.1, event)),
                    lookups: 1,
                },
            )
        }),
{
    let key = task_key(event.task_id@);
    let added = StoredRecord { id: records.len() as int + 1, text: record_of_event(event) };
    lemma_lookup_finds_key(records, key);
    lemma_lookup_after_push(records, added, key);
    law_decode_inverts_encode(event.public_input_hash@);
    law_decode_inverts_encode(event.proof_hash@);
}

} // verus!
