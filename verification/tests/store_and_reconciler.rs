use proofplus_client::events::TaskFinalized;
use proofplus_client::hashing::{digest_proof, digest_public_input};
use proofplus_client::hex::encode;
use proofplus_client::models::{Proof, Receipt};
use proofplus_client::polling::Outcome;
use proofplus_client::prover_type::ProverType;
use proofplus_client::reconciler::{
    check_finalized_event, compare_with_record, extract_hashes, on_proof_submission,
    on_task_finalized, PendingVerification, ReconcileError, Reconciliation, SubmissionHashes,
};
use proofplus_client::records::{task_key_of, FinalizedTask, NewFinalizedTask, RecordFields};
use proofplus_client::store::{StoreError, TaskRecordStore};

fn task(n: u8) -> [u8; 32] {
    let mut id = [0u8; 32];
    id[0] = n;
    id
}

fn receipt_proof(journal: &[u8], seal: &[u8]) -> Proof {
    Proof::risc_zero(Receipt { journal: journal.to_vec(), seal: Some(seal.to_vec()) })
}

fn finalized(task_id: [u8; 32], journal: &[u8], seal: &[u8]) -> TaskFinalized {
    TaskFinalized {
        task_id,
        image_id: [0xaa; 32],
        public_input_hash: digest_public_input(journal).to_vec(),
        proof_hash: digest_proof(seal).to_vec(),
    }
}

fn record(public_input_hash: &str, proof_hash: &str) -> FinalizedTask {
    FinalizedTask {
        id: 1,
        task_id: encode(&task(1)),
        image_id: encode(&[0xaa; 32]),
        public_input_hash: public_input_hash.to_string(),
        proof_hash: proof_hash.to_string(),
    }
}

const SHA256_EMPTY: &str = "e3b0c44298fc1c149afbf4c8996fb92427ae41e4649b934ca495991b7852b855";
const KECCAK256_EMPTY: &str = "c5d2460186f7233c927e7db2dcc703c0e500b653ca82273b7bfad8045d85a470";

#[test]
fn store_starts_empty() {
    let store = TaskRecordStore::new();
    assert_eq!(store.len(), 0);
    assert!(store.find_by_task_id("00").is_none());
}

#[test]
fn store_insert_then_find() {
    let mut store = TaskRecordStore::new();
    let written = store.insert(&NewFinalizedTask {
        task_id: "01",
        image_id: "aa",
        public_input_hash: "bb",
        proof_hash: "cc",
    });
    assert_eq!(written, Ok(1));
    assert_eq!(store.len(), 1);
    let found = store.find_by_task_id("01").expect("the record was stored");
    assert_eq!(found.id, 1);
    assert_eq!(found.task_id, "01");
    assert_eq!(found.image_id, "aa");
    assert_eq!(found.public_input_hash, "bb");
    assert_eq!(found.proof_hash, "cc");
    assert!(store.find_by_task_id("02").is_none());
}

#[test]
fn store_rejects_a_second_record_of_a_task() {
    let mut store = TaskRecordStore::new();
    let first = NewFinalizedTask { task_id: "01", image_id: "aa", public_input_hash: "bb", proof_hash: "cc" };
    let second = NewFinalizedTask { task_id: "01", image_id: "dd", public_input_hash: "ee", proof_hash: "ff" };
    assert_eq!(store.insert(&first), Ok(1));
    assert_eq!(store.insert(&second), Err(StoreError::DuplicateTask));
    assert_eq!(store.len(), 1);
    assert_eq!(store.find_by_task_id("01").unwrap().image_id, "aa");
}

#[test]
fn store_numbers_rows_from_one() {
    let mut store = TaskRecordStore::new();
    for key in ["0a", "0b", "0c"] {
        let new_task = NewFinalizedTask { task_id: key, image_id: "", public_input_hash: "", proof_hash: "" };
        assert_eq!(store.insert(&new_task), Ok(1));
    }
    assert_eq!(store.find_by_task_id("0a").unwrap().id, 1);
    assert_eq!(store.find_by_task_id("0b").unwrap().id, 2);
    assert_eq!(store.find_by_task_id("0c").unwrap().id, 3);
}

#[test]
fn record_fields_are_hex_of_the_event() {
    let event = TaskFinalized {
        task_id: task(1),
        image_id: [0xab; 32],
        public_input_hash: vec![0xde, 0xad],
        proof_hash: vec![0xbe, 0xef],
    };
    let fields = RecordFields::from_event(&event);
    assert_eq!(fields.task_id, format!("01{}", "00".repeat(31)));
    assert_eq!(fields.image_id, "ab".repeat(32));
    assert_eq!(fields.public_input_hash, "dead");
    assert_eq!(fields.proof_hash, "beef");
    let new_task = fields.as_new_task();
    assert_eq!(new_task.task_id, fields.task_id);
    assert_eq!(new_task.proof_hash, "beef");
    assert_eq!(task_key_of(&task(1)), fields.task_id);
}

#[test]
fn finalizing_stores_one_record() {
    let mut store = TaskRecordStore::new();
    let event = finalized(task(1), &[], &[]);
    let done = on_task_finalized(&mut store, &event, None).expect("first finalization");
    assert_eq!(done.written, 1);
    assert_eq!(done.direct, None);
    assert!(!done.is_slashable());
    assert_eq!(store.len(), 1);
    let stored = store.find_by_task_id(&task_key_of(&task(1))).unwrap();
    assert_eq!(stored.public_input_hash, SHA256_EMPTY);
    assert_eq!(stored.proof_hash, KECCAK256_EMPTY);
    assert_eq!(stored.image_id, "aa".repeat(32));
}

#[test]
fn finalizing_twice_is_a_protocol_violation() {
    let mut store = TaskRecordStore::new();
    let event = finalized(task(1), &[1], &[2]);
    assert!(on_task_finalized(&mut store, &event, None).is_ok());
    assert_eq!(
        on_task_finalized(&mut store, &event, None),
        Err(ReconcileError::DuplicateFinalization)
    );
    assert_eq!(store.len(), 1);
    let other = finalized(task(1), &[3], &[4]);
    assert_eq!(
        on_task_finalized(&mut store, &other, None),
        Err(ReconcileError::DuplicateFinalization)
    );
    assert_eq!(store.len(), 1);
    assert_eq!(
        store.find_by_task_id(&task_key_of(&task(1))).unwrap().public_input_hash,
        encode(&digest_public_input(&[1]))
    );
}

#[test]
fn finalizing_different_tasks_stores_each() {
    let mut store = TaskRecordStore::new();
    assert!(on_task_finalized(&mut store, &finalized(task(1), &[], &[]), None).is_ok());
    assert!(on_task_finalized(&mut store, &finalized(task(2), &[], &[]), None).is_ok());
    assert_eq!(store.len(), 2);
}

#[test]
fn reconciliation_times_out_after_exactly_five_lookups() {
    let store = TaskRecordStore::new();
    let done = on_proof_submission(&receipt_proof(&[1, 2], &[3, 4]), &task(1), &store);
    assert_eq!(done, Ok(Reconciliation::Resolved { outcome: Outcome::TimedOut, lookups: 5 }));
    assert!(!done.unwrap().is_slashable());
}

#[test]
fn reconciliation_times_out_when_only_other_tasks_are_stored() {
    let mut store = TaskRecordStore::new();
    assert!(on_task_finalized(&mut store, &finalized(task(2), &[1, 2], &[3, 4]), None).is_ok());
    let done = on_proof_submission(&receipt_proof(&[1, 2], &[3, 4]), &task(1), &store);
    assert_eq!(done, Ok(Reconciliation::Resolved { outcome: Outcome::TimedOut, lookups: 5 }));
}

#[test]
fn reconciliation_matches_a_seeded_record() {
    let mut store = TaskRecordStore::new();
    assert!(on_task_finalized(&mut store, &finalized(task(1), &[1, 2], &[3, 4]), None).is_ok());
    let done = on_proof_submission(&receipt_proof(&[1, 2], &[3, 4]), &task(1), &store);
    assert_eq!(done, Ok(Reconciliation::Resolved { outcome: Outcome::Matched, lookups: 1 }));
    assert!(!done.unwrap().is_slashable());
}

#[test]
fn reconciliation_reports_a_mismatch_and_flags_the_task() {
    let mut store = TaskRecordStore::new();
    assert!(on_task_finalized(&mut store, &finalized(task(1), &[1, 2], &[3, 4]), None).is_ok());
    let wrong_journal = on_proof_submission(&receipt_proof(&[9, 9], &[3, 4]), &task(1), &store);
    assert_eq!(
        wrong_journal,
        Ok(Reconciliation::Resolved { outcome: Outcome::Mismatched, lookups: 1 })
    );
    assert!(wrong_journal.unwrap().is_slashable());
    let wrong_seal = on_proof_submission(&receipt_proof(&[1, 2], &[9, 9]), &task(1), &store);
    assert_eq!(
        wrong_seal,
        Ok(Reconciliation::Resolved { outcome: Outcome::Mismatched, lookups: 1 })
    );
    assert!(wrong_seal.unwrap().is_slashable());
}

#[test]
fn end_to_end_empty_journal_and_seal_match() {
    let mut store = TaskRecordStore::new();
    let task_id = [0x01u8; 32];
    let submission = receipt_proof(&[], &[]);
    let hashes = extract_hashes(&submission).unwrap().unwrap();
    assert_eq!(encode(&hashes.public_input_hash), SHA256_EMPTY);
    assert_eq!(encode(&hashes.proof_hash), KECCAK256_EMPTY);
    let before = on_proof_submission(&submission, &task_id, &store);
    assert_eq!(before, Ok(Reconciliation::Resolved { outcome: Outcome::TimedOut, lookups: 5 }));
    let event = TaskFinalized {
        task_id,
        image_id: [0u8; 32],
        public_input_hash: hashes.public_input_hash.to_vec(),
        proof_hash: hashes.proof_hash.to_vec(),
    };
    let pending = PendingVerification { task_id, hashes };
    let done = on_task_finalized(&mut store, &event, Some(&pending)).unwrap();
    assert_eq!(done.written, 1);
    assert_eq!(done.direct, Some(Outcome::Matched));
    assert_eq!(store.len(), 1);
    let stored = store.find_by_task_id(&"01".repeat(32)).unwrap();
    assert_eq!(stored.public_input_hash, SHA256_EMPTY);
    assert_eq!(stored.proof_hash, KECCAK256_EMPTY);
    let after = on_proof_submission(&submission, &task_id, &store);
    assert_eq!(after, Ok(Reconciliation::Resolved { outcome: Outcome::Matched, lookups: 1 }));
}

#[test]
fn sp1_submission_is_accepted_unverified() {
    let mut store = TaskRecordStore::new();
    assert!(on_task_finalized(&mut store, &finalized(task(1), &[], &[]), None).is_ok());
    let submission = Proof::sp1(vec![1, 2, 3], vec![4, 5]);
    assert!(submission.is_well_formed());
    assert_eq!(submission.prover_type, ProverType::SP1);
    assert_eq!(extract_hashes(&submission).map(|h| h.is_none()), Ok(true));
    let done = on_proof_submission(&submission, &task(1), &store);
    assert_eq!(done, Ok(Reconciliation::Unverified));
    assert!(!done.unwrap().is_slashable());
}

#[test]
fn risc_zero_submission_without_receipt_is_rejected() {
    let store = TaskRecordStore::new();
    let submission =
        Proof { receipt: None, sp1proof: None, vk: None, prover_type: ProverType::RiscZero };
    assert!(!submission.is_well_formed());
    assert_eq!(
        on_proof_submission(&submission, &task(1), &store),
        Err(ReconcileError::MissingReceipt)
    );
}

#[test]
fn receipt_without_seal_is_rejected() {
    let store = TaskRecordStore::new();
    let submission = Proof::risc_zero(Receipt { journal: vec![1], seal: None });
    assert_eq!(
        on_proof_submission(&submission, &task(1), &store),
        Err(ReconcileError::MissingSeal)
    );
    assert_eq!(extract_hashes(&submission).map(|_| ()), Err(ReconcileError::MissingSeal));
}

#[test]
fn well_formedness_follows_the_prover_type() {
    assert!(receipt_proof(&[], &[]).is_well_formed());
    let both = Proof {
        receipt: Some(Receipt { journal: vec![], seal: None }),
        sp1proof: Some(vec![]),
        vk: Some(vec![]),
        prover_type: ProverType::RiscZero,
    };
    assert!(!both.is_well_formed());
    let sp1_without_key =
        Proof { receipt: None, sp1proof: Some(vec![]), vk: None, prover_type: ProverType::SP1 };
    assert!(!sp1_without_key.is_well_formed());
}

#[test]
fn comparison_is_on_raw_bytes_not_on_the_hex_text() {
    let hashes = SubmissionHashes {
        public_input_hash: digest_public_input(&[]),
        proof_hash: digest_proof(&[]),
    };
    let lower = record(SHA256_EMPTY, KECCAK256_EMPTY);
    assert_eq!(compare_with_record(&hashes, &lower), Outcome::Matched);
    let upper = record(&SHA256_EMPTY.to_uppercase(), &KECCAK256_EMPTY.to_uppercase());
    assert_eq!(compare_with_record(&hashes, &upper), Outcome::Matched);
    let prefixed = record(&format!("0x{}", SHA256_EMPTY), &format!("0x{}", KECCAK256_EMPTY));
    assert_eq!(compare_with_record(&hashes, &prefixed), Outcome::Matched);
}

#[test]
fn comparison_fails_on_one_wrong_digest_or_bad_text() {
    let hashes = SubmissionHashes {
        public_input_hash: digest_public_input(&[]),
        proof_hash: digest_proof(&[]),
    };
    assert_eq!(
        compare_with_record(&hashes, &record(KECCAK256_EMPTY, KECCAK256_EMPTY)),
        Outcome::Mismatched
    );
    assert_eq!(
        compare_with_record(&hashes, &record(SHA256_EMPTY, SHA256_EMPTY)),
        Outcome::Mismatched
    );
    assert_eq!(
        compare_with_record(&hashes, &record("not hex", KECCAK256_EMPTY)),
        Outcome::Mismatched
    );
    assert_eq!(
        compare_with_record(&hashes, &record(&SHA256_EMPTY[..62], KECCAK256_EMPTY)),
        Outcome::Mismatched
    );
}

#[test]
fn direct_check_skips_other_tasks() {
    let hashes = SubmissionHashes {
        public_input_hash: digest_public_input(&[5]),
        proof_hash: digest_proof(&[6]),
    };
    let pending = PendingVerification { task_id: task(1), hashes };
    assert_eq!(check_finalized_event(&finalized(task(2), &[5], &[6]), Some(&pending)), None);
    assert_eq!(check_finalized_event(&finalized(task(1), &[5], &[6]), None), None);
}

#[test]
fn direct_check_matches_or_flags() {
    let hashes = SubmissionHashes {
        public_input_hash: digest_public_input(&[5]),
        proof_hash: digest_proof(&[6]),
    };
    let pending = PendingVerification { task_id: task(1), hashes };
    assert_eq!(
        check_finalized_event(&finalized(task(1), &[5], &[6]), Some(&pending)),
        Some(Outcome::Matched)
    );
    assert_eq!(
        check_finalized_event(&finalized(task(1), &[5], &[7]), Some(&pending)),
        Some(Outcome::Mismatched)
    );
    let mut store = TaskRecordStore::new();
    let done =
        on_task_finalized(&mut store, &finalized(task(1), &[0], &[6]), Some(&pending)).unwrap();
    assert_eq!(done.direct, Some(Outcome::Mismatched));
    assert!(done.is_slashable());
    assert_eq!(store.len(), 1);
}
