use alloy_primitives::keccak256;
use parallel_exec_operator::attestor::{
    Action, Event, FetchError, KeyLookup, Stage, SubmissionError, TaskAttestor,
};
use parallel_exec_operator::blocks::{block_commitment, joined_hash_bytes, ApiResponse, Block};
use parallel_exec_operator::identity::{operator_id_from_key, PublicKeyPoint};
use parallel_exec_operator::task::{
    convert_event_to_inputs, encode_task_response, task_response_digest, NewTaskCreated,
    TaskResponse,
};

fn block(hash: &str, number: &str) -> Block {
    Block {
        hash: hash.to_string(),
        number: number.to_string(),
        timestamp: "1700000000".to_string(),
        transactions_root: "0x00".to_string(),
        parent_hash: "0x01".to_string(),
    }
}

fn response(hashes: &[&str]) -> ApiResponse {
    ApiResponse {
        status: "1".to_string(),
        message: "OK".to_string(),
        data: hashes.iter().map(|h| block(h, "7")).collect(),
    }
}

fn key() -> PublicKeyPoint {
    PublicKeyPoint { x: vec![0x12, 0x34], y: vec![0x56] }
}

#[test]
fn joined_hashes_have_no_separator() {
    let blocks = vec![block("0xaa", "1"), block("0xbb", "2")];
    assert_eq!(joined_hash_bytes(&blocks), b"0xaa0xbb".to_vec());
}

#[test]
fn commitment_of_two_blocks() {
    let r = response(&["0xaa", "0xbb"]);
    let expected = keccak256(b"0xaa0xbb").0;
    assert_eq!(r.commitment(), expected);
    assert_eq!(block_commitment(&r.data), expected);
}

#[test]
fn commitment_of_no_blocks_is_digest_of_empty() {
    let empty: Vec<Block> = Vec::new();
    let c = block_commitment(&empty);
    assert_eq!(c, keccak256(b"").0);
    assert_eq!(
        alloy_primitives::hex::encode(c),
        "c5d2460186f7233c927e7db2dcc703c0e500b653ca82273b7bfad8045d85a470"
    );
}

#[test]
fn commitment_is_deterministic_and_ignores_other_fields() {
    let a = vec![block("0xaa", "1"), block("0xbb", "2")];
    let b = vec![block("0xaa", "9"), block("0xbb", "10")];
    assert_eq!(block_commitment(&a), block_commitment(&a));
    assert_eq!(block_commitment(&a), block_commitment(&b));
}

#[test]
fn commitment_depends_on_order() {
    let ab = response(&["0xaa", "0xbb"]);
    let ba = response(&["0xbb", "0xaa"]);
    assert_ne!(ab.commitment(), ba.commitment());
}

#[test]
fn task_response_encodes_to_36_bytes() {
    let hash = keccak256(b"0xaa0xbb").0;
    let tr = TaskResponse { reference_task_index: 42, result_hash: hash };
    let enc = encode_task_response(&tr);
    assert_eq!(enc.len(), 36);
    assert_eq!(&enc[..4], &[0, 0, 0, 42]);
    assert_eq!(&enc[4..], &hash[..]);
    assert_eq!(task_response_digest(&tr), keccak256(&enc).0);
}

#[test]
fn task_index_is_big_endian() {
    let tr = TaskResponse { reference_task_index: 0x0102_0304, result_hash: [7u8; 32] };
    let enc = encode_task_response(&tr);
    assert_eq!(&enc[..4], &[1, 2, 3, 4]);
    assert_eq!(enc[35], 7);
}

#[test]
fn operator_id_hashes_minimal_coordinates() {
    let id = operator_id_from_key(&key());
    assert_eq!(id, keccak256([0x12u8, 0x34, 0x56]).0);
    assert_eq!(id, operator_id_from_key(&key()));
}

#[test]
fn operator_id_ignores_leading_zero_bytes() {
    let padded = PublicKeyPoint { x: vec![0, 0, 0x12, 0x34], y: vec![0, 0x56] };
    assert_eq!(operator_id_from_key(&padded), operator_id_from_key(&key()));
}

#[test]
fn operator_id_of_zero_coordinate_is_one_zero_byte() {
    let p = PublicKeyPoint { x: vec![0, 0, 0], y: vec![] };
    assert_eq!(operator_id_from_key(&p), keccak256([0u8, 0u8]).0);
}

#[test]
fn operator_ids_of_distinct_keys_differ() {
    let other = PublicKeyPoint { x: vec![0x12, 0x35], y: vec![0x56] };
    assert_ne!(operator_id_from_key(&other), operator_id_from_key(&key()));
}

#[test]
fn event_converts_to_inputs() {
    let e = NewTaskCreated {
        task_index: 5,
        task_created_block: 100,
        quorum_numbers: vec![0, 1],
        quorum_threshold_percentage: 67,
    };
    assert_eq!(convert_event_to_inputs(e), Some((100, vec![0, 1], 67, 5)));
}

#[test]
fn event_with_oversized_threshold_is_skipped() {
    let e = NewTaskCreated {
        task_index: 5,
        task_created_block: 100,
        quorum_numbers: vec![],
        quorum_threshold_percentage: 256,
    };
    assert_eq!(convert_event_to_inputs(e), None);
}

fn finish_code(a: Action) -> Option<u32> {
    match a {
        Action::Finish(c) => Some(c),
        _ => None,
    }
}

fn at_key_stage() -> TaskAttestor {
    let mut t = TaskAttestor::new(42);
    let a = t.step(Event::Fetched(Ok(response(&["0xaa", "0xbb"]))));
    assert!(matches!(a, Action::LoadKey));
    t
}

#[test]
fn successful_run_reports_one() {
    let mut t = at_key_stage();
    let digest = match t.step(Event::KeyLoaded(KeyLookup::Ready(key()))) {
        Action::Sign(d) => d,
        _ => panic!("expected a signing request"),
    };
    let tr = TaskResponse { reference_task_index: 42, result_hash: keccak256(b"0xaa0xbb").0 };
    assert_eq!(digest, task_response_digest(&tr));
    let signed = match t.step(Event::Signed(vec![9, 9, 9])) {
        Action::Submit(s) => s,
        _ => panic!("expected a submission"),
    };
    assert_eq!(signed.task_response.reference_task_index, 42);
    assert_eq!(signed.task_response.result_hash, tr.result_hash);
    assert_eq!(signed.signature, vec![9, 9, 9]);
    assert_eq!(signed.operator_id, operator_id_from_key(&key()));
    assert_eq!(finish_code(t.step(Event::Submitted(Ok(())))), Some(1));
    assert_eq!(t.outcome(), Some(1));
}

#[test]
fn fetch_error_reports_zero() {
    for err in [FetchError::Network, FetchError::Parse] {
        let mut t = TaskAttestor::new(42);
        assert_eq!(t.outcome(), None);
        assert_eq!(finish_code(t.step(Event::Fetched(Err(err)))), Some(0));
        assert_eq!(t.outcome(), Some(0));
    }
}

#[test]
fn missing_or_unreadable_secret_reports_zero() {
    for lookup in [KeyLookup::Missing, KeyLookup::Unreadable] {
        let mut t = at_key_stage();
        assert_eq!(finish_code(t.step(Event::KeyLoaded(lookup))), Some(0));
        assert_eq!(t.outcome(), Some(0));
    }
}

#[test]
fn malformed_secret_reports_zero() {
    let mut t = at_key_stage();
    assert_eq!(finish_code(t.step(Event::KeyLoaded(KeyLookup::Malformed))), Some(0));
    assert_eq!(t.outcome(), Some(0));
}

#[test]
fn submission_error_reports_zero() {
    for err in [SubmissionError::Unreachable, SubmissionError::Rejected] {
        let mut t = at_key_stage();
        t.step(Event::KeyLoaded(KeyLookup::Ready(key())));
        t.step(Event::Signed(vec![1]));
        assert!(matches!(t.stage, Stage::Submitting));
        assert_eq!(finish_code(t.step(Event::Submitted(Err(err)))), Some(0));
        assert_eq!(t.outcome(), Some(0));
    }
}

#[test]
fn unexpected_event_reports_zero_and_done_stays_done() {
    let mut t = TaskAttestor::new(1);
    assert_eq!(finish_code(t.step(Event::Signed(vec![]))), Some(0));
    assert_eq!(finish_code(t.step(Event::Submitted(Ok(())))), Some(0));
    assert_eq!(t.outcome(), Some(0));
}
