use ethers::abi::Token;
use proofplus_client::abi::{encode_request_task, encode_slash, WORD_LEN};
use proofplus_client::dispatcher::{
    is_addressed_to, is_requested_by, on_task_requested, total_cycles, Workload,
};
use proofplus_client::events::TaskRequested;
use proofplus_client::prover_type::ProverType;

const ME: [u8; 20] = [0x11; 20];
const OTHER: [u8; 20] = [0x22; 20];

fn request(prover: [u8; 20]) -> TaskRequested {
    TaskRequested {
        task_id: [0x01; 32],
        requester: ME,
        prover,
        endpoint: "http://x".to_string(),
    }
}

#[test]
fn prover_type_names() {
    assert_eq!(ProverType::RiscZero.name(), "RiscZero");
    assert_eq!(ProverType::SP1.name(), "SP1");
    assert_ne!(ProverType::RiscZero, ProverType::SP1);
}

#[test]
fn word_length_is_thirty_two() {
    assert_eq!(WORD_LEN, 32);
}

#[test]
fn total_cycles_adds_up() {
    assert_eq!(total_cycles(&[]), 0);
    assert_eq!(total_cycles(&[0]), 0);
    assert_eq!(total_cycles(&[1, 2, 3]), 6);
    assert_eq!(total_cycles(&[u32::MAX, u32::MAX, 1]), 2 * (u32::MAX as u128) + 1);
}

#[test]
fn request_task_calldata_is_selector_and_word() {
    let calldata = encode_request_task(0x0102);
    assert_eq!(calldata.len(), 36);
    assert_eq!(&calldata[..4], &[0x98, 0xfa, 0xa4, 0x7f]);
    assert_eq!(&calldata[4..34], &[0u8; 30]);
    assert_eq!(&calldata[34..], &[0x01, 0x02]);
    assert_eq!(&calldata[..4], &ethers::utils::id("requestTask(uint256)"));
}

#[test]
fn request_task_calldata_of_zero_and_of_the_largest_count() {
    let zero = encode_request_task(0);
    assert_eq!(&zero[4..], &[0u8; 32]);
    let largest = encode_request_task(u128::MAX);
    assert_eq!(&largest[4..20], &[0u8; 16]);
    assert_eq!(&largest[20..], &[0xffu8; 16]);
}

#[test]
fn request_task_calldata_agrees_with_the_abi_encoder() {
    for count in [0u128, 1, 255, 256, 65_535, 1 << 64, u128::MAX] {
        let mut expected = ethers::utils::id("requestTask(uint256)").to_vec();
        expected.extend(ethers::abi::encode(&[Token::Uint(ethers::types::U256::from(count))]));
        assert_eq!(encode_request_task(count), expected);
    }
}

#[test]
fn slash_calldata_layout() {
    let calldata = encode_slash(&[0x01; 32], &[0x02; 32], &[0xaa, 0xbb, 0xcc]);
    assert_eq!(calldata.len(), 4 + 32 * 5);
    assert_eq!(&calldata[..4], &[0x71, 0x1f, 0xa5, 0x8d]);
    assert_eq!(&calldata[4..36], &[0x01; 32]);
    assert_eq!(&calldata[36..68], &[0x02; 32]);
    assert_eq!(&calldata[68..99], &[0u8; 31]);
    assert_eq!(calldata[99], 96);
    assert_eq!(&calldata[100..131], &[0u8; 31]);
    assert_eq!(calldata[131], 3);
    assert_eq!(&calldata[132..135], &[0xaa, 0xbb, 0xcc]);
    assert_eq!(&calldata[135..], &[0u8; 29]);
}

#[test]
fn slash_calldata_pads_to_whole_words() {
    assert_eq!(encode_slash(&[0; 32], &[0; 32], &[]).len(), 4 + 32 * 4);
    assert_eq!(encode_slash(&[0; 32], &[0; 32], &[7; 32]).len(), 4 + 32 * 5);
    assert_eq!(encode_slash(&[0; 32], &[0; 32], &[7; 33]).len(), 4 + 32 * 6);
}

#[test]
fn slash_calldata_agrees_with_the_abi_encoder() {
    for len in [0usize, 1, 31, 32, 33, 64, 100] {
        let proof: Vec<u8> = (0..len).map(|i| i as u8).collect();
        let mut expected = ethers::utils::id("slash(bytes32,bytes32,bytes)").to_vec();
        expected.extend(ethers::abi::encode(&[
            Token::FixedBytes(vec![0x01; 32]),
            Token::FixedBytes(vec![0x02; 32]),
            Token::Bytes(proof.clone()),
        ]));
        assert_eq!(encode_slash(&[0x01; 32], &[0x02; 32], &proof), expected);
    }
}

#[test]
fn filter_by_prover_and_requester() {
    assert!(is_addressed_to(&request(ME), &ME));
    assert!(!is_addressed_to(&request(OTHER), &ME));
    assert!(is_requested_by(&request(OTHER), &ME));
    assert!(!is_requested_by(&request(OTHER), &OTHER));
}

#[test]
fn request_for_another_prover_yields_no_plan() {
    let elf = [1u8, 2, 3];
    let workload = Workload {
        elf: &elf,
        inputs: &[],
        image_id: [0xab; 32],
        segment_cycles: &[10, 20],
        prover_type: ProverType::RiscZero,
    };
    assert!(on_task_requested(&request(OTHER), &ME, &workload).is_none());
    let mut nearly_me = ME;
    nearly_me[19] ^= 1;
    assert!(on_task_requested(&request(nearly_me), &ME, &workload).is_none());
}

#[test]
fn request_for_this_node_yields_the_plan() {
    let elf = [1u8, 2, 3];
    let inputs = [4u8, 5];
    let workload = Workload {
        elf: &elf,
        inputs: &inputs,
        image_id: [0xab; 32],
        segment_cycles: &[10, 20, 12],
        prover_type: ProverType::RiscZero,
    };
    let plan = on_task_requested(&request(ME), &ME, &workload).expect("addressed to this node");
    assert_eq!(plan.cycle_count, 42);
    assert_eq!(plan.calldata, encode_request_task(42));
    assert_eq!(plan.endpoint, "http://x");
    assert_eq!(plan.request.elf, &elf);
    assert_eq!(plan.request.inputs, &inputs);
    assert_eq!(plan.request.prover_type, ProverType::RiscZero);
    assert_eq!(plan.request.requester_address, format!("0x{}", "11".repeat(20)));
    assert_eq!(plan.request.task_id, format!("0x{}", "01".repeat(32)));
    assert_eq!(plan.request.image_id, "ab".repeat(32));
}

#[test]
fn trivial_program_without_cycles_is_dispatched_with_count_zero() {
    let workload = Workload {
        elf: &[],
        inputs: &[],
        image_id: [0; 32],
        segment_cycles: &[],
        prover_type: ProverType::RiscZero,
    };
    let plan = on_task_requested(&request(ME), &ME, &workload).unwrap();
    assert_eq!(plan.cycle_count, 0);
    assert_eq!(&plan.calldata[..4], &[0x98, 0xfa, 0xa4, 0x7f]);
    assert_eq!(&plan.calldata[4..], &[0u8; 32]);
}
