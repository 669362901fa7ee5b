use vstd::prelude::*;
use crate::abi::{encode_request_task, request_task_calldata};
use crate::events::TaskRequested;
use crate::bytes::bytes_equal;
use crate::hex::{encode, encode_prefixed, hex_encode, hex_encode_prefixed};
use crate::prover_type::ProverType;

verus! {

/// The program to prove, its inputs, and what a local run reported of them.
#[derive(Debug, Clone, Copy)]
pub struct Workload<'a> {
    /// The program binary.
    pub elf: &'a [u8],
    /// The program's inputs.
    pub inputs: &'a [u8],
    /// The identifier of the program image.
    pub image_id: [u8; 32],
    /// The cycles of each segment of a local run.
    pub segment_cycles: &'a [u32],
    /// The proof system to ask for.
    pub prover_type: ProverType,
}

/// The body of the request to the proving service.
#[derive(Debug)]
pub struct ProofRequest<'a> {
    pub elf: &'a [u8],
    pub inputs: &'a [u8],
    pub prover_type: ProverType,
    /// The requester's address: `0x` and forty hexadecimal digits.
    pub requester_address: String,
    /// The task id: `0x` and sixty-four hexadecimal digits.
    pub task_id: String,
    /// The image id: sixty-four hexadecimal digits.
    pub image_id: String,
}

/// What is to be done for a task that was requested of this node: first the
/// on-chain call, and once it is mined, the request to the proving service.
#[derive(Debug)]
pub struct DispatchPlan<'a> {
    /// The estimated workload size that the on-chain call carries.
    pub cycle_count: u128,
    /// The call data of the on-chain call.
    pub calldata: Vec<u8>,
    /// Where the proving service listens.
    pub endpoint: String,
    /// What to send there.
    pub request: ProofRequest<'a>,
}

/// The sum of the cycles of all segments.
pub open spec fn sum_cycles(segments: Seq<u32>) -> nat
    decreases segments.len(),
{
    if segments.len() == 0 {
        0
    } else {
        sum_cycles(segments.drop_last()) + segments.last() as nat
    }
}

/// Whether `plan` is what the request `event` calls for, given `workload`.
pub open spec fn plan_is_for(plan: DispatchPlan, event: TaskRequested, workload: Workload) -> bool {
    &&& plan.cycle_count == sum_cycles(workload.segment_cycles@)
    &&& plan.calldata@ == request_task_calldata(plan.cycle_count as nat)
    &&& plan.endpoint@ == event.endpoint@
    &&& plan.request.elf@ == workload.elf@
    &&& plan.request.inputs@ == workload.inputs@
    &&& plan.request.prover_type == workload.prover_type
    &&& plan.request.requester_address@ == hex_encode_prefixed(event.requester@)
    &&& plan.request.task_id@ == hex_encode_prefixed(event.task_id@)
    &&& plan.request.image_id@ == hex_encode(workload.image_id@)
}

/// Whether the event asks this node, known by `identity`, to prove.
pub fn is_addressed_to(event: &TaskRequested, identity: &[u8; 20]) -> (mine: bool)
    ensures
        mine == (event.prover@ == identity@),
{
    bytes_equal(event.prover.as_slice(), identity.as_slice())
}

/// Whether the event was requested by this node, known by `identity`.
pub fn is_requested_by(event: &TaskRequested, identity: &[u8; 20]) -> (mine: bool)
    ensures
        mine == (event.requester@ == identity@),
{
    bytes_equal(event.requester.as_slice(), identity.as_slice())
}

/// The workload-size estimate: the cycles of all segments, added up.
pub fn total_cycles(segment_cycles: &[u32]) -> (total: u128)
    ensures
        total == sum_cycles(segment_cycles@),
{
    let mut total: u128 = 0;
    let mut i: usize = 0;
    while i < segment_cycles.len()
        invariant
            i <= segment_cycles@.len(),
            total == sum_cycles(segment_cycles@.subrange(0, i as int)),
            total <= i * u32::MAX,
        decreases segment_cycles@.len() - i,
    {
        proof {
            let next = segment_cycles@.subrange(0, i as int + 1);
            assert(next.drop_last() =~= segment_cycles@.subrange(0, i as int));
            assert(next.last() == segment_cycles@[i as int]);
        }
        total = total + segment_cycles[i] as u128;
        i += 1;
    }
    assert(segment_cycles@.subrange(0, i as int) =~= segment_cycles@);
    total
}

/// Decides what a request event calls for. An event that names another
/// prover is not this node's to serve: it yields no plan, so no call is
/// submitted and nothing is sent. For this node's own, the plan holds the
/// call data that carries the workload estimate, and the request for the
/// proving service named in the event.
pub fn on_task_requested<'a>(
    event: &TaskRequested,
    identity: &[u8; 20],
    workload: &Workload<'a>,
) -> (plan: Option<DispatchPlan<'a>>)
    ensures
        plan.is_some() == (event.prover@ == identity@),
        plan matches Some(p) ==> plan_is_for(p, *event, *workload),
{
    if !is_addressed_to(event, identity) {
        return None;
    }
    let cycle_count = total_cycles(workload.segment_cycles);
    let calldata = encode_request_task(cycle_count);
    let request = ProofRequest {
        elf: workload.elf,
        inputs: workload.inputs,
        prover_type: workload.prover_type,
        requester_address: encode_prefixed(event.requester.as_slice()),
        task_id: encode_prefixed(event.task_id.as_slice()),
        image_id: encode(workload.image_id.as_slice()),
    };
    Some(DispatchPlan { cycle_count, calldata, endpoint: event.endpoint.clone(), request })
}

/// The estimate grows by a segment's cycles when that segment is added.
pub proof fn law_cycles_add_up(segments: Seq<u32>, cycles: u32)
    ensures
        sum_cycles(segments.push(cycles)) == sum_cycles(segments) + cycles,
        sum_cycles(Seq::<u32>::empty()) == 0,
{
    assert(segments.push(cycles).drop_last() =~= segments);
}

} // verus!
