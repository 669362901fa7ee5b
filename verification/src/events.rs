use vstd::prelude::*;

verus! {

/// A task was requested on chain: `prover` is asked to prove for `requester`
/// through the proving service at `endpoint`.
#[derive(Debug, Clone)]
pub struct TaskRequested {
    pub task_id: [u8; 32],
    pub requester: [u8; 20],
    pub prover: [u8; 20],
    pub endpoint: String,
}

/// A task was finalized on chain with the agreed digests of its public input
/// and of its proof.
#[derive(Debug, Clone)]
pub struct TaskFinalized {
    pub task_id: [u8; 32],
    pub image_id: [u8; 32],
    pub public_input_hash: Vec<u8>,
    pub proof_hash: Vec<u8>,
}

/// A request event as mathematics sees it.
pub struct RequestedView {
    pub task_id: Seq<u8>,
    pub requester: Seq<u8>,
    pub prover: Seq<u8>,
    pub endpoint: Seq<char>,
}

/// A finalization event as mathematics sees it.
pub struct FinalizedView {
    pub task_id: Seq<u8>,
    pub image_id: Seq<u8>,
    pub public_input_hash: Seq<u8>,
    pub proof_hash: Seq<u8>,
}

impl View for TaskRequested {
    type V = RequestedView;

    open spec fn view(&self) -> RequestedView {
        RequestedView {
            task_id: self.task_id@,
            requester: self.requester@,
            prover: self.prover@,
            endpoint: self.endpoint@,
        }
    }
}

impl View for TaskFinalized {
    type V = FinalizedView;

    open spec fn view(&self) -> FinalizedView {
        FinalizedView {
            task_id: self.task_id@,
            image_id: self.image_id@,
            public_input_hash: self.public_input_hash@,
            proof_hash: self.proof_hash@,
        }
    }
}

} // verus!
