use vstd::prelude::*;
use crate::prover_type::ProverType;

verus! {

/// What the coordinator reads of a RISC Zero receipt: the journal, and the
/// seal where the receipt carries a succinct proof.
#[derive(Debug, Clone)]
pub struct Receipt {
    pub journal: Vec<u8>,
    pub seal: Option<Vec<u8>>,
}

/// The proving service's answer to one proof request.
#[derive(Debug, Clone)]
pub struct Proof {
    pub receipt: Option<Receipt>,
    pub sp1proof: Option<Vec<u8>>,
    pub vk: Option<Vec<u8>>,
    pub prover_type: ProverType,
}

impl Proof {
    /// The payload that `prover_type` selects is there and the other is not.
    pub open spec fn well_formed(&self) -> bool {
        match self.prover_type {
            ProverType::RiscZero => self.receipt.is_some() && self.sp1proof.is_none()
                && self.vk.is_none(),
            ProverType::SP1 => self.receipt.is_none() && self.sp1proof.is_some()
                && self.vk.is_some(),
        }
    }

    /// A RISC Zero submission around `receipt`.
    pub fn risc_zero(receipt: Receipt) -> (proof: Proof)
        ensures
            proof.well_formed(),
            proof.prover_type == ProverType::RiscZero,
            proof.receipt == Some(receipt),
    {
        Proof { receipt: Some(receipt), sp1proof: None, vk: None, prover_type: ProverType::RiscZero }
    }

    /// An SP1 submission that carries `sp1proof` and its verifying key.
    pub fn sp1(sp1proof: Vec<u8>, vk: Vec<u8>) -> (proof: Proof)
        ensures
            proof.well_formed(),
            proof.prover_type == ProverType::SP1,
            proof.sp1proof == Some(sp1proof),
            proof.vk == Some(vk),
    {
        Proof { receipt: None, sp1proof: Some(sp1proof), vk: Some(vk), prover_type: ProverType::SP1 }
    }

    /// Whether exactly the payload that `prover_type` selects is populated.
    pub fn is_well_formed(&self) -> (ok: bool)
        ensures
            ok == self.well_formed(),
    {
        match self.prover_type {
            ProverType::RiscZero => self.receipt.is_some() && self.sp1proof.is_none()
                && self.vk.is_none(),
            ProverType::SP1 => self.receipt.is_none() && self.sp1proof.is_some()
                && self.vk.is_some(),
        }
    }
}

} // verus!
