use vstd::prelude::*;

verus! {

/// The proof system that produced, or is asked to produce, a proof.
#[derive(Debug, Clone, Copy, PartialEq, Eq, Structural)]
pub enum ProverType {
    RiscZero,
    SP1,
}

impl ProverType {
    /// The tag under which the proving service knows this proof system.
    pub open spec fn spec_name(self) -> Seq<char> {
        match self {
            ProverType::RiscZero => "RiscZero"@,
            ProverType::SP1 => "SP1"@,
        }
    }

    /// The tag under which the proving service knows this proof system.
    pub fn name(&self) -> (s: &'static str)
        ensures
            s@ == self.spec_name(),
    {
        match self {
            ProverType::RiscZero => "RiscZero",
            ProverType::SP1 => "SP1",
        }
    }
}

} // verus!
