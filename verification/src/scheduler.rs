use vstd::prelude::*;

verus! {

/// Identifies a signal of the engine scheduler.
#[derive(Debug, Clone, Copy, PartialEq, Eq, Structural, Hash)]
pub struct SignalId {
    pub id: u64,
}

/// Hands out signal identifiers; every signal it creates is new.
pub struct EngineScheduler {
    next_signal: u64,
}

impl EngineScheduler {
    /// The number of signals created so far.
    pub closed spec fn signals_created(&self) -> nat {
        self.next_signal as nat
    }

    /// A scheduler that has created no signal yet.
    pub fn new() -> (s: EngineScheduler)
        ensures
            s.signals_created() == 0,
    {
        EngineScheduler { next_signal: 0 }
    }

    /// Create a signal whose identifier differs from that of every signal
    /// created before by this scheduler.
    pub fn create_signal(&mut self) -> (sig: SignalId)
        requires
            old(self).signals_created() < u64::MAX,
        ensures
            final(self).signals_created() == old(self).signals_created() + 1,
            sig.id == old(self).signals_created(),
    {
        let sig = SignalId { id: self.next_signal };
        self.next_signal = self.next_signal + 1;
        sig
    }
}

} // verus!
