//! A trigger that a client arms by hand.
use vstd::prelude::*;
use crate::error::TriggerError;
use crate::log_file::LogFile;
use crate::trigger::Trigger;

verus! {

/// A trigger which rolls the log when requested by a client.
///
/// It is a latch: arming sets it, and the next evaluation takes it and leaves
/// it cleared until it is armed again.
#[derive(Clone, Copy, Debug, PartialEq, Eq, Hash, Structural)]
pub struct ClientTrigger {
    latch: bool,
}

/// One call made on a [`ClientTrigger`].
pub enum ClientCall {
    /// `rotate_on_next_append`.
    Arm,
    /// `trigger`.
    Evaluate,
}

impl ClientTrigger {
    /// Whether a rotation has been requested and not yet taken: what the next
    /// evaluation will answer.
    pub closed spec fn is_armed(self) -> bool {
        self.latch
    }

    /// The trigger as `new` makes it.
    pub closed spec fn cleared() -> ClientTrigger {
        ClientTrigger { latch: false }
    }

    /// The trigger after it has been armed.
    pub closed spec fn armed(self) -> ClientTrigger {
        ClientTrigger { latch: true }
    }

    /// The trigger after an evaluation.
    pub closed spec fn taken(self) -> ClientTrigger {
        ClientTrigger { latch: false }
    }

    /// The trigger after a sequence of calls, the first call first.
    pub open spec fn after(self, calls: Seq<ClientCall>) -> ClientTrigger
        decreases calls.len(),
    {
        if calls.len() == 0 {
            self
        } else {
            match calls.last() {
                ClientCall::Arm => self.after(calls.drop_last()).armed(),
                ClientCall::Evaluate => self.after(calls.drop_last()).taken(),
            }
        }
    }

    /// Returns a new trigger which rolls the log whenever signalled by the
    /// client. It starts out cleared.
    pub fn new() -> (fresh: Self)
        ensures
            fresh == Self::cleared(),
            !fresh.is_armed(),
    {
        ClientTrigger { latch: false }
    }

    /// Requests a rotation before the next append.
    pub fn rotate_on_next_append(&mut self)
        ensures
            *final(self) == old(self).armed(),
            final(self).is_armed(),
    {
        self.latch = true;
    }

    /// An armed trigger fires at the next evaluation and at no later one;
    /// arming twice is arming once; a trigger never armed does not fire.
    /// This holds of a trigger in any state, so after any earlier calls.
    pub proof fn lemma_arming_fires_once(self)
        ensures
            self.armed().is_armed(),
            !self.armed().taken().is_armed(),
            self.armed().armed() == self.armed(),
            !self.taken().is_armed(),
            !Self::cleared().is_armed(),
    {
    }

    /// After any calls at all, the next evaluation fires exactly if the last
    /// call armed the trigger; after no call, exactly if the trigger was armed
    /// to begin with. So requests made between two evaluations count once,
    /// and a request is never answered twice.
    pub proof fn lemma_last_call_decides(self, calls: Seq<ClientCall>)
        ensures
            self.after(calls).is_armed() == (if calls.len() == 0 {
                self.is_armed()
            } else {
                calls.last() is Arm
            }),
    {
    }
}

impl Default for ClientTrigger {
    /// The cleared trigger, as `new` makes it.
    fn default() -> (fresh: Self)
        ensures
            fresh == Self::cleared(),
            !fresh.is_armed(),
    {
        ClientTrigger::new()
    }
}

impl Trigger for ClientTrigger {
    /// An evaluation takes the latch: it answers whether the trigger was
    /// armed, never fails, and leaves the trigger cleared.
    open spec fn answers(&self, after: &Self, rotate: Result<bool, TriggerError>) -> bool {
        &&& rotate == Ok::<bool, TriggerError>(self.is_armed())
        &&& *after == self.taken()
        &&& !after.is_armed()
    }

    /// Answers whether a rotation was requested since the last evaluation,
    /// and leaves the trigger cleared.
    fn trigger(&mut self, file: &LogFile) -> (rotate: Result<bool, TriggerError>) {
        let was_armed = self.latch;
        self.latch = false;
        Ok(was_armed)
    }
}

} // verus!
