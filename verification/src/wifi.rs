//! Network bring-up: the association retry machine and the
//! address-acquisition wait.
//!
//! Association is retried immediately and unboundedly on failure — there is
//! no backoff and no give-up condition; each failure is counted so the
//! driver can log it.  After a successful join, the address wait polls at a
//! fixed interval with an indicator line asserted until the network stack
//! reports a configured address.  Both machines decide; the driver performs
//! the radio and timer operations and feeds back their outcomes.

use vstd::prelude::*;

verus! {

/// Where the device stands in WiFi association.
#[derive(Clone, Copy, Debug, PartialEq, Eq, Structural)]
pub enum JoinState {
    /// Not yet a member of the network; a join attempt is due.
    Joining,
    /// Association succeeded; terminal.
    Joined,
}

/// The association retry machine, counting failed attempts.
#[derive(Clone, Copy, Debug, PartialEq, Eq, Structural)]
pub struct AssociationManager {
    /// The current association state.
    pub state: JoinState,
    /// How many join attempts have failed so far.
    pub failures: u64,
}

impl AssociationManager {
    /// A fresh manager: not yet joined, no failures.
    pub fn new() -> (m: AssociationManager)
        ensures
            m == (AssociationManager { state: JoinState::Joining, failures: 0 }),
    {
        AssociationManager { state: JoinState::Joining, failures: 0 }
    }

    /// Whether another join attempt is due.  Association never gives up:
    /// this stays true until a join succeeds.
    pub fn should_attempt(&self) -> (r: bool)
        ensures
            r == (self.state == JoinState::Joining),
    {
        match self.state {
            JoinState::Joining => true,
            JoinState::Joined => false,
        }
    }

    /// Record the outcome of one join attempt.  Success reaches the
    /// terminal `Joined` state; failure counts one more loggable failure
    /// (saturating at the counter's machine limit) and leaves the machine
    /// ready to retry at once.
    pub fn on_join_result(&mut self, ok: bool)
        requires
            old(self).state == JoinState::Joining,
        ensures
            ok ==> final(self).state == JoinState::Joined,
            !ok ==> final(self).state == JoinState::Joining,
            ok ==> final(self).failures == old(self).failures,
            !ok && old(self).failures < u64::MAX ==> final(self).failures == old(
                self,
            ).failures + 1,
            !ok && old(self).failures == u64::MAX ==> final(self).failures == u64::MAX,
    {
        if ok {
            self.state = JoinState::Joined;
        } else if self.failures < u64::MAX {
            self.failures = self.failures + 1;
        }
    }
}

/// Where the device stands in address acquisition.
#[derive(Clone, Copy, Debug, PartialEq, Eq, Structural)]
pub enum BringupState {
    /// Waiting for the network stack to report a configured address.
    Waiting,
    /// An address is configured; requests may now be served.
    Configured,
}

/// The address-acquisition wait, owning the bring-up indicator line.
#[derive(Clone, Copy, Debug, PartialEq, Eq, Structural)]
pub struct NetworkBringup {
    /// The current wait state.
    pub state: BringupState,
    /// Level of the indicator line: asserted exactly while waiting.
    pub indicator: bool,
}

impl NetworkBringup {
    /// The indicator line is asserted exactly while the wait is on.
    pub open spec fn wf(self) -> bool {
        self.indicator == (self.state == BringupState::Waiting)
    }

    /// Begin the wait: the indicator line goes high.
    pub fn start() -> (b: NetworkBringup)
        ensures
            b == (NetworkBringup { state: BringupState::Waiting, indicator: true }),
            b.wf(),
    {
        NetworkBringup { state: BringupState::Waiting, indicator: true }
    }

    /// Record one poll of the stack's configuration status.  While the
    /// stack reports no address, the wait goes on (another poll is due
    /// after the fixed interval) and the indicator stays high; once an
    /// address is reported, the wait ends and the indicator goes low.
    pub fn on_poll(&mut self, config_up: bool)
        requires
            old(self).state == BringupState::Waiting,
        ensures
            config_up ==> *final(self) == (NetworkBringup {
                state: BringupState::Configured,
                indicator: false,
            }),
            !config_up ==> *final(self) == (NetworkBringup {
                state: BringupState::Waiting,
                indicator: true,
            }),
            final(self).wf(),
    {
        if config_up {
            self.state = BringupState::Configured;
            self.indicator = false;
        } else {
            self.state = BringupState::Waiting;
            self.indicator = true;
        }
    }

    /// Whether the wait is over and requests may be served.
    pub fn is_configured(&self) -> (r: bool)
        ensures
            r == (self.state == BringupState::Configured),
    {
        match self.state {
            BringupState::Waiting => false,
            BringupState::Configured => true,
        }
    }
}

} // verus!
