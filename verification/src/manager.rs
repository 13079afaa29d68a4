//! The pooled-connection manager's decision core: which authentication
//! strategy to drive, how each phase's failure is classified, and the
//! admission control that bounds concurrent unauthenticated attempts.

use vstd::prelude::*;

use crate::error::Error;

verus! {

/// The authentication strategy a manager is built with, dispatched once
/// per connection attempt.
pub enum AsyncSessionUserauthType {
    Password { password: String },
    Agent,
    PubkeyFile { pubkey: Option<String>, privatekey: String, passphrase: Option<String> },
}

/// How a connection attempt failed, by phase: the caller can tell a
/// refused authentication from transport trouble and retry accordingly.
pub enum AsyncSessionManagerError {
    ConnectError(Error),
    HandshakeError(Error),
    UserauthError(Error),
    AssertAuthenticated,
    Unknown(String),
}

/// A file-transfer checkout failure: either the connection attempt
/// itself failed, or opening the file-transfer subsystem did.
pub enum AsyncSftpManagerError {
    AsyncSessionManagerError(AsyncSessionManagerError),
    OpenError(Error),
}

/// The admission control bounding concurrent *unauthenticated*
/// connection attempts: handshake plus authentication is the expensive,
/// server-limited phase, so at most `max` attempts may hold a slot at
/// once. Checkouts that reuse an authenticated connection never touch
/// it.
pub struct AdmissionGate {
    pub max: usize,
    pub in_flight: usize,
}

impl AdmissionGate {
    /// Admitted attempts never outnumber the bound.
    pub open spec fn inv(&self) -> bool {
        self.in_flight <= self.max
    }

    /// A gate for at most `max(1, requested)` concurrent attempts, as a
    /// bound of zero would let no connection ever through.
    pub fn new(requested: usize) -> (g: AdmissionGate)
        ensures
            g.max == if requested == 0 { 1usize } else { requested },
            g.in_flight == 0,
            g.inv(),
    {
        let max: usize = if requested == 0 { 1 } else { requested };
        AdmissionGate { max, in_flight: 0 }
    }

    /// How many attempts could still be admitted right now.
    pub fn available(&self) -> (r: usize)
        requires
            self.inv(),
        ensures
            r == self.max - self.in_flight,
    {
        self.max - self.in_flight
    }

    /// Asks for a slot. Admission succeeds exactly when a slot is free;
    /// a refused caller must wait for a release and ask again.
    pub fn try_acquire(&mut self) -> (admitted: bool)
        requires
            old(self).inv(),
        ensures
            admitted == (old(self).in_flight < old(self).max),
            final(self).max == old(self).max,
            final(self).in_flight == if admitted {
                old(self).in_flight + 1
            } else {
                old(self).in_flight as int
            },
            *final(self) == gate_after(*old(self), GateOp::Acquire),
            final(self).inv(),
    {
        if self.in_flight < self.max {
            self.in_flight = self.in_flight + 1;
            true
        } else {
            false
        }
    }

    /// Returns a slot, whatever the attempt's outcome was.
    pub fn release(&mut self)
        requires
            old(self).inv(),
            old(self).in_flight > 0,
        ensures
            final(self).max == old(self).max,
            final(self).in_flight == old(self).in_flight - 1,
            *final(self) == gate_after(*old(self), GateOp::Release),
            final(self).inv(),
    {
        self.in_flight = self.in_flight - 1;
    }
}

impl Clone for AdmissionGate {
    /// A cloned manager starts with a fresh gate whose bound is what the
    /// original had *available* at that moment, and no slot held.
    fn clone(&self) -> (r: Self)
        ensures
            self.inv() ==> r.max == self.max - self.in_flight,
            r.in_flight == 0,
            r.inv(),
    {
        let max: usize = if self.in_flight <= self.max {
            self.max - self.in_flight
        } else {
            0
        };
        AdmissionGate { max, in_flight: 0 }
    }
}

/// One gate transition, as the pool's checkout tasks perform them.
#[derive(Clone, Copy, Debug, PartialEq, Eq, Structural)]
pub enum GateOp {
    Acquire,
    Release,
}

/// One transition applied: an acquire admits only below the bound, a
/// release returns a held slot.
pub open spec fn gate_after(g: AdmissionGate, op: GateOp) -> AdmissionGate {
    match op {
        GateOp::Acquire => if g.in_flight < g.max {
            AdmissionGate { max: g.max, in_flight: (g.in_flight + 1) as usize }
        } else {
            g
        },
        GateOp::Release => if g.in_flight > 0 {
            AdmissionGate { max: g.max, in_flight: (g.in_flight - 1) as usize }
        } else {
            g
        },
    }
}

/// A whole interleaving of acquires and releases, applied in order.
pub open spec fn gate_after_ops(g: AdmissionGate, ops: Seq<GateOp>) -> AdmissionGate
    decreases ops.len(),
{
    if ops.len() == 0 {
        g
    } else {
        gate_after_ops(gate_after(g, ops[0]), ops.drop_first())
    }
}

/// Law (admission control): under any interleaving of acquires and
/// releases, the number of attempts holding a slot never exceeds the
/// bound — with a bound of `M` and any number of concurrent callers, at
/// most `M` hold a slot at any moment, the rest are queued.
pub proof fn lemma_admission_bounded(g: AdmissionGate, ops: Seq<GateOp>)
    requires
        g.inv(),
    ensures
        gate_after_ops(g, ops).inv(),
        gate_after_ops(g, ops).max == g.max,
    decreases ops.len(),
{
    if ops.len() > 0 {
        lemma_admission_bounded(gate_after(g, ops[0]), ops.drop_first());
    }
}

/// What the checkout path does next; one phase at a time, each driven
/// through the retry driver.
pub enum ConnectStage {
    /// Establish the transport to the target.
    Transport,
    /// Drive the protocol handshake.
    Handshake,
    /// Drive the configured authentication strategy.
    Userauth,
    /// Ask the engine whether the session is now authenticated.
    AuthCheck,
    /// The attempt produced an authenticated session.
    Complete,
    /// The attempt failed; the phase is recorded in the error.
    Failed(AsyncSessionManagerError),
}

/// The connection attempt as a state machine: the runner performs the
/// phase the stage names and reports what happened; the flow decides
/// how it ends.
pub struct ConnectFlow {
    pub stage: ConnectStage,
}

impl ConnectFlow {
    pub fn new() -> (f: ConnectFlow)
        ensures
            f.stage is Transport,
    {
        ConnectFlow { stage: ConnectStage::Transport }
    }

    /// Feeds the outcome of the phase the current stage names. Success
    /// moves to the next phase; failure ends the attempt with that
    /// phase's error class.
    pub fn on_phase_result(&mut self, outcome: Result<(), Error>)
        requires
            old(self).stage is Transport || old(self).stage is Handshake || old(
                self,
            ).stage is Userauth,
        ensures
            match outcome {
                Ok(_) => final(self).stage == (match old(self).stage {
                    ConnectStage::Transport => ConnectStage::Handshake,
                    ConnectStage::Handshake => ConnectStage::Userauth,
                    _ => ConnectStage::AuthCheck,
                }),
                Err(e) => final(self).stage == ConnectStage::Failed(
                    match old(self).stage {
                        ConnectStage::Transport => AsyncSessionManagerError::ConnectError(e),
                        ConnectStage::Handshake => AsyncSessionManagerError::HandshakeError(e),
                        _ => AsyncSessionManagerError::UserauthError(e),
                    },
                ),
            },
    {
        match outcome {
            Ok(_) => {
                self.stage = match self.stage {
                    ConnectStage::Transport => ConnectStage::Handshake,
                    ConnectStage::Handshake => ConnectStage::Userauth,
                    _ => ConnectStage::AuthCheck,
                };
            },
            Err(e) => {
                let wrapped = match self.stage {
                    ConnectStage::Transport => AsyncSessionManagerError::ConnectError(e),
                    ConnectStage::Handshake => AsyncSessionManagerError::HandshakeError(e),
                    _ => AsyncSessionManagerError::UserauthError(e),
                };
                self.stage = ConnectStage::Failed(wrapped);
            },
        }
    }

    /// Feeds the engine's answer to the final authenticated query: the
    /// attempt completes only on a confirmed authentication, anything
    /// else is the assertion failure, distinct from every other error.
    pub fn on_authenticated(&mut self, authenticated: bool)
        requires
            old(self).stage is AuthCheck,
        ensures
            final(self).stage == if authenticated {
                ConnectStage::Complete
            } else {
                ConnectStage::Failed(AsyncSessionManagerError::AssertAuthenticated)
            },
    {
        if authenticated {
            self.stage = ConnectStage::Complete;
        } else {
            self.stage = ConnectStage::Failed(AsyncSessionManagerError::AssertAuthenticated);
        }
    }

    /// Whether the attempt has ended, one way or the other.
    pub fn is_settled(&self) -> (r: bool)
        ensures
            r == (self.stage is Complete || self.stage is Failed),
    {
        matches!(self.stage, ConnectStage::Complete | ConnectStage::Failed(_))
    }
}

/// The pool framework's liveness probe: the reference behaviour keeps
/// every pooled connection valid — a deliberate always-valid stub.
pub fn connection_is_valid() -> (r: bool)
    ensures
        r,
{
    true
}

/// The pool framework's breakage probe, the stub's counterpart: a
/// pooled connection is never reported broken.
pub fn connection_has_broken() -> (r: bool)
    ensures
        !r,
{
    false
}

} // verus!
