//! The entry/exit transition engine and the coroutine facade built on it.
//!
//! One transition crosses the trust boundary once: the driver loads the
//! registers described by [`EnclaveEntry`], issues the enter instruction,
//! observes the registers described by [`ExitRegisters`], and hands them to
//! [`transition`] for classification. A thread either ran to completion
//! (`Return`, giving the thread slot back together with two result words) or
//! suspended itself to request a host-side operation (`Yield`, giving a
//! [`Usercall`] that must be resumed to re-enter the thread).

use vstd::prelude::*;
use crate::arch::ENCLU_EEXIT;

verus! {

/// One schedulable enclave execution-thread slot: the address of its
/// hardware-defined thread-control page, as supplied by the enclave loader.
///
/// The value is deliberately neither `Clone` nor `Copy`: it moves into every
/// transition and is handed back inside the outcome, so at most one owner can
/// drive the thread at a time. Duplicating the underlying page address through
/// a second, independently obtained handle is a loader-level misuse this
/// runtime cannot detect; its behaviour is undefined by design.
#[derive(Debug)]
pub struct Tcs {
    address: u64,
}

impl Tcs {
    /// The address of the thread-control page.
    pub closed spec fn spec_address(&self) -> u64 {
        self.address
    }

    /// Wrap the address of a thread-control page whose enclave mapping the
    /// loader has already established.
    pub fn new(address: u64) -> (r: Tcs)
        ensures
            r.spec_address() == address,
    {
        Tcs { address }
    }

    /// Read the page address: the RBX operand of every entry, also usable
    /// for diagnostics.
    pub fn address(&self) -> (r: u64)
        ensures
            r == self.spec_address(),
    {
        self.address
    }
}

/// Outcome of one coroutine step: the thread either suspended itself
/// (`Yield`) or ran to completion (`Return`). There is no third variant —
/// every abnormal hardware outcome is fatal and never reaches this type.
#[derive(Debug)]
pub enum CoResult<Y, R> {
    Yield(Y),
    Return(R),
}

/// A pending host-service request: the suspended thread's slot together with
/// the five parameter words copied verbatim from the registers at the moment
/// of suspension. Their meaning is the driver's business; this runtime ships
/// them opaquely. Resuming is the only way back into the thread: a `Usercall`
/// that is never resumed permanently strands its thread slot.
#[derive(Debug)]
pub struct Usercall {
    tcs: Tcs,
    parameters: (u64, u64, u64, u64, u64),
}

/// Result of driving one enclave thread through one transition: a pending
/// usercall, or the returned thread slot with two 64-bit result words.
pub type ThreadResult = CoResult<Usercall, (Tcs, u64, u64)>;

/// The registers the untrusted side observes when control returns from the
/// enclave: EAX carries the raw hardware exit reason, and RDI, RSI, RDX, R8,
/// R9 carry the five parameter words of the enclave-side calling convention.
#[derive(Clone, Copy, Debug)]
pub struct ExitRegisters {
    pub exit_reason: u32,
    pub p1: u64,
    pub p2: u64,
    pub p3: u64,
    pub p4: u64,
    pub p5: u64,
}

impl ExitRegisters {
    /// The single non-fatal exit reason: a synchronous enclave exit.
    /// Asynchronous exits are retried transparently by the hardware and are
    /// never observed here; any other reason is an unrecoverable violation
    /// of the low-level contract.
    pub open spec fn is_normal(&self) -> bool {
        self.exit_reason == ENCLU_EEXIT
    }

    /// Executable form of [`ExitRegisters::is_normal`].
    pub fn check_normal(&self) -> (r: bool)
        ensures
            r == self.is_normal(),
    {
        self.exit_reason == ENCLU_EEXIT
    }
}

/// The registers the driver must load for the next entry into a thread: the
/// slot whose page address goes in RBX, and the five parameter words for
/// RDI, RSI, RDX, R8, R9.
#[derive(Debug)]
pub struct EnclaveEntry {
    pub tcs: Tcs,
    pub p1: u64,
    pub p2: u64,
    pub p3: u64,
    pub p4: u64,
    pub p5: u64,
}

impl EnclaveEntry {
    /// Build the register state for an initial entry into a thread.
    pub fn new(tcs: Tcs, p1: u64, p2: u64, p3: u64, p4: u64, p5: u64) -> (r: EnclaveEntry)
        ensures
            r.tcs == tcs,
            r.p1 == p1,
            r.p2 == p2,
            r.p3 == p3,
            r.p4 == p4,
            r.p5 == p5,
    {
        EnclaveEntry { tcs, p1, p2, p3, p4, p5 }
    }
}

impl Usercall {
    /// The thread slot suspended inside this request.
    pub closed spec fn spec_tcs(&self) -> Tcs {
        self.tcs
    }

    /// The five parameter words captured at the moment of suspension.
    pub closed spec fn spec_parameters(&self) -> (u64, u64, u64, u64, u64) {
        self.parameters
    }

    /// Read the captured parameter words; no side effect.
    pub fn parameters(&self) -> (r: (u64, u64, u64, u64, u64))
        ensures
            r == self.spec_parameters(),
    {
        self.parameters
    }

    /// Consume the request and produce the register state that resumes the
    /// suspended thread: the two return words go in the first two parameter
    /// registers of the enclave-side convention and the remaining three are
    /// cleared. The embedded thread slot is carried into the new entry, so a
    /// resumed thread is always driven through an entire further transition.
    pub fn coreturn(self, retval: (u64, u64)) -> (r: EnclaveEntry)
        ensures
            r.tcs == self.spec_tcs(),
            r.p1 == 0,
            r.p2 == retval.0,
            r.p3 == retval.1,
            r.p4 == 0,
            r.p5 == 0,
    {
        EnclaveEntry { tcs: self.tcs, p1: 0, p2: retval.0, p3: retval.1, p4: 0, p5: 0 }
    }

    /// The page address of the suspended thread's slot, for diagnostics;
    /// ownership is unaffected.
    pub fn tcs_address(&self) -> (r: u64)
        ensures
            r == self.spec_tcs().spec_address(),
    {
        self.tcs.address()
    }
}

/// Which thread slot an outcome holds: the one embedded in the pending
/// usercall, or the one handed back on completion.
pub open spec fn outcome_holds_tcs(outcome: ThreadResult, tcs: Tcs) -> bool {
    match outcome {
        CoResult::Yield(u) => u.spec_tcs() == tcs,
        CoResult::Return(ret) => ret.0 == tcs,
    }
}

/// How a normal exit is classified: a zero first parameter word means the
/// thread ran to completion and the second and third words are its results;
/// a nonzero first word means the thread suspended itself and all five words
/// are the usercall parameters.
pub closed spec fn classify_exit(tcs: Tcs, exit: ExitRegisters) -> ThreadResult {
    if exit.p1 == 0 {
        CoResult::Return((tcs, exit.p2, exit.p3))
    } else {
        CoResult::Yield(
            Usercall { tcs, parameters: (exit.p1, exit.p2, exit.p3, exit.p4, exit.p5) },
        )
    }
}

/// Classify one completed entry/exit transition on the thread slot `tcs`,
/// from the registers observed when control returned.
///
/// `Err(code)` reports a hardware exit reason other than the single defined
/// normal one: an unrecoverable violation of the low-level contract. The
/// caller must abort the process on it — there is no defined recovery, and
/// no partial outcome accompanies it.
pub fn transition(tcs: Tcs, exit: ExitRegisters) -> (r: Result<ThreadResult, u32>)
    ensures
        r is Ok <==> exit.is_normal(),
        r matches Err(code) ==> code == exit.exit_reason,
        r matches Ok(outcome) ==> outcome == classify_exit(tcs, exit),
        r matches Ok(outcome) ==> outcome_holds_tcs(outcome, tcs),
        exit.is_normal() && exit.p1 == 0 ==> (r matches Ok(outcome)
            && outcome matches CoResult::Return(ret)
            && ret == (tcs, exit.p2, exit.p3)),
        exit.is_normal() && exit.p1 != 0 ==> (r matches Ok(outcome)
            && outcome matches CoResult::Yield(u)
            && u.spec_tcs() == tcs
            && u.spec_parameters() == (exit.p1, exit.p2, exit.p3, exit.p4, exit.p5)),
{
    if exit.exit_reason != ENCLU_EEXIT {
        Err(exit.exit_reason)
    } else if exit.p1 == 0 {
        Ok(CoResult::Return((tcs, exit.p2, exit.p3)))
    } else {
        Ok(CoResult::Yield(
            Usercall { tcs, parameters: (exit.p1, exit.p2, exit.p3, exit.p4, exit.p5) },
        ))
    }
}

/// The outcome of a whole session on one thread: the first exit is
/// classified; as long as the thread yields and further exits remain, the
/// embedded slot is re-entered and the next exit classified. A completion
/// ends the session regardless of any exits that follow.
pub open spec fn run_spec(tcs: Tcs, exits: Seq<ExitRegisters>) -> ThreadResult
    recommends
        exits.len() > 0,
    decreases exits.len(),
{
    let first = classify_exit(tcs, exits[0]);
    if exits.len() <= 1 {
        first
    } else {
        match first {
            CoResult::Yield(u) => run_spec(u.spec_tcs(), exits.drop_first()),
            CoResult::Return(_) => first,
        }
    }
}

/// Law: an outcome is always exactly one of `Yield` or `Return` — never
/// both, never neither.
pub proof fn lemma_exactly_one_variant<Y, R>(outcome: CoResult<Y, R>)
    ensures
        (outcome is Yield) <==> !(outcome is Return),
{
}

/// Law: classifying an exit conserves the thread slot — whichever variant
/// comes out holds exactly the slot that was entered.
pub proof fn lemma_classify_holds_tcs(tcs: Tcs, exit: ExitRegisters)
    ensures
        outcome_holds_tcs(classify_exit(tcs, exit), tcs),
{
}

/// Law: across any sequence of transitions on a single thread, the slot
/// obtained at the end of the sequence — inside the final usercall or inside
/// the completion — is the one the sequence started with: it is never
/// dropped, duplicated, or exchanged.
pub proof fn lemma_tcs_conservation(tcs: Tcs, exits: Seq<ExitRegisters>)
    requires
        exits.len() > 0,
    ensures
        outcome_holds_tcs(run_spec(tcs, exits), tcs),
    decreases exits.len(),
{
    let first = classify_exit(tcs, exits[0]);
    if exits.len() > 1 {
        match first {
            CoResult::Yield(u) => {
                lemma_tcs_conservation(u.spec_tcs(), exits.drop_first());
            },
            CoResult::Return(_) => {},
        }
    }
}

} // verus!
