//! Untrusted-side runtime core for driving a hardware-isolated enclave
//! through its entry/exit protocol.
//!
//! The crate models the protocol as plain data: the register words handed to
//! the processor on entry, the register words observed on exit, and the typed
//! classification of an exit into either a completed thread or a pending
//! host-service request ("usercall"). The privileged instruction itself is
//! issued by the surrounding (unverified) driver; everything the driver must
//! decide — how an exit is classified, which registers a resume loads, which
//! operand addresses the key-derivation and report instructions accept — is
//! verified here.

pub mod arch;
pub mod tcs;
