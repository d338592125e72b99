//! Enclave-instruction primitives: the ENCLU leaf codes, the alignment
//! demands the processor places on instruction operands, and the
//! classification of the key-derivation result.

use vstd::prelude::*;

verus! {

/// ENCLU leaf: produce an attestation report.
pub const ENCLU_EREPORT: u32 = 0;

/// ENCLU leaf: derive a secret key.
pub const ENCLU_EGETKEY: u32 = 1;

/// ENCLU leaf: enter an enclave thread.
pub const ENCLU_EENTER: u32 = 2;

/// ENCLU leaf: resume an asynchronously interrupted enclave thread.
pub const ENCLU_ERESUME: u32 = 3;

/// ENCLU leaf reported in EAX on a synchronous enclave exit; the only
/// exit reason the runtime accepts as normal.
pub const ENCLU_EEXIT: u32 = 4;

/// A value destined for a hardware operand slot that the processor requires
/// at 16-byte alignment. The driver that issues the instruction must place
/// the bytes in storage with that alignment.
pub struct Align16<T>(pub T);

/// A value destined for a hardware operand slot that the processor requires
/// at 128-byte alignment.
pub struct Align128<T>(pub T);

/// A value destined for a hardware operand slot that the processor requires
/// at 512-byte alignment.
pub struct Align512<T>(pub T);

/// Register operands for the EGETKEY leaf: the address of the 512-byte
/// key-request structure (RBX operand) and the address of the 16-byte output
/// slot (RCX operand). A value of this type exists only with both addresses
/// at the alignment the processor demands — a misaligned operand would be an
/// immediate hardware fault, so it is rejected at construction, never merely
/// documented.
pub struct EgetkeyOperands {
    request: u64,
    output: u64,
}

impl EgetkeyOperands {
    /// Address of the key-request structure.
    pub closed spec fn spec_request(&self) -> u64 {
        self.request
    }

    /// Address of the output slot for the derived key.
    pub closed spec fn spec_output(&self) -> u64 {
        self.output
    }

    /// The alignment the processor demands of the two operands: the request
    /// structure at 512 bytes, the output slot at 16 bytes.
    pub open spec fn wf(&self) -> bool {
        self.spec_request() % 512 == 0 && self.spec_output() % 16 == 0
    }

    /// Accept the two operand addresses, or refuse them if either is
    /// misaligned.
    pub fn new(request: u64, output: u64) -> (r: Option<EgetkeyOperands>)
        ensures
            r is Some <==> (request % 512 == 0 && output % 16 == 0),
            r matches Some(o) ==> o.wf() && o.spec_request() == request
                && o.spec_output() == output,
    {
        if request % 512 == 0 && output % 16 == 0 {
            Some(EgetkeyOperands { request, output })
        } else {
            None
        }
    }

    /// The RBX operand: address of the key-request structure.
    pub fn request_address(&self) -> (r: u64)
        ensures
            r == self.spec_request(),
    {
        self.request
    }

    /// The RCX operand: address of the output slot.
    pub fn output_address(&self) -> (r: u64)
        ensures
            r == self.spec_output(),
    {
        self.output
    }
}

/// Register operands for the EREPORT leaf: the address of the 512-byte
/// target-info structure (RBX operand), of the 64-byte report-data block
/// (RCX operand, held in 128-byte-aligned storage), and of the 432-byte
/// output report (RDX operand, held in 512-byte-aligned storage). As with
/// [`EgetkeyOperands`], a misaligned address is refused at construction.
pub struct EreportOperands {
    targetinfo: u64,
    reportdata: u64,
    report: u64,
}

impl EreportOperands {
    /// Address of the target-info structure.
    pub closed spec fn spec_targetinfo(&self) -> u64 {
        self.targetinfo
    }

    /// Address of the report-data block.
    pub closed spec fn spec_reportdata(&self) -> u64 {
        self.reportdata
    }

    /// Address of the output report.
    pub closed spec fn spec_report(&self) -> u64 {
        self.report
    }

    /// The alignment the processor demands of the three operands.
    pub open spec fn wf(&self) -> bool {
        self.spec_targetinfo() % 512 == 0 && self.spec_reportdata() % 128 == 0
            && self.spec_report() % 512 == 0
    }

    /// Accept the three operand addresses, or refuse them if any is
    /// misaligned.
    pub fn new(targetinfo: u64, reportdata: u64, report: u64) -> (r: Option<EreportOperands>)
        ensures
            r is Some <==> (targetinfo % 512 == 0 && reportdata % 128 == 0 && report % 512 == 0),
            r matches Some(o) ==> o.wf() && o.spec_targetinfo() == targetinfo
                && o.spec_reportdata() == reportdata && o.spec_report() == report,
    {
        if targetinfo % 512 == 0 && reportdata % 128 == 0 && report % 512 == 0 {
            Some(EreportOperands { targetinfo, reportdata, report })
        } else {
            None
        }
    }

    /// The RBX operand: address of the target-info structure.
    pub fn targetinfo_address(&self) -> (r: u64)
        ensures
            r == self.spec_targetinfo(),
    {
        self.targetinfo
    }

    /// The RCX operand: address of the report-data block.
    pub fn reportdata_address(&self) -> (r: u64)
        ensures
            r == self.spec_reportdata(),
    {
        self.reportdata
    }

    /// The RDX operand: address of the output report.
    pub fn report_address(&self) -> (r: u64)
        ensures
            r == self.spec_report(),
    {
        self.report
    }
}

/// Classify the raw EGETKEY result: the hardware reports an error code in
/// EAX, and writes the 16-byte secret only when that code is zero. The code
/// is propagated untouched; this layer never reinterprets it.
pub fn egetkey_outcome(error: u32, key: Align16<[u8; 16]>) -> (r: Result<Align16<[u8; 16]>, u32>)
    ensures
        r is Ok <==> error == 0,
        error == 0 ==> (r matches Ok(k) && k == key),
        error != 0 ==> (r matches Err(e) && e == error),
{
    if error == 0 {
        Ok(key)
    } else {
        Err(error)
    }
}

} // verus!
