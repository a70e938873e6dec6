//! The failure record a child writes to the error channel before it exits,
//! the record's byte encoding, and the parent's reading of the channel.

use vstd::prelude::*;

verus! {

/// The stage of the launch protocol at which a failure arose.
#[derive(Clone, Copy, Debug, PartialEq, Eq, Structural)]
pub enum Stage {
    /// Parent-side setup before the barrier is released.
    Unfreeze,
    /// Child-side work around entering the chroot jail.
    Chroot,
    /// Child-side work around replacing the process image.
    Exec,
}

/// Whether a failure came from a user callback or from the operation itself.
#[derive(Clone, Copy, Debug, PartialEq, Eq, Structural)]
pub enum Origin {
    Callback,
    Operation,
}

/// The fixed-size failure record carried over the error channel: the stage
/// that failed, where in that stage the failure arose, and the OS error code.
#[derive(Clone, Copy, Debug, PartialEq, Eq, Structural)]
pub struct ErrorReport {
    pub stage: Stage,
    pub origin: Origin,
    pub code: i32,
}

/// The error a spawn call surfaces to its caller.
#[derive(Clone, Copy, Debug, PartialEq, Eq, Structural)]
pub enum SpawnError {
    /// Writing the uid/gid mappings failed in the parent.
    Setup { code: i32 },
    /// The `before_unfreeze` callback rejected the setup; the child was torn
    /// down before ever being released.
    UnfreezeCallback { code: i32 },
    /// The `before_chroot` callback failed in the child.
    ChrootCallback { code: i32 },
    /// The chroot (or the directory change into it) failed in the child.
    ChrootSyscall { code: i32 },
    /// The `before_exec` callback failed in the child.
    ExecCallback { code: i32 },
    /// Replacing the process image failed in the child.
    ExecSyscall { code: i32 },
    /// The channel closed without a record and without an observed exec:
    /// the child died early, for example killed by an external signal.
    UnknownEarlyTermination,
}

pub open spec fn spec_stage_tag(s: Stage) -> u8 {
    match s {
        Stage::Unfreeze => 0,
        Stage::Chroot => 1,
        Stage::Exec => 2,
    }
}

pub open spec fn spec_origin_tag(o: Origin) -> u8 {
    match o {
        Origin::Callback => 0,
        Origin::Operation => 1,
    }
}

/// The tag byte of a stage on the wire.
pub fn stage_tag(s: Stage) -> (t: u8)
    ensures
        t == spec_stage_tag(s),
{
    match s {
        Stage::Unfreeze => 0,
        Stage::Chroot => 1,
        Stage::Exec => 2,
    }
}

/// The origin byte of a record on the wire.
pub fn origin_tag(o: Origin) -> (t: u8)
    ensures
        t == spec_origin_tag(o),
{
    match o {
        Origin::Callback => 0,
        Origin::Operation => 1,
    }
}

/// The OS error code as its raw 32-bit value (two's complement).
pub open spec fn code_bits(c: i32) -> u32 {
    if c >= 0 {
        c as u32
    } else {
        (c + 0x1_0000_0000) as u32
    }
}

/// The 32-bit wire value read back as an OS error code.
pub open spec fn bits_code(u: u32) -> i32 {
    if u < 0x8000_0000 {
        u as i32
    } else {
        (u - 0x1_0000_0000) as i32
    }
}

pub proof fn lemma_code_bits_roundtrip(c: i32)
    ensures
        bits_code(code_bits(c)) == c,
{
}

/// The OS error code as its raw 32-bit wire value.
pub fn code_to_bits(c: i32) -> (u: u32)
    ensures
        u == code_bits(c),
{
    if c >= 0 {
        c as u32
    } else {
        ((c as i64) + 0x1_0000_0000i64) as u32
    }
}

/// The 32-bit wire value read back as an OS error code.
pub fn bits_to_code(u: u32) -> (c: i32)
    ensures
        c == bits_code(u),
{
    if u < 0x8000_0000 {
        u as i32
    } else {
        ((u as i64) - 0x1_0000_0000i64) as i32
    }
}

/// The byte encoding of a report: the stage tag, the origin byte, then the
/// error code in little-endian order — six bytes, written to the channel as
/// one small write so that no partial record can be observed.
pub open spec fn spec_encode_report(r: ErrorReport) -> Seq<u8> {
    seq![spec_stage_tag(r.stage), spec_origin_tag(r.origin)]
        + vstd::bytes::spec_u32_to_le_bytes(code_bits(r.code))
}

pub open spec fn spec_stage_of_tag(t: u8) -> Stage {
    if t == 0 {
        Stage::Unfreeze
    } else if t == 1 {
        Stage::Chroot
    } else {
        Stage::Exec
    }
}

pub open spec fn spec_origin_of_tag(t: u8) -> Origin {
    if t == 0 {
        Origin::Callback
    } else {
        Origin::Operation
    }
}

/// What a byte sequence read from the channel decodes to: a record exactly
/// when it is six bytes long and both tag bytes are in range.
pub open spec fn spec_decode_report(b: Seq<u8>) -> Option<ErrorReport> {
    if b.len() == 6 && b[0] < 3 && b[1] < 2 {
        Some(
            ErrorReport {
                stage: spec_stage_of_tag(b[0]),
                origin: spec_origin_of_tag(b[1]),
                code: bits_code(vstd::bytes::spec_u32_from_le_bytes(b.subrange(2, 6))),
            },
        )
    } else {
        None
    }
}

/// Encode a report for the error channel.
pub fn encode_report(r: &ErrorReport) -> (out: Vec<u8>)
    ensures
        out@ == spec_encode_report(*r),
        out@.len() == 6,
{
    let mut out: Vec<u8> = Vec::new();
    out.push(stage_tag(r.stage));
    out.push(origin_tag(r.origin));
    let mut tail = vstd::bytes::u32_to_le_bytes(code_to_bits(r.code));
    out.append(&mut tail);
    proof {
        assert(out@ =~= spec_encode_report(*r));
    }
    out
}

/// Decode a record read from the error channel.
pub fn decode_report(b: &[u8]) -> (r: Option<ErrorReport>)
    ensures
        r == spec_decode_report(b@),
{
    if b.len() != 6 {
        return None;
    }
    let t0 = *vstd::slice::slice_index_get(b, 0);
    let t1 = *vstd::slice::slice_index_get(b, 1);
    if t0 >= 3 || t1 >= 2 {
        return None;
    }
    let stage = if t0 == 0 {
        Stage::Unfreeze
    } else if t0 == 1 {
        Stage::Chroot
    } else {
        Stage::Exec
    };
    let origin = if t1 == 0 {
        Origin::Callback
    } else {
        Origin::Operation
    };
    let code = bits_to_code(vstd::bytes::u32_from_le_bytes(vstd::slice::slice_subrange(b, 2, 6)));
    Some(ErrorReport { stage, origin, code })
}

/// Decoding inverts encoding: the child's record arrives at the parent
/// exactly as it was written.
pub proof fn lemma_report_roundtrip(r: ErrorReport)
    ensures
        spec_decode_report(spec_encode_report(r)) == Some(r),
{
    vstd::bytes::lemma_auto_spec_u32_to_from_le_bytes();
    let b = spec_encode_report(r);
    assert(b.subrange(2, 6) =~= vstd::bytes::spec_u32_to_le_bytes(code_bits(r.code)));
    lemma_code_bits_roundtrip(r.code);
}

/// The spawn error a decoded record stands for.
pub open spec fn spec_error_of_report(r: ErrorReport) -> SpawnError {
    match (r.stage, r.origin) {
        (Stage::Unfreeze, Origin::Callback) => SpawnError::UnfreezeCallback { code: r.code },
        (Stage::Unfreeze, Origin::Operation) => SpawnError::Setup { code: r.code },
        (Stage::Chroot, Origin::Callback) => SpawnError::ChrootCallback { code: r.code },
        (Stage::Chroot, Origin::Operation) => SpawnError::ChrootSyscall { code: r.code },
        (Stage::Exec, Origin::Callback) => SpawnError::ExecCallback { code: r.code },
        (Stage::Exec, Origin::Operation) => SpawnError::ExecSyscall { code: r.code },
    }
}

/// The spawn error a decoded record stands for.
pub fn error_of_report(r: &ErrorReport) -> (e: SpawnError)
    ensures
        e == spec_error_of_report(*r),
{
    match (r.stage, r.origin) {
        (Stage::Unfreeze, Origin::Callback) => SpawnError::UnfreezeCallback { code: r.code },
        (Stage::Unfreeze, Origin::Operation) => SpawnError::Setup { code: r.code },
        (Stage::Chroot, Origin::Callback) => SpawnError::ChrootCallback { code: r.code },
        (Stage::Chroot, Origin::Operation) => SpawnError::ChrootSyscall { code: r.code },
        (Stage::Exec, Origin::Callback) => SpawnError::ExecCallback { code: r.code },
        (Stage::Exec, Origin::Operation) => SpawnError::ExecSyscall { code: r.code },
    }
}

/// What the parent observed on the error channel once the barrier was
/// released: either a byte record, or the child's endpoint closing with or
/// without the exec having been observed.
pub enum ChannelRead {
    Data(Vec<u8>),
    Closed { exec_observed: bool },
}

/// The outcome of a spawn, as decided by a channel read: a record is the
/// child's own failure notice; a silent close is success exactly when the
/// exec was observed, and an unknown early termination otherwise.
pub open spec fn spec_interpret_channel(r: ChannelRead) -> Result<(), SpawnError> {
    match r {
        ChannelRead::Data(b) => match spec_decode_report(b@) {
            Some(rep) => Err(spec_error_of_report(rep)),
            None => Err(SpawnError::UnknownEarlyTermination),
        },
        ChannelRead::Closed { exec_observed } => if exec_observed {
            Ok(())
        } else {
            Err(SpawnError::UnknownEarlyTermination)
        },
    }
}

/// Decide the outcome of a spawn from what the channel read returned.
pub fn interpret_channel(r: &ChannelRead) -> (out: Result<(), SpawnError>)
    ensures
        out == spec_interpret_channel(*r),
{
    match r {
        ChannelRead::Data(b) => match decode_report(b.as_slice()) {
            Some(rep) => Err(error_of_report(&rep)),
            None => Err(SpawnError::UnknownEarlyTermination),
        },
        ChannelRead::Closed { exec_observed } => if *exec_observed {
            Ok(())
        } else {
            Err(SpawnError::UnknownEarlyTermination)
        },
    }
}

} // verus!
