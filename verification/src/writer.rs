//! Sizing the writer's buffers, and the progress of a verification.
use vstd::prelude::*;
use vstd::string::*;

verus! {

/// Largest buffer the writer allocates: 1 MiB.
pub const MAX_BUF_SIZE: usize = 1048576;

/// How many bytes are written between progress reports: 8 MiB.
pub const CHECKPOINT_BYTES: usize = 8388608;

/// Block size assumed when the target's is unknown.
pub const DEFAULT_BLOCK_SIZE: u64 = 512;

/// How the writer moves data to the target.
#[derive(Debug, Clone, Copy, PartialEq, Eq)]
pub struct WritePlan {
    /// The target's block size.
    pub block_size: u64,
    /// Size of the read and write buffers.
    pub buf_size: usize,
    /// Buffers written between progress reports.
    pub checkpoint_period: usize,
}

/// The block size in use: the target's, else [`DEFAULT_BLOCK_SIZE`].
pub open spec fn effective_block_size(block_size: Option<u64>) -> u64 {
    match block_size {
        Some(bs) => bs,
        None => DEFAULT_BLOCK_SIZE,
    }
}

/// 2048 blocks, as a `usize`, at most [`MAX_BUF_SIZE`].
pub open spec fn buffer_size_for(bs: u64) -> usize {
    let n = (bs * 2048) as usize;
    if n < MAX_BUF_SIZE {
        n
    } else {
        MAX_BUF_SIZE
    }
}

/// Whether a plan can be made for this block size: 2048 blocks fit a `u64`
/// and give a non-empty buffer.
pub open spec fn plannable(block_size: Option<u64>) -> bool {
    let bs = effective_block_size(block_size);
    bs * 2048 <= u64::MAX && buffer_size_for(bs) != 0
}

/// The plan for a target with the given block size (if known): buffers of
/// 2048 blocks, capped at 1 MiB, and a progress report every 8 MiB worth of
/// buffers.
pub fn write_plan(block_size: Option<u64>) -> (p: WritePlan)
    requires
        plannable(block_size),
    ensures
        p.block_size == effective_block_size(block_size),
        p.buf_size == buffer_size_for(p.block_size),
        p.checkpoint_period == CHECKPOINT_BYTES / p.buf_size,
{
    let bs = match block_size {
        Some(bs) => bs,
        None => DEFAULT_BLOCK_SIZE,
    };
    let blocks = (bs * 2048) as usize;
    let buf_size = if blocks < MAX_BUF_SIZE {
        blocks
    } else {
        MAX_BUF_SIZE
    };
    WritePlan { block_size: bs, buf_size, checkpoint_period: CHECKPOINT_BYTES / buf_size }
}

/// Position of the verification progress bar, in thousandths: the share of
/// the input that has been compared.
pub fn verify_progress(total_write_bytes: u64, input_file_bytes: u64) -> (p: u64)
    requires
        input_file_bytes != 0,
        total_write_bytes * 1000 <= u64::MAX,
    ensures
        p == total_write_bytes * 1000 / input_file_bytes as int,
{
    total_write_bytes * 1000 / input_file_bytes
}

/// What the writer writes to.
#[derive(Debug, Clone, Copy, PartialEq, Eq)]
pub enum TargetType {
    /// A regular file, created or truncated.
    File,
    /// A whole disk.
    Disk,
    /// A partition of a disk.
    Partition,
}

/// One step of a write and its verification.
#[derive(Debug, Clone, Copy, PartialEq, Eq)]
pub enum WriterStep {
    /// Unmount the disk's volumes (macOS, whole disks).
    Unmount,
    /// Open the input and measure it.
    OpenInput,
    /// Open the target: a file is created or truncated, a block device is
    /// opened as one.
    OpenTarget,
    /// Report that writing has begun, with the input's size.
    ReportStart,
    /// Copy the input to the target.
    Write,
    /// Report that writing is done, and whether verification follows.
    ReportWritten,
    /// Go back to the start of the input and the target.
    Rewind,
    /// Cut a file target down to the number of bytes written.
    TruncateToInput,
    /// Compare the target with the input.
    Verify,
}

/// The steps of a write: unmounting first for a whole disk on macOS; then
/// opening, writing and reporting; then, if asked to verify, rewinding,
/// cutting a file target to the input's length, and verifying.
pub open spec fn writer_steps_spec(target: TargetType, verify: bool, on_macos: bool) -> Seq<WriterStep> {
    (if on_macos && target == TargetType::Disk {
        seq![WriterStep::Unmount]
    } else {
        Seq::empty()
    }) + seq![
        WriterStep::OpenInput,
        WriterStep::OpenTarget,
        WriterStep::ReportStart,
        WriterStep::Write,
        WriterStep::ReportWritten,
    ] + (if verify {
        seq![WriterStep::Rewind] + (if target == TargetType::File {
            seq![WriterStep::TruncateToInput]
        } else {
            Seq::empty()
        }) + seq![WriterStep::Verify]
    } else {
        Seq::empty()
    })
}

/// The shape of every plan of steps. Unmounting happens exactly for a whole
/// disk on macOS, and then comes first; opening, writing and reporting are
/// always there; rewinding and verifying happen exactly when asked for, and
/// a target is cut to the input's length exactly when it is a file that is
/// verified. Asking to verify only adds steps at the end: the plan without
/// verification is a strict prefix of the plan with it, so the verify flag
/// plays no part in whether or where the disk is unmounted.
pub proof fn lemma_writer_steps_shape(target: TargetType, verify: bool, on_macos: bool)
    ensures
        ({
            let s = writer_steps_spec(target, verify, on_macos);
            &&& s.contains(WriterStep::Unmount) <==> (on_macos && target == TargetType::Disk)
            &&& (on_macos && target == TargetType::Disk) ==> s[0] == WriterStep::Unmount
            &&& !(on_macos && target == TargetType::Disk) ==> s[0] == WriterStep::OpenInput
            &&& s.contains(WriterStep::OpenInput)
            &&& s.contains(WriterStep::Write)
            &&& s.contains(WriterStep::Rewind) <==> verify
            &&& s.contains(WriterStep::Verify) <==> verify
            &&& s.contains(WriterStep::TruncateToInput) <==> (verify && target == TargetType::File)
            &&& s.last() == (if verify {
                WriterStep::Verify
            } else {
                WriterStep::ReportWritten
            })
        }),
        ({
            let without = writer_steps_spec(target, false, on_macos);
            let with = writer_steps_spec(target, true, on_macos);
            &&& without.len() < with.len()
            &&& with.take(without.len() as int) == without
        }),
{
    let u: Seq<WriterStep> = if on_macos && target == TargetType::Disk {
        seq![WriterStep::Unmount]
    } else {
        Seq::empty()
    };
    let m = seq![
        WriterStep::OpenInput,
        WriterStep::OpenTarget,
        WriterStep::ReportStart,
        WriterStep::Write,
        WriterStep::ReportWritten,
    ];
    let t: Seq<WriterStep> = if target == TargetType::File {
        seq![WriterStep::TruncateToInput]
    } else {
        Seq::empty()
    };
    let v_on = seq![WriterStep::Rewind] + t + seq![WriterStep::Verify];
    let v: Seq<WriterStep> = if verify {
        v_on
    } else {
        Seq::empty()
    };
    let s = writer_steps_spec(target, verify, on_macos);
    assert(s == u + m + v);
    let k = u.len() as int;
    assert(s[k] == WriterStep::OpenInput);
    assert(s[k + 3] == WriterStep::Write);
    if on_macos && target == TargetType::Disk {
        assert(s[0] == WriterStep::Unmount);
    } else {
        assert forall|i: int| 0 <= i < s.len() implies s[i] != WriterStep::Unmount by {
            if i >= 5 {
                assert(s[i] == v[i - 5]);
                assert(v_on[i - 5] == (if i - 5 == 0 {
                    WriterStep::Rewind
                } else if i - 5 < 1 + t.len() {
                    t[i - 6]
                } else {
                    WriterStep::Verify
                }));
            }
        }
    }
    let uv = u + m;
    if verify {
        assert(s[k + 5] == WriterStep::Rewind);
        assert(s.last() == WriterStep::Verify);
        if target == TargetType::File {
            assert(s[k + 6] == WriterStep::TruncateToInput);
        } else {
            assert forall|i: int| 0 <= i < s.len() implies s[i] != WriterStep::TruncateToInput by {
                if i < k {
                    assert(s[i] == u[i]);
                } else if i < k + 5 {
                    assert(s[i] == m[i - k]);
                } else {
                    assert(s[i] == v_on[i - k - 5]);
                }
            }
        }
    } else {
        assert(s == uv);
        assert(s.last() == WriterStep::ReportWritten);
        assert forall|i: int| 0 <= i < s.len() implies s[i] != WriterStep::Rewind && s[i]
            != WriterStep::Verify && s[i] != WriterStep::TruncateToInput by {
            if i < k {
                assert(s[i] == u[i]);
            } else {
                assert(s[i] == m[i - k]);
            }
        }
    }
    let without = writer_steps_spec(target, false, on_macos);
    let with = writer_steps_spec(target, true, on_macos);
    assert(without == uv + Seq::<WriterStep>::empty());
    assert(with == uv + v_on);
    assert(with.take(uv.len() as int) =~= uv);
    assert(without =~= uv);
}

/// The steps the writer takes, in order; it stops at the first that fails.
pub fn writer_steps(target: TargetType, verify: bool, on_macos: bool) -> (steps: Vec<WriterStep>)
    ensures
        steps@ == writer_steps_spec(target, verify, on_macos),
        steps@.contains(WriterStep::Unmount) <==> (on_macos && target == TargetType::Disk),
        (on_macos && target == TargetType::Disk) ==> steps@[0] == WriterStep::Unmount,
        !(on_macos && target == TargetType::Disk) ==> steps@[0] == WriterStep::OpenInput,
        steps@.contains(WriterStep::Verify) <==> verify,
        steps@.contains(WriterStep::TruncateToInput) <==> (verify && target == TargetType::File),
{
    proof {
        lemma_writer_steps_shape(target, verify, on_macos);
    }
    let is_disk = match target {
        TargetType::Disk => true,
        _ => false,
    };
    let is_file = match target {
        TargetType::File => true,
        _ => false,
    };
    let mut steps: Vec<WriterStep> = Vec::new();
    if on_macos && is_disk {
        steps.push(WriterStep::Unmount);
    }
    steps.push(WriterStep::OpenInput);
    steps.push(WriterStep::OpenTarget);
    steps.push(WriterStep::ReportStart);
    steps.push(WriterStep::Write);
    steps.push(WriterStep::ReportWritten);
    if verify {
        steps.push(WriterStep::Rewind);
        if is_file {
            steps.push(WriterStep::TruncateToInput);
        }
        steps.push(WriterStep::Verify);
    }
    assert(steps@ =~= writer_steps_spec(target, verify, on_macos));
    steps
}

/// The message of a failed unmount: what the unmount command printed.
pub fn unmount_failure_message(stderr: &str, stdout: &str) -> (m: String)
    ensures
        m@ == "stderr: "@ + stderr@ + "\nstdout: "@ + stdout@,
{
    let mut m = String::from_str("stderr: ");
    m.append(stderr);
    m.append("\nstdout: ");
    m.append(stdout);
    m
}

} // verus!
