//! The smoke test: write a payload, read it back, compare.
//!
//! The test works on a fixed file under the volume root. Creating the
//! file can succeed, be refused because the file already exists, or fail
//! for any other reason; [`evaluate_smoke`] turns that observation plus
//! the bytes read back into the [`SmokeTestResult`]. A pre-existing file
//! is deliberately not a failure: the test then only reads, and reports
//! the content it found, without comparing it to the payload.

use vstd::prelude::*;

use crate::errors::SmokeTestError;

verus! {

/// What happened when the smoke-test file was created.
#[derive(Clone, Copy, Debug, PartialEq, Eq, Structural)]
pub enum CreateOutcome {
    /// The file did not exist and was created.
    Created,
    /// Creation was refused because the file already exists.
    AlreadyExists,
    /// Creation failed for any other reason.
    Denied,
}

/// The outcome of one smoke test.
#[derive(Debug, PartialEq, Eq)]
pub enum SmokeTestResult {
    /// The file was freshly written and read back byte-for-byte equal to
    /// the payload.
    Match,
    /// The file was freshly written but read back different; carries the
    /// bytes actually read.
    Mismatch(Vec<u8>),
    /// The file already existed; carries the bytes it holds. No write was
    /// attempted and nothing was compared to the payload.
    ReadOnly(Vec<u8>),
    /// The test failed before a verdict could be reached.
    Failed(SmokeTestError),
}

/// The mathematical value of a [`SmokeTestResult`].
pub ghost enum SmokeView {
    Match,
    Mismatch(Seq<u8>),
    ReadOnly(Seq<u8>),
    Failed(SmokeTestError),
}

impl View for SmokeTestResult {
    type V = SmokeView;

    open spec fn view(&self) -> SmokeView {
        match self {
            SmokeTestResult::Match => SmokeView::Match,
            SmokeTestResult::Mismatch(b) => SmokeView::Mismatch(b@),
            SmokeTestResult::ReadOnly(b) => SmokeView::ReadOnly(b@),
            SmokeTestResult::Failed(e) => SmokeView::Failed(*e),
        }
    }
}

/// The bytes an optional buffer holds.
pub open spec fn opt_bytes_view(o: Option<Vec<u8>>) -> Option<Seq<u8>> {
    match o {
        Some(v) => Some(v@),
        None => None,
    }
}

/// The verdict the smoke test owes for a given creation outcome and
/// read-back: a denied creation or a failed read is an `IoFailure`; a
/// fresh file matches or mismatches the payload; a pre-existing file is
/// reported read-only with whatever it holds.
pub open spec fn evaluate_smoke_spec(
    create: CreateOutcome,
    read_back: Option<Seq<u8>>,
    payload: Seq<u8>,
) -> SmokeView {
    if create is Denied {
        SmokeView::Failed(SmokeTestError::IoFailure)
    } else {
        match read_back {
            None => SmokeView::Failed(SmokeTestError::IoFailure),
            Some(bytes) => if create is Created {
                if bytes == payload {
                    SmokeView::Match
                } else {
                    SmokeView::Mismatch(bytes)
                }
            } else {
                SmokeView::ReadOnly(bytes)
            },
        }
    }
}

/// Whether two byte buffers hold the same bytes.
pub fn bytes_equal(a: &Vec<u8>, b: &Vec<u8>) -> (r: bool)
    ensures
        r <==> a@ == b@,
{
    if a.len() != b.len() {
        return false;
    }
    let mut i: usize = 0;
    while i < a.len()
        invariant
            i <= a@.len(),
            a@.len() == b@.len(),
            forall|j: int| 0 <= j < i ==> a@[j] == b@[j],
        decreases a@.len() - i,
    {
        if a[i] != b[i] {
            return false;
        }
        i = i + 1;
    }
    proof {
        assert(a@ =~= b@);
    }
    true
}

/// A fresh buffer holding the same bytes.
pub fn copy_bytes(src: &Vec<u8>) -> (r: Vec<u8>)
    ensures
        r@ == src@,
{
    let mut out: Vec<u8> = Vec::new();
    let mut i: usize = 0;
    while i < src.len()
        invariant
            i <= src@.len(),
            out@.len() == i,
            forall|j: int| 0 <= j < i ==> out@[j] == src@[j],
        decreases src@.len() - i,
    {
        out.push(src[i]);
        i = i + 1;
    }
    proof {
        assert(out@ =~= src@);
    }
    out
}

/// Turn the observations of one smoke test — how creating the file went,
/// and the bytes read back, if the read succeeded — into its result.
pub fn evaluate_smoke(
    create: CreateOutcome,
    read_back: Option<Vec<u8>>,
    payload: &Vec<u8>,
) -> (r: SmokeTestResult)
    ensures
        r@ == evaluate_smoke_spec(create, opt_bytes_view(read_back), payload@),
{
    match create {
        CreateOutcome::Denied => SmokeTestResult::Failed(SmokeTestError::IoFailure),
        CreateOutcome::Created => match read_back {
            None => SmokeTestResult::Failed(SmokeTestError::IoFailure),
            Some(bytes) => if bytes_equal(&bytes, payload) {
                SmokeTestResult::Match
            } else {
                SmokeTestResult::Mismatch(bytes)
            },
        },
        CreateOutcome::AlreadyExists => match read_back {
            None => SmokeTestResult::Failed(SmokeTestError::IoFailure),
            Some(bytes) => SmokeTestResult::ReadOnly(bytes),
        },
    }
}

/// What one smoke test does to a healthy volume whose file holds `file`:
/// a faulted device fails and leaves the file alone; a missing file is
/// written with the payload and read back equal; an existing file is
/// only read. The pair is the result and the file content afterwards.
pub open spec fn smoke_spec(
    io_fault: bool,
    file: Option<Seq<u8>>,
    payload: Seq<u8>,
) -> (SmokeView, Option<Seq<u8>>) {
    if io_fault {
        (SmokeView::Failed(SmokeTestError::IoFailure), file)
    } else {
        match file {
            None => (SmokeView::Match, Some(payload)),
            Some(content) => (SmokeView::ReadOnly(content), Some(content)),
        }
    }
}

/// Run the smoke test against a modeled volume: `file` is the content of
/// the smoke-test file before the test, `io_fault` whether the device
/// fails I/O. Returns the result and the file content after the test.
pub fn run_smoke(io_fault: bool, file: Option<Vec<u8>>, payload: &Vec<u8>) -> (r: (
    SmokeTestResult,
    Option<Vec<u8>>,
))
    ensures
        ({
            let (sv, fv) = smoke_spec(io_fault, opt_bytes_view(file), payload@);
            r.0@ == sv && opt_bytes_view(r.1) == fv
        }),
{
    if io_fault {
        return (SmokeTestResult::Failed(SmokeTestError::IoFailure), file);
    }
    match file {
        None => {
            let written = copy_bytes(payload);
            let read_back = copy_bytes(&written);
            let result = evaluate_smoke(CreateOutcome::Created, Some(read_back), payload);
            (result, Some(written))
        },
        Some(existing) => {
            let read_back = copy_bytes(&existing);
            let result = evaluate_smoke(CreateOutcome::AlreadyExists, Some(read_back), payload);
            (result, Some(existing))
        },
    }
}

} // verus!
