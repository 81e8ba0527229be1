//! Taking a payload in from a reader: the payload is read chunk by chunk,
//! each chunk is written to a staged file and fed to the hasher, and a
//! payload that is longer than expected is refused.

use vstd::prelude::*;
use sha2::Digest;
use crate::datalith_errors::DatalithWriteError;
use crate::datalith_errors::DatalithWriteErrorView;
use crate::datalith_errors::IoErrorKind;
use crate::functions::buffer_size_for;
use crate::functions::calculate_buffer_size;
use crate::functions::sha256;
use crate::functions::FileHash;
use crate::functions::BUFFER_SIZE;

verus! {

/// A SHA-256 computation under way.
///
/// Trusted: holds a `sha2::Sha256`, whose type Verus cannot take in.
#[verifier::external_body]
pub struct StreamHasher {
    inner: sha2::Sha256,
}

/// The bytes that a hasher has taken in so far.
pub uninterp spec fn absorbed(hasher: StreamHasher) -> Seq<u8>;

impl StreamHasher {
    /// A hasher that has taken in nothing.
    ///
    /// Trusted: wraps `sha2::Sha256::new`.
    #[verifier::external_body]
    pub(crate) fn new() -> (hasher: StreamHasher)
        ensures
            absorbed(hasher) == Seq::<u8>::empty(),
    {
        StreamHasher { inner: sha2::Sha256::new() }
    }

    /// Feeds bytes to the hasher.
    ///
    /// Trusted: wraps `sha2::Digest::update`, which processes the data as the
    /// continuation of all data given before.
    #[verifier::external_body]
    pub(crate) fn update(&mut self, data: &[u8])
        ensures
            absorbed(*final(self)) == absorbed(*old(self)) + data@,
    {
        self.inner.update(data);
    }

    /// The digest of all bytes taken in.
    ///
    /// Trusted: wraps `sha2::Digest::finalize`, which returns the SHA-256
    /// digest of the data given.
    #[verifier::external_body]
    pub(crate) fn finalize(self) -> (hash: FileHash)
        ensures
            hash@ == sha256(absorbed(self)),
    {
        self.inner.finalize().into()
    }
}

/// The number of times in a row that an interrupted read is tried again.
pub const MAX_READ_RETRIES: u8 = 5;

/// What the driver of an intake is asked for next.
#[derive(Debug)]
pub enum IngestStep {
    /// Create the staged file.
    Create,
    /// Read the next chunk of the payload into a buffer of this size.
    Read { buffer_size: usize },
    /// Write the chunk that was read last to the staged file.
    Write,
    /// Remove the staged file.
    Remove,
    /// Nothing more: the intake has ended with this result.
    Finish(Result<IngestReport, DatalithWriteError>),
}

/// What was taken in: the number of bytes and, where it was asked for,
/// their digest.
#[derive(Clone, Copy, Debug)]
pub struct IngestReport {
    pub file_size: u64,
    pub hash: Option<FileHash>,
}

/// What the driver of an intake tells of the outcome of the last request.
#[derive(Debug)]
pub enum IngestEvent<'a> {
    /// The staged file was created, a chunk was written, or the staged file
    /// was removed.
    Done,
    /// A chunk was read; it is not empty.
    Chunk(&'a [u8]),
    /// The payload has ended.
    End,
    /// The request failed.
    Failed(IoErrorKind),
}

/// Where an intake stands.
#[derive(Clone, Copy, Debug, PartialEq, Eq, Structural)]
pub enum IngestPhase {
    /// Asked to create the staged file.
    Creating,
    /// Asked for the next chunk.
    Reading,
    /// Asked to write the chunk read last.
    Writing,
    /// Asked to remove the staged file after a failure.
    RemovingAfter(IoErrorKind),
    /// Asked to remove the staged file: the payload is longer than expected.
    RemovingTooLarge,
    /// Asked for the next chunk of a payload that is longer than expected,
    /// only to count it.
    Draining,
    /// Ended.
    Finished,
}

/// The mathematical value of an intake.
pub struct IngestView {
    pub phase: IngestPhase,
    /// The length that the payload is expected not to exceed.
    pub expected: Option<u64>,
    /// Whether the digest is asked for.
    pub hashing: bool,
    /// Whether what is read is written to a staged file.
    pub staging: bool,
    /// The bytes read so far.
    pub read: Seq<u8>,
    /// The bytes written to the staged file so far.
    pub written: Seq<u8>,
    /// The interrupted reads in a row.
    pub retries: u8,
}

/// An intake.
pub struct Ingest {
    phase: IngestPhase,
    staging: bool,
    expected: Option<u64>,
    file_size: u64,
    retries: u8,
    hasher: Option<StreamHasher>,
    read: Ghost<Seq<u8>>,
    written: Ghost<Seq<u8>>,
}

/// The number of bytes, as far as a count of 64 bits holds it.
pub open spec fn counted(bytes: Seq<u8>) -> u64 {
    if bytes.len() > u64::MAX {
        u64::MAX
    } else {
        bytes.len() as u64
    }
}

/// The size of the buffer of an intake.
pub open spec fn ingest_buffer_size(expected: Option<u64>) -> int {
    match expected {
        Some(expected) => buffer_size_for(expected),
        None => BUFFER_SIZE as int,
    }
}

/// The mathematical value of an event: a chunk is its bytes.
pub enum IngestEventView {
    Done,
    Chunk(Seq<u8>),
    End,
    Failed(IoErrorKind),
}

impl<'a> View for IngestEvent<'a> {
    type V = IngestEventView;

    open spec fn view(&self) -> IngestEventView {
        match *self {
            IngestEvent::Done => IngestEventView::Done,
            IngestEvent::Chunk(data) => IngestEventView::Chunk(data@),
            IngestEvent::End => IngestEventView::End,
            IngestEvent::Failed(kind) => IngestEventView::Failed(kind),
        }
    }
}

/// The mathematical value of a step of an intake.
pub enum IngestStepView {
    Create,
    Read { buffer_size: usize },
    Write,
    Remove,
    Finish(Result<IngestReport, DatalithWriteErrorView>),
}

impl View for IngestStep {
    type V = IngestStepView;

    open spec fn view(&self) -> IngestStepView {
        match *self {
            IngestStep::Create => IngestStepView::Create,
            IngestStep::Read { buffer_size } => IngestStepView::Read { buffer_size },
            IngestStep::Write => IngestStepView::Write,
            IngestStep::Remove => IngestStepView::Remove,
            IngestStep::Finish(Ok(report)) => IngestStepView::Finish(Ok(report)),
            IngestStep::Finish(Err(e)) => IngestStepView::Finish(Err(e@)),
        }
    }
}

impl IngestView {
    /// The intake that has not begun. An intake that stages what it reads
    /// begins by creating the staged file; an intake that only measures and
    /// hashes begins by reading.
    pub open spec fn begin(expected: Option<u64>, hashing: bool, staging: bool) -> IngestView {
        IngestView {
            phase: if staging {
                IngestPhase::Creating
            } else {
                IngestPhase::Reading
            },
            expected,
            hashing,
            staging,
            read: Seq::empty(),
            written: Seq::empty(),
            retries: 0,
        }
    }

    /// The first request of an intake.
    pub open spec fn first_step(self) -> IngestStepView {
        if self.staging {
            IngestStepView::Create
        } else {
            self.read_step()
        }
    }

    /// After a read has failed for good: a staged file is removed first.
    pub open spec fn abandon(self, kind: IoErrorKind) -> (IngestView, IngestStepView) {
        if self.staging {
            (IngestView { phase: IngestPhase::RemovingAfter(kind), ..self }, IngestStepView::Remove)
        } else {
            (
                IngestView { phase: IngestPhase::Finished, ..self },
                IngestStepView::Finish(Err(DatalithWriteErrorView::IOError(kind))),
            )
        }
    }

    /// The request to read the next chunk.
    pub open spec fn read_step(self) -> IngestStepView {
        IngestStepView::Read { buffer_size: ingest_buffer_size(self.expected) as usize }
    }

    /// The report on what was taken in.
    pub open spec fn report(self, hash: Option<FileHash>) -> IngestReport {
        IngestReport { file_size: counted(self.read), hash }
    }

    /// Whether the digest in a report is that of the bytes read, where it
    /// was asked for.
    pub open spec fn hash_is_right(self, hash: Option<FileHash>) -> bool {
        match hash {
            Some(hash) => self.hashing && hash@ == sha256(self.read),
            None => !self.hashing,
        }
    }

    /// Whether the payload read so far is longer than expected.
    pub open spec fn too_large(self) -> bool {
        self.expected matches Some(expected) && counted(self.read) > expected
    }

    /// The intake and the request that follow an event, but for the digest
    /// in the report of an intake that ends well.
    pub open spec fn advance(self, event: IngestEventView) -> (IngestView, IngestStepView) {
        let failed = |kind: IoErrorKind| IngestStepView::Finish(
            Err(DatalithWriteErrorView::IOError(kind)),
        );
        let other = IoErrorKind::Other;
        match self.phase {
            IngestPhase::Creating => match event {
                IngestEventView::Done => (
                    IngestView { phase: IngestPhase::Reading, ..self },
                    self.read_step(),
                ),
                IngestEventView::Failed(kind) => (
                    IngestView { phase: IngestPhase::Finished, ..self },
                    failed(kind),
                ),
                _ => (IngestView { phase: IngestPhase::Finished, ..self }, failed(other)),
            },
            IngestPhase::Reading => match event {
                IngestEventView::Chunk(data) => {
                    let next = IngestView { read: self.read + data, retries: 0, ..self };
                    if self.staging {
                        (IngestView { phase: IngestPhase::Writing, ..next }, IngestStepView::Write)
                    } else if next.too_large() {
                        (IngestView { phase: IngestPhase::Draining, ..next }, self.read_step())
                    } else {
                        (next, self.read_step())
                    }
                },
                IngestEventView::End => (
                    IngestView { phase: IngestPhase::Finished, ..self },
                    IngestStepView::Finish(Ok(self.report(None))),
                ),
                IngestEventView::Failed(IoErrorKind::Interrupted) => if self.retries
                    < MAX_READ_RETRIES {
                    (IngestView { retries: (self.retries + 1) as u8, ..self }, self.read_step())
                } else {
                    (
                        IngestView { phase: IngestPhase::Finished, ..self },
                        failed(IoErrorKind::Interrupted),
                    )
                },
                IngestEventView::Failed(kind) => self.abandon(kind),
                IngestEventView::Done => self.abandon(other),
            },
            IngestPhase::Writing => match event {
                IngestEventView::Done => {
                    let next = IngestView { written: self.read, ..self };
                    if self.too_large() {
                        (
                            IngestView { phase: IngestPhase::RemovingTooLarge, ..next },
                            IngestStepView::Remove,
                        )
                    } else {
                        (IngestView { phase: IngestPhase::Reading, ..next }, self.read_step())
                    }
                },
                IngestEventView::Failed(kind) => (
                    IngestView { phase: IngestPhase::RemovingAfter(kind), ..self },
                    IngestStepView::Remove,
                ),
                _ => (
                    IngestView { phase: IngestPhase::RemovingAfter(other), ..self },
                    IngestStepView::Remove,
                ),
            },
            IngestPhase::RemovingAfter(error) => match event {
                IngestEventView::Failed(kind) => (
                    IngestView { phase: IngestPhase::Finished, ..self },
                    failed(kind),
                ),
                _ => (IngestView { phase: IngestPhase::Finished, ..self }, failed(error)),
            },
            IngestPhase::RemovingTooLarge => match event {
                IngestEventView::Done => (
                    IngestView { phase: IngestPhase::Draining, ..self },
                    self.read_step(),
                ),
                IngestEventView::Failed(kind) => (
                    IngestView { phase: IngestPhase::Finished, ..self },
                    failed(kind),
                ),
                _ => (IngestView { phase: IngestPhase::Finished, ..self }, failed(other)),
            },
            IngestPhase::Draining => match event {
                IngestEventView::Chunk(data) => (
                    IngestView { read: self.read + data, retries: 0, ..self },
                    self.read_step(),
                ),
                IngestEventView::End => (
                    IngestView { phase: IngestPhase::Finished, ..self },
                    IngestStepView::Finish(
                        Err(
                            DatalithWriteErrorView::FileLengthTooLarge {
                                expected_file_length: self.expected.unwrap_or(0),
                                actual_file_length: counted(self.read),
                            },
                        ),
                    ),
                ),
                IngestEventView::Failed(IoErrorKind::Interrupted) => if self.retries
                    < MAX_READ_RETRIES {
                    (IngestView { retries: (self.retries + 1) as u8, ..self }, self.read_step())
                } else {
                    (
                        IngestView { phase: IngestPhase::Finished, ..self },
                        failed(IoErrorKind::Interrupted),
                    )
                },
                IngestEventView::Failed(kind) => (
                    IngestView { phase: IngestPhase::Finished, ..self },
                    failed(kind),
                ),
                IngestEventView::Done => (
                    IngestView { phase: IngestPhase::Finished, ..self },
                    failed(other),
                ),
            },
            IngestPhase::Finished => (self, failed(other)),
        }
    }
}

impl IngestView {
    /// Whether the staged file holds what was read: before anything is read,
    /// nothing is written; and while the next chunk is waited for, every byte
    /// read has been written, in its order, and the payload is no longer than
    /// expected.
    pub open spec fn is_faithful(self) -> bool {
        &&& self.phase == IngestPhase::Creating ==> self.read.len() == 0 && self.written.len() == 0
        &&& self.phase == IngestPhase::Reading ==> !self.too_large() && (self.staging
            ==> self.written == self.read)
    }
}

/// An intake writes what it reads. It is faithful from its beginning on,
/// whatever it is told; and an intake that ends well has written every byte
/// that it has read, reports their number, and has read no more than was
/// expected.
pub proof fn law_ingest_writes_what_it_reads(intake: IngestView, event: IngestEventView)
    requires
        intake.is_faithful(),
    ensures
        IngestView::begin(intake.expected, intake.hashing, intake.staging).is_faithful(),
        intake.advance(event).0.is_faithful(),
        intake.advance(event).1 matches IngestStepView::Finish(Ok(report)) ==> {
            &&& intake.staging ==> intake.written == intake.read
            &&& report.file_size == counted(intake.read)
            &&& !intake.too_large()
        },
{
    let fresh = IngestView::begin(intake.expected, intake.hashing, intake.staging);
    assert(counted(fresh.read) == 0);
    if intake.phase == IngestPhase::Creating {
        assert(intake.read =~= intake.written);
        assert(counted(intake.read) == 0);
    }
}

/// Whether a step is the one that the model names, the digest in the
/// report of an intake that ends well being that of the bytes read.
pub open spec fn ingest_step_is(step: IngestStepView, model: IngestStepView, before: IngestView) -> bool {
    match (step, model) {
        (IngestStepView::Finish(Ok(report)), IngestStepView::Finish(Ok(expected))) => {
            &&& report.file_size == expected.file_size
            &&& before.hash_is_right(report.hash)
        },
        _ => step == model,
    }
}

impl View for Ingest {
    type V = IngestView;

    closed spec fn view(&self) -> IngestView {
        IngestView {
            phase: self.phase,
            expected: self.expected,
            hashing: self.hasher is Some,
            staging: self.staging,
            read: self.read@,
            written: self.written@,
            retries: self.retries,
        }
    }
}

impl Ingest {
    /// Whether the count and the hasher of the intake agree with the bytes
    /// it has read.
    pub closed spec fn wf(&self) -> bool {
        &&& self.file_size == counted(self.read@)
        &&& self.phase != IngestPhase::Finished ==> match self.hasher {
            Some(hasher) => self.phase == IngestPhase::Draining || absorbed(hasher) == self.read@,
            None => true,
        }
    }

    /// Begins an intake of a payload of at most `expected` bytes, where a
    /// length is expected, with the digest where it is asked for, and into a
    /// staged file where that is asked for.
    pub fn begin(expected: Option<u64>, hashing: bool, staging: bool) -> (r: (Ingest, IngestStep))
        ensures
            r.0.wf(),
            r.0@ == IngestView::begin(expected, hashing, staging),
            r.1@ == r.0@.first_step(),
    {
        let hasher = if hashing {
            Some(StreamHasher::new())
        } else {
            None
        };
        let intake = Ingest {
            phase: if staging {
                IngestPhase::Creating
            } else {
                IngestPhase::Reading
            },
            staging,
            expected,
            file_size: 0,
            retries: 0,
            hasher,
            read: Ghost(Seq::empty()),
            written: Ghost(Seq::empty()),
        };
        let step = if staging {
            IngestStep::Create
        } else {
            intake.read_step()
        };
        (intake, step)
    }

    fn abandon(self, kind: IoErrorKind) -> (r: (Ingest, IngestStep))
        requires
            self.wf(),
            self.phase == IngestPhase::Reading,
        ensures
            r.0.wf(),
            r.0@ == self@.abandon(kind).0,
            r.1@ == self@.abandon(kind).1,
    {
        let mut this = self;
        if this.staging {
            this.phase = IngestPhase::RemovingAfter(kind);
            (this, IngestStep::Remove)
        } else {
            this.phase = IngestPhase::Finished;
            (this, IngestStep::Finish(Err(DatalithWriteError::IOError(kind))))
        }
    }

    fn read_step(&self) -> (step: IngestStep)
        ensures
            step@ == self@.read_step(),
    {
        let buffer_size = match self.expected {
            Some(expected) => calculate_buffer_size(expected),
            None => BUFFER_SIZE,
        };
        IngestStep::Read { buffer_size }
    }

    fn take_in(&mut self, data: &[u8])
        requires
            old(self).wf(),
            old(self).phase == IngestPhase::Reading || old(self).phase == IngestPhase::Draining,
        ensures
            final(self).file_size == counted(old(self).read@ + data@),
            final(self).read@ == old(self).read@ + data@,
            final(self).written == old(self).written,
            final(self).expected == old(self).expected,
            final(self).staging == old(self).staging,
            final(self).phase == old(self).phase,
            final(self).retries == old(self).retries,
            final(self).hasher is Some == old(self).hasher is Some,
            old(self).phase == IngestPhase::Reading ==> match final(self).hasher {
                Some(hasher) => absorbed(hasher) == old(self).read@ + data@,
                None => true,
            },
    {
        let length = data.len() as u64;
        self.file_size = if length > u64::MAX - self.file_size {
            u64::MAX
        } else {
            self.file_size + length
        };
        let reading = match self.phase {
            IngestPhase::Reading => true,
            _ => false,
        };
        if reading {
            let mut hasher = None;
            core::mem::swap(&mut hasher, &mut self.hasher);
            match hasher {
                Some(mut h) => {
                    h.update(data);
                    self.hasher = Some(h);
                },
                None => {},
            }
        }
        self.read = Ghost(self.read@ + data@);
    }

    /// Resumes the intake with the outcome of its last request.
    pub fn resume(self, event: IngestEvent<'_>) -> (r: (Ingest, IngestStep))
        requires
            self.wf(),
        ensures
            r.0.wf(),
            r.0@ == self@.advance(event@).0,
            ingest_step_is(r.1@, self@.advance(event@).1, self@),
    {
        let mut this = self;
        let other = IoErrorKind::Other;
        match this.phase {
            IngestPhase::Creating => match event {
                IngestEvent::Done => {
                    this.phase = IngestPhase::Reading;
                    let step = this.read_step();
                    (this, step)
                },
                IngestEvent::Failed(kind) => {
                    this.phase = IngestPhase::Finished;
                    (this, IngestStep::Finish(Err(DatalithWriteError::IOError(kind))))
                },
                _ => {
                    this.phase = IngestPhase::Finished;
                    (this, IngestStep::Finish(Err(DatalithWriteError::IOError(other))))
                },
            },
            IngestPhase::Reading => match event {
                IngestEvent::Chunk(data) => {
                    this.take_in(data);
                    this.retries = 0;
                    if this.staging {
                        this.phase = IngestPhase::Writing;
                        (this, IngestStep::Write)
                    } else {
                        let too_large = match this.expected {
                            Some(expected) => this.file_size > expected,
                            None => false,
                        };
                        if too_large {
                            this.phase = IngestPhase::Draining;
                        }
                        let step = this.read_step();
                        (this, step)
                    }
                },
                IngestEvent::End => {
                    let file_size = this.file_size;
                    let mut hasher = None;
                    core::mem::swap(&mut hasher, &mut this.hasher);
                    let hash = match hasher {
                        Some(h) => {
                            let hash = h.finalize();
                            this.hasher = Some(StreamHasher::new());
                            Some(hash)
                        },
                        None => None,
                    };
                    this.phase = IngestPhase::Finished;
                    (this, IngestStep::Finish(Ok(IngestReport { file_size, hash })))
                },
                IngestEvent::Failed(IoErrorKind::Interrupted) => {
                    if this.retries < MAX_READ_RETRIES {
                        this.retries = this.retries + 1;
                        let step = this.read_step();
                        (this, step)
                    } else {
                        this.phase = IngestPhase::Finished;
                        (
                            this,
                            IngestStep::Finish(
                                Err(DatalithWriteError::IOError(IoErrorKind::Interrupted)),
                            ),
                        )
                    }
                },
                IngestEvent::Failed(kind) => this.abandon(kind),
                IngestEvent::Done => this.abandon(other),
            },
            IngestPhase::Writing => match event {
                IngestEvent::Done => {
                    this.written = Ghost(this.read@);
                    let too_large = match this.expected {
                        Some(expected) => this.file_size > expected,
                        None => false,
                    };
                    if too_large {
                        this.phase = IngestPhase::RemovingTooLarge;
                        (this, IngestStep::Remove)
                    } else {
                        this.phase = IngestPhase::Reading;
                        let step = this.read_step();
                        (this, step)
                    }
                },
                IngestEvent::Failed(kind) => {
                    this.phase = IngestPhase::RemovingAfter(kind);
                    (this, IngestStep::Remove)
                },
                _ => {
                    this.phase = IngestPhase::RemovingAfter(other);
                    (this, IngestStep::Remove)
                },
            },
            IngestPhase::RemovingAfter(error) => match event {
                IngestEvent::Failed(kind) => {
                    this.phase = IngestPhase::Finished;
                    (this, IngestStep::Finish(Err(DatalithWriteError::IOError(kind))))
                },
                _ => {
                    this.phase = IngestPhase::Finished;
                    (this, IngestStep::Finish(Err(DatalithWriteError::IOError(error))))
                },
            },
            IngestPhase::RemovingTooLarge => match event {
                IngestEvent::Done => {
                    this.phase = IngestPhase::Draining;
                    let step = this.read_step();
                    (this, step)
                },
                IngestEvent::Failed(kind) => {
                    this.phase = IngestPhase::Finished;
                    (this, IngestStep::Finish(Err(DatalithWriteError::IOError(kind))))
                },
                _ => {
                    this.phase = IngestPhase::Finished;
                    (this, IngestStep::Finish(Err(DatalithWriteError::IOError(other))))
                },
            },
            IngestPhase::Draining => match event {
                IngestEvent::Chunk(data) => {
                    this.take_in(data);
                    this.retries = 0;
                    let step = this.read_step();
                    (this, step)
                },
                IngestEvent::End => {
                    let expected_file_length = match this.expected {
                        Some(expected) => expected,
                        None => 0,
                    };
                    let actual_file_length = this.file_size;
                    this.phase = IngestPhase::Finished;
                    (
                        this,
                        IngestStep::Finish(
                            Err(
                                DatalithWriteError::FileLengthTooLarge {
                                    expected_file_length,
                                    actual_file_length,
                                },
                            ),
                        ),
                    )
                },
                IngestEvent::Failed(IoErrorKind::Interrupted) => {
                    if this.retries < MAX_READ_RETRIES {
                        this.retries = this.retries + 1;
                        let step = this.read_step();
                        (this, step)
                    } else {
                        this.phase = IngestPhase::Finished;
                        (
                            this,
                            IngestStep::Finish(
                                Err(DatalithWriteError::IOError(IoErrorKind::Interrupted)),
                            ),
                        )
                    }
                },
                IngestEvent::Failed(kind) => {
                    this.phase = IngestPhase::Finished;
                    (this, IngestStep::Finish(Err(DatalithWriteError::IOError(kind))))
                },
                IngestEvent::Done => {
                    this.phase = IngestPhase::Finished;
                    (this, IngestStep::Finish(Err(DatalithWriteError::IOError(other))))
                },
            },
            IngestPhase::Finished => (
                this,
                IngestStep::Finish(Err(DatalithWriteError::IOError(other))),
            ),
        }
    }
}

} // verus!
