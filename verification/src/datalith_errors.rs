//! The errors of the store. Failures of the file system and of the metadata
//! store are carried by their kind, which is what decisions depend on.

use vstd::prelude::*;
use crate::media_type::MediaType;
use crate::media_type::MediaTypeView;

verus! {

/// The kinds of file-system failure that the store tells apart.
#[derive(Clone, Copy, Debug, PartialEq, Eq, Structural)]
pub enum IoErrorKind {
    /// The entry does not exist.
    NotFound,
    /// The entry exists where none was expected, or is of the wrong kind.
    AlreadyExists,
    /// The operation would have to wait, as a lock that is held elsewhere.
    WouldBlock,
    /// The operation was interrupted and may be tried again.
    Interrupted,
    /// A parameter was not acceptable.
    InvalidInput,
    /// Any other failure.
    Other,
}

/// The kinds of metadata-store failure that the store tells apart.
#[derive(Clone, Copy, Debug, PartialEq, Eq, Structural)]
pub enum SqlErrorKind {
    /// A table to create exists already.
    TableAlreadyExists,
    /// A row to delete is still referenced through a foreign key.
    ForeignKeyRestricted,
    /// Any other failure.
    Other,
}

/// Errors that occur while a store is opened.
#[derive(Clone, Copy, Debug, PartialEq, Eq, Structural)]
pub enum DatalithCreateError {
    IOError(IoErrorKind),
    SQLError(SqlErrorKind),
    DatabaseTooNewError { app_db_version: u32, current_db_version: u32 },
    DatabaseTooOldError { app_db_version: u32, current_db_version: u32 },
    AlreadyRun,
}

/// Errors that occur while the store is read or a file is deleted.
#[derive(Clone, Copy, Debug, PartialEq, Eq, Structural)]
pub enum DatalithReadError {
    IOError(IoErrorKind),
    SQLError(SqlErrorKind),
}

/// Errors that occur while a file is put into the store.
#[derive(Debug)]
pub enum DatalithWriteError {
    FileTypeInvalid { file_type: MediaType, expected_file_type: MediaType },
    FileLengthTooLarge { expected_file_length: u64, actual_file_length: u64 },
    IOError(IoErrorKind),
    SQLError(SqlErrorKind),
}

/// The mathematical value of a write error.
pub enum DatalithWriteErrorView {
    FileTypeInvalid { file_type: MediaTypeView, expected_file_type: MediaTypeView },
    FileLengthTooLarge { expected_file_length: u64, actual_file_length: u64 },
    IOError(IoErrorKind),
    SQLError(SqlErrorKind),
}

impl View for DatalithWriteError {
    type V = DatalithWriteErrorView;

    open spec fn view(&self) -> DatalithWriteErrorView {
        match *self {
            DatalithWriteError::FileTypeInvalid { file_type, expected_file_type } => {
                DatalithWriteErrorView::FileTypeInvalid {
                    file_type: file_type@,
                    expected_file_type: expected_file_type@,
                }
            },
            DatalithWriteError::FileLengthTooLarge { expected_file_length, actual_file_length } => {
                DatalithWriteErrorView::FileLengthTooLarge { expected_file_length, actual_file_length }
            },
            DatalithWriteError::IOError(kind) => DatalithWriteErrorView::IOError(kind),
            DatalithWriteError::SQLError(kind) => DatalithWriteErrorView::SQLError(kind),
        }
    }
}

/// What a read error becomes where a write was under way.
pub open spec fn write_error_of_read(error: DatalithReadError) -> DatalithWriteErrorView {
    match error {
        DatalithReadError::IOError(kind) => DatalithWriteErrorView::IOError(kind),
        DatalithReadError::SQLError(kind) => DatalithWriteErrorView::SQLError(kind),
    }
}

impl DatalithWriteError {
    /// Carries a read error over into a write: the kind is kept.
    pub fn from_read_error(error: DatalithReadError) -> (r: DatalithWriteError)
        ensures
            r@ == write_error_of_read(error),
    {
        match error {
            DatalithReadError::IOError(kind) => DatalithWriteError::IOError(kind),
            DatalithReadError::SQLError(kind) => DatalithWriteError::SQLError(kind),
        }
    }
}

/// Errors that occur while an image is put into the store.
#[derive(Debug)]
pub enum DatalithImageWriteError {
    DatalithWriteError(DatalithWriteError),
    UnsupportedImageType,
    ResolutionTooBig,
    MagickError,
}

/// The mathematical value of an image write error.
pub enum DatalithImageWriteErrorView {
    DatalithWriteError(DatalithWriteErrorView),
    UnsupportedImageType,
    ResolutionTooBig,
    MagickError,
}

impl View for DatalithImageWriteError {
    type V = DatalithImageWriteErrorView;

    open spec fn view(&self) -> DatalithImageWriteErrorView {
        match *self {
            DatalithImageWriteError::DatalithWriteError(e) => {
                DatalithImageWriteErrorView::DatalithWriteError(e@)
            },
            DatalithImageWriteError::UnsupportedImageType => {
                DatalithImageWriteErrorView::UnsupportedImageType
            },
            DatalithImageWriteError::ResolutionTooBig => DatalithImageWriteErrorView::ResolutionTooBig,
            DatalithImageWriteError::MagickError => DatalithImageWriteErrorView::MagickError,
        }
    }
}

/// Errors that occur while the maintenance schedule is set up.
#[derive(Clone, Copy, Debug, PartialEq, Eq, Structural)]
pub enum DatalithManagerError {
    JobSchedulerError,
}

} // verus!
