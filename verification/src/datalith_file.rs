//! File rows of the metadata store and the handles that callers hold.

use vstd::prelude::*;
use crate::functions::FileHash;
use crate::media_type::MediaType;
use crate::media_type::MediaTypeView;

verus! {

/// A row of the table `files`.
#[derive(Debug)]
pub struct FileRow {
    pub id: u128,
    pub hash: FileHash,
    /// Creation time, in milliseconds since the Unix epoch.
    pub created_at: i64,
    pub file_size: u64,
    pub file_type: MediaType,
    pub file_name: String,
    /// Set on temporary files only: the time from which the file is expired.
    pub expired_at: Option<i64>,
    /// The number of holders of the file.
    pub count: u64,
}

/// The mathematical value of a file row.
pub struct FileRecord {
    pub id: u128,
    pub hash: FileHash,
    pub created_at: i64,
    pub file_size: u64,
    pub file_type: MediaTypeView,
    pub file_name: Seq<char>,
    pub expired_at: Option<i64>,
    pub count: u64,
}

impl View for FileRow {
    type V = FileRecord;

    open spec fn view(&self) -> FileRecord {
        FileRecord {
            id: self.id,
            hash: self.hash,
            created_at: self.created_at,
            file_size: self.file_size,
            file_type: self.file_type@,
            file_name: self.file_name@,
            expired_at: self.expired_at,
            count: self.count,
        }
    }
}

impl FileRecord {
    /// Whether the file can be found at time `now`: it is permanent, or its
    /// expiry lies in the future.
    pub open spec fn is_live(self, now: i64) -> bool {
        match self.expired_at {
            None => true,
            Some(expired_at) => expired_at > now,
        }
    }

    /// Whether the file is temporary.
    pub open spec fn is_temporary(self) -> bool {
        self.expired_at is Some
    }

    /// Whether the file can be read by a call that runs at time `now`: it is
    /// permanent, or that very call has just consumed it.
    pub open spec fn is_readable(self, now: i64) -> bool {
        match self.expired_at {
            None => true,
            Some(expired_at) => expired_at == now,
        }
    }

    /// Whether the file is expired at time `now`.
    pub open spec fn is_expired(self, now: i64) -> bool {
        match self.expired_at {
            None => false,
            Some(expired_at) => expired_at <= now,
        }
    }
}

impl FileRow {
    /// Whether the file can be found at time `now`.
    pub fn is_live(&self, now: i64) -> (r: bool)
        ensures
            r == self@.is_live(now),
    {
        match self.expired_at {
            None => true,
            Some(expired_at) => expired_at > now,
        }
    }

    /// Whether the file is temporary.
    pub fn is_temporary(&self) -> (r: bool)
        ensures
            r == self@.is_temporary(),
    {
        self.expired_at.is_some()
    }

    /// Whether the file is expired at time `now`.
    pub fn is_expired(&self, now: i64) -> (r: bool)
        ensures
            r == self@.is_expired(now),
    {
        match self.expired_at {
            None => false,
            Some(expired_at) => expired_at <= now,
        }
    }
}

/// A file of the store as a caller holds it. While the handle is held, the
/// file's blob is pinned.
#[derive(Debug)]
pub struct DatalithFile {
    pub(crate) id: u128,
    pub(crate) created_at: i64,
    pub(crate) file_size: u64,
    pub(crate) file_type: MediaType,
    pub(crate) file_name: String,
    pub(crate) is_temporary: bool,
    pub(crate) is_new: bool,
}

/// The mathematical value of a file handle.
pub struct DatalithFileView {
    pub id: u128,
    pub created_at: i64,
    pub file_size: u64,
    pub file_type: MediaTypeView,
    pub file_name: Seq<char>,
    pub is_temporary: bool,
    pub is_new: bool,
}

impl View for DatalithFile {
    type V = DatalithFileView;

    closed spec fn view(&self) -> DatalithFileView {
        DatalithFileView {
            id: self.id,
            created_at: self.created_at,
            file_size: self.file_size,
            file_type: self.file_type@,
            file_name: self.file_name@,
            is_temporary: self.is_temporary,
            is_new: self.is_new,
        }
    }
}

/// The handle on the file of a row.
pub open spec fn handle_of(row: FileRecord, is_temporary: bool, is_new: bool) -> DatalithFileView {
    DatalithFileView {
        id: row.id,
        created_at: row.created_at,
        file_size: row.file_size,
        file_type: row.file_type,
        file_name: row.file_name,
        is_temporary,
        is_new,
    }
}

impl DatalithFile {
    /// Makes the handle on the file of a row.
    pub fn new(row: FileRow, is_temporary: bool, is_new: bool) -> (file: DatalithFile)
        ensures
            file@ == handle_of(row@, is_temporary, is_new),
    {
        DatalithFile {
            id: row.id,
            created_at: row.created_at,
            file_size: row.file_size,
            file_type: row.file_type,
            file_name: row.file_name,
            is_temporary,
            is_new,
        }
    }

    /// The identifier of the file.
    pub fn id(&self) -> (r: u128)
        ensures
            r == self@.id,
    {
        self.id
    }

    /// The creation time, in milliseconds since the Unix epoch.
    pub fn created_at(&self) -> (r: i64)
        ensures
            r == self@.created_at,
    {
        self.created_at
    }

    /// The media type of the file.
    pub fn file_type(&self) -> (r: &MediaType)
        ensures
            r@ == self@.file_type,
    {
        &self.file_type
    }

    /// The size of the file in bytes.
    pub fn file_size(&self) -> (r: u64)
        ensures
            r == self@.file_size,
    {
        self.file_size
    }

    /// The name of the file.
    pub fn file_name(&self) -> (r: &String)
        ensures
            r@ == self@.file_name,
    {
        &self.file_name
    }

    /// Whether the file is temporary.
    pub fn is_temporary(&self) -> (r: bool)
        ensures
            r == self@.is_temporary,
    {
        self.is_temporary
    }

    /// Whether this handle comes from the put that created the file.
    pub fn is_new(&self) -> (r: bool)
        ensures
            r == self@.is_new,
    {
        self.is_new
    }
}

} // verus!
