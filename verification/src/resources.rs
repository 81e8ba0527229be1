//! Resources: named handles onto files.

use vstd::prelude::*;
use crate::datalith_file::DatalithFile;
use crate::datalith_file::DatalithFileView;
use crate::media_type::MediaType;
use crate::media_type::MediaTypeView;

verus! {

/// A row of the table `resources`.
#[derive(Debug)]
pub struct ResourceRow {
    pub id: u128,
    /// Creation time, in milliseconds since the Unix epoch.
    pub created_at: i64,
    pub file_name: String,
    pub file_type: MediaType,
    /// The file that the resource names.
    pub file_id: u128,
}

/// The mathematical value of a resource row.
pub struct ResourceRecord {
    pub id: u128,
    pub created_at: i64,
    pub file_name: Seq<char>,
    pub file_type: MediaTypeView,
    pub file_id: u128,
}

impl View for ResourceRow {
    type V = ResourceRecord;

    open spec fn view(&self) -> ResourceRecord {
        ResourceRecord {
            id: self.id,
            created_at: self.created_at,
            file_name: self.file_name@,
            file_type: self.file_type@,
            file_id: self.file_id,
        }
    }
}

/// A resource of the store as a caller holds it.
#[derive(Debug)]
pub struct DatalithResource {
    pub(crate) id: u128,
    pub(crate) created_at: i64,
    pub(crate) file_type: MediaType,
    pub(crate) file_name: String,
    pub(crate) file: DatalithFile,
}

/// The mathematical value of a resource handle.
pub struct DatalithResourceView {
    pub id: u128,
    pub created_at: i64,
    pub file_type: MediaTypeView,
    pub file_name: Seq<char>,
    pub file: DatalithFileView,
}

impl View for DatalithResource {
    type V = DatalithResourceView;

    closed spec fn view(&self) -> DatalithResourceView {
        DatalithResourceView {
            id: self.id,
            created_at: self.created_at,
            file_type: self.file_type@,
            file_name: self.file_name@,
            file: self.file@,
        }
    }
}

/// The handle on the resource of a row, over the handle on its file.
pub open spec fn resource_of(row: ResourceRecord, file: DatalithFileView) -> DatalithResourceView {
    DatalithResourceView {
        id: row.id,
        created_at: row.created_at,
        file_type: row.file_type,
        file_name: row.file_name,
        file,
    }
}

impl DatalithResource {
    /// Makes the handle on the resource of a row, over the handle on its file.
    pub fn new(row: ResourceRow, file: DatalithFile) -> (resource: DatalithResource)
        ensures
            resource@ == resource_of(row@, file@),
    {
        DatalithResource {
            id: row.id,
            created_at: row.created_at,
            file_type: row.file_type,
            file_name: row.file_name,
            file,
        }
    }

    /// The identifier of the resource.
    pub fn id(&self) -> (r: u128)
        ensures
            r == self@.id,
    {
        self.id
    }

    /// The creation time, in milliseconds since the Unix epoch.
    pub fn created_at(&self) -> (r: i64)
        ensures
            r == self@.created_at,
    {
        self.created_at
    }

    /// The media type that the resource declares.
    pub fn file_type(&self) -> (r: &MediaType)
        ensures
            r@ == self@.file_type,
    {
        &self.file_type
    }

    /// The name of the resource.
    pub fn file_name(&self) -> (r: &String)
        ensures
            r@ == self@.file_name,
    {
        &self.file_name
    }

    /// The file that the resource names.
    pub fn file(&self) -> (r: &DatalithFile)
        ensures
            r@ == self@.file,
    {
        &self.file
    }

    /// Whether the file of the resource is temporary.
    pub fn is_temporary(&self) -> (r: bool)
        ensures
            r == self@.file.is_temporary,
    {
        self.file.is_temporary()
    }

    /// Gives up the resource for the handle on its file.
    pub fn into_file(self) -> (r: DatalithFile)
        ensures
            r@ == self@.file,
    {
        self.file
    }
}

} // verus!
