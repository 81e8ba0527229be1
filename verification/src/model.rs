//! A mathematical model of what the store keeps: the tables of the metadata
//! store, the blobs on disk and the guard registry, with the effect of every
//! request on them. The laws of the store are stated over this model.

use vstd::prelude::*;
use crate::datalith_errors::IoErrorKind;
use crate::datalith_errors::SqlErrorKind;
use crate::datalith_file::FileRecord;
use crate::functions::FileHash;
use crate::guard::GuardRequestView;
use crate::guard::RegistryView;
use crate::image_types::ImageRecord;
use crate::image_types::ThumbnailLink;
use crate::resources::ResourceRecord;
use crate::step::CodecRequest;
use crate::step::Directory;
use crate::step::DirectoryEntryView;
use crate::step::EntryKind;
use crate::step::FileOperationView;
use crate::text::parse_hex32_spec;
use crate::step::ReplyView;
use crate::step::StatementView;
use crate::step::StepView;

verus! {

/// The tables of the metadata store.
pub struct Tables {
    pub files: Map<u128, FileRecord>,
    pub resources: Map<u128, ResourceRecord>,
    pub images: Map<u128, ImageRecord>,
    pub thumbnails: Seq<ThumbnailLink>,
}

impl Tables {
    /// The tables without any row.
    pub open spec fn empty() -> Tables {
        Tables {
            files: Map::empty(),
            resources: Map::empty(),
            images: Map::empty(),
            thumbnails: Seq::empty(),
        }
    }

    /// Every file row is filed under its own identifier and counts at least
    /// one holder; a temporary file counts exactly one.
    pub open spec fn wf(self) -> bool {
        forall|id: u128| #[trigger]
            self.files.contains_key(id) ==> {
                &&& self.files[id].id == id
                &&& self.files[id].count >= 1
            }
    }

    /// Whether a resource, a thumbnail link or an image refers to a file.
    pub open spec fn is_referenced(self, file_id: u128) -> bool {
        ||| exists|r: u128| #[trigger]
            self.resources.contains_key(r) && self.resources[r].file_id == file_id
        ||| exists|i: int|
            0 <= i < self.thumbnails.len() && (#[trigger] self.thumbnails[i]).file_id == file_id
        ||| exists|m: u128| #[trigger]
            self.images.contains_key(m) && self.images[m].original_file_id == Some(file_id)
    }

    /// Whether a file with the hash is live at `now`.
    pub open spec fn has_live_hash(self, hash: FileHash, now: i64) -> bool {
        exists|id: u128| self.is_live_with_hash(id, hash, now)
    }

    /// Whether `id` is a file with the hash that is live at `now`.
    pub open spec fn is_live_with_hash(self, id: u128, hash: FileHash, now: i64) -> bool {
        self.files.contains_key(id) && self.files[id].hash == hash && self.files[id].is_live(now)
    }

    /// A file with the hash that is live at `now`, where there is one.
    pub open spec fn live_by_hash(self, hash: FileHash, now: i64) -> Option<FileRecord> {
        if self.has_live_hash(hash, now) {
            Some(self.files[choose|id: u128| self.is_live_with_hash(id, hash, now)])
        } else {
            None
        }
    }

    /// The tables with another count on a file.
    pub open spec fn with_count(self, id: u128, count: u64) -> Tables {
        Tables { files: self.files.insert(id, FileRecord { count, ..self.files[id] }), ..self }
    }

    /// The tables with another expiry on a file.
    pub open spec fn with_expiry(self, id: u128, expired_at: Option<i64>) -> Tables {
        Tables { files: self.files.insert(id, FileRecord { expired_at, ..self.files[id] }), ..self }
    }

    /// The links of an image, in the order in which they are kept.
    pub open spec fn links_of(self, image_id: u128) -> Seq<ThumbnailLink> {
        self.thumbnails.filter(|l: ThumbnailLink| l.image_id == image_id)
    }

    /// The tables after a statement other than `Begin`, `Commit` and
    /// `Rollback`, and the reply to it.
    pub open spec fn execute(self, statement: StatementView) -> (Tables, ReplyView) {
        match statement {
            StatementView::SelectLiveFileByHash { hash, now } => (
                self,
                ReplyView::File(self.live_by_hash(hash, now)),
            ),
            StatementView::IncrementFileCount { id } => if self.files.contains_key(id)
                && self.files[id].count < u64::MAX {
                (self.with_count(id, (self.files[id].count + 1) as u64), ReplyView::Affected(1))
            } else {
                (self, ReplyView::Affected(0))
            },
            StatementView::InsertFile(row) => if self.files.contains_key(row.id) {
                (self, ReplyView::SqlFailed(SqlErrorKind::Other))
            } else {
                (Tables { files: self.files.insert(row.id, row), ..self }, ReplyView::Affected(1))
            },
            StatementView::TouchTemporaryFile { id, now } => if self.files.contains_key(id)
                && self.files[id].is_temporary() && self.files[id].is_live(now) {
                (self.with_expiry(id, Some(now)), ReplyView::Affected(1))
            } else {
                (self, ReplyView::Affected(0))
            },
            StatementView::ExpireFile { id, now } => if self.files.contains_key(id) {
                (self.with_expiry(id, Some(now)), ReplyView::Affected(1))
            } else {
                (self, ReplyView::Affected(0))
            },
            StatementView::SelectReadableFile { id, now } => (
                self,
                ReplyView::File(
                    if self.files.contains_key(id) && self.files[id].is_readable(now) {
                        Some(self.files[id])
                    } else {
                        None
                    },
                ),
            ),
            StatementView::SelectFileExists { id, now } => (
                self,
                ReplyView::Flag(self.files.contains_key(id) && self.files[id].is_live(now)),
            ),
            StatementView::SelectFileShared { id } => (
                self,
                ReplyView::Flag(self.files.contains_key(id) && self.files[id].count > 1),
            ),
            StatementView::DecrementFileCount { id } => if self.files.contains_key(id)
                && self.files[id].count > 1 {
                (self.with_count(id, (self.files[id].count - 1) as u64), ReplyView::Affected(1))
            } else {
                (self, ReplyView::Affected(0))
            },
            StatementView::DeleteLastFile { id } => if self.files.contains_key(id)
                && self.files[id].count == 1 {
                if self.is_referenced(id) {
                    (self, ReplyView::SqlFailed(SqlErrorKind::ForeignKeyRestricted))
                } else {
                    (Tables { files: self.files.remove(id), ..self }, ReplyView::Affected(1))
                }
            } else {
                (self, ReplyView::Affected(0))
            },
            StatementView::InsertResource(row) => if self.resources.contains_key(row.id)
                || !self.files.contains_key(row.file_id) {
                (self, ReplyView::SqlFailed(SqlErrorKind::Other))
            } else {
                (
                    Tables { resources: self.resources.insert(row.id, row), ..self },
                    ReplyView::Affected(1),
                )
            },
            StatementView::SelectResourceExists { id, now } => (
                self,
                ReplyView::Flag(self.resource_is_live(id, now)),
            ),
            StatementView::SelectResource { id, now } => (
                self,
                ReplyView::Resource(
                    if self.resource_is_live(id, now) {
                        Some(self.resources[id])
                    } else {
                        None
                    },
                ),
            ),
            StatementView::SelectResourceFile { id } => (
                self,
                ReplyView::Id(
                    if self.resources.contains_key(id) {
                        Some(self.resources[id].file_id)
                    } else {
                        None
                    },
                ),
            ),
            StatementView::DeleteResource { id } => if self.resources.contains_key(id) {
                (Tables { resources: self.resources.remove(id), ..self }, ReplyView::Affected(1))
            } else {
                (self, ReplyView::Affected(0))
            },
            StatementView::InsertImage(row) => if self.images.contains_key(row.id) {
                (self, ReplyView::SqlFailed(SqlErrorKind::Other))
            } else {
                (Tables { images: self.images.insert(row.id, row), ..self }, ReplyView::Affected(1))
            },
            StatementView::InsertThumbnails(links) => (
                Tables { thumbnails: self.thumbnails + links, ..self },
                ReplyView::Affected(links.len() as u64),
            ),
            StatementView::SelectThumbnailFiles { image_id } => (
                self,
                ReplyView::Ids(self.links_of(image_id).map_values(|l: ThumbnailLink| l.file_id)),
            ),
            StatementView::SelectImage { id } => (
                self,
                ReplyView::Image(
                    if self.images.contains_key(id) {
                        Some(self.images[id])
                    } else {
                        None
                    },
                ),
            ),
            StatementView::SelectImageExists { id } => (
                self,
                ReplyView::Flag(self.images.contains_key(id)),
            ),
            StatementView::DeleteThumbnails { image_id } => (
                Tables {
                    thumbnails: self.thumbnails.filter(|l: ThumbnailLink| l.image_id != image_id),
                    ..self
                },
                ReplyView::Affected(self.links_of(image_id).len() as u64),
            ),
            StatementView::DeleteImage { id } => if self.images.contains_key(id) {
                (Tables { images: self.images.remove(id), ..self }, ReplyView::Affected(1))
            } else {
                (self, ReplyView::Affected(0))
            },
            _ => (self, ReplyView::Done),
        }
    }

    /// Whether a resource exists whose file is live at `now`.
    pub open spec fn resource_is_live(self, id: u128, now: i64) -> bool {
        &&& self.resources.contains_key(id)
        &&& self.files.contains_key(self.resources[id].file_id)
        &&& self.files[self.resources[id].file_id].is_live(now)
    }
}

/// The state of a store: its tables, the tables as they were when the open
/// transaction began, the blobs on disk, the sizes of the files that lie at
/// paths outside the store, the guard registry, the clock, and what the image
/// codec answers to the requests that it can carry out.
pub struct World {
    pub tables: Tables,
    pub saved: Option<Tables>,
    pub blobs: Set<u128>,
    pub disk: Map<Seq<char>, u64>,
    pub registry: RegistryView,
    pub now: i64,
    pub codec: Map<CodecRequest, ReplyView>,
}

impl World {
    /// A store that has just been created, at a time.
    pub open spec fn empty(now: i64) -> World {
        World {
            tables: Tables::empty(),
            saved: None,
            blobs: Set::empty(),
            disk: Map::empty(),
            registry: RegistryView::empty(),
            now,
            codec: Map::empty(),
        }
    }

    /// The store at another time.
    pub open spec fn at(self, now: i64) -> World {
        World { now, ..self }
    }

    /// The store with other tables.
    pub open spec fn with_tables(self, tables: Tables) -> World {
        World { tables, ..self }
    }

    /// The store after a request to the guard registry.
    pub open spec fn guarded(self, request: GuardRequestView) -> World {
        World { registry: self.registry.perform(request).0, ..self }
    }

    /// The state after a statement, and the reply to it.
    pub open spec fn query(self, statement: StatementView) -> (World, ReplyView) {
        match statement {
            StatementView::Begin => (World { saved: Some(self.tables), ..self }, ReplyView::Done),
            StatementView::Commit => (World { saved: None, ..self }, ReplyView::Done),
            StatementView::Rollback => (
                World {
                    tables: match self.saved {
                        Some(tables) => tables,
                        None => self.tables,
                    },
                    saved: None,
                    ..self
                },
                ReplyView::Done,
            ),
            _ => {
                let (tables, reply) = self.tables.execute(statement);
                (World { tables, ..self }, reply)
            },
        }
    }

    /// The state after an operation on the file system, and the reply to it.
    /// No magic database is at hand, and every path is its own canonical
    /// form.
    pub open spec fn file(self, operation: FileOperationView) -> (World, ReplyView) {
        match operation {
            FileOperationView::StoreBlob { id, payload } => (
                World { blobs: self.blobs.insert(id), ..self },
                ReplyView::Done,
            ),
            FileOperationView::RemoveBlob { id } => if self.blobs.contains(id) {
                (World { blobs: self.blobs.remove(id), ..self }, ReplyView::Done)
            } else {
                (self, ReplyView::IoFailed(IoErrorKind::NotFound))
            },
            FileOperationView::Canonicalize(path) => (self, ReplyView::Text(Some(path))),
            FileOperationView::Sniff(payload) => (self, ReplyView::Text(None)),
            FileOperationView::List(Directory::Files) => (self, ReplyView::Entries(self.listing())),
            FileOperationView::RemoveEntry { directory: Directory::Files, name } => {
                match parse_hex32_spec(name) {
                    Some(id) => if self.blobs.contains(id) {
                        (World { blobs: self.blobs.remove(id), ..self }, ReplyView::Done)
                    } else {
                        (self, ReplyView::IoFailed(IoErrorKind::NotFound))
                    },
                    None => (self, ReplyView::IoFailed(IoErrorKind::NotFound)),
                }
            },
            FileOperationView::Measure(path) => if self.disk.contains_key(path) {
                (self, ReplyView::Size(self.disk[path]))
            } else {
                (self, ReplyView::IoFailed(IoErrorKind::NotFound))
            },
            _ => (self, ReplyView::Done),
        }
    }

    /// Whether a list of entries lists the blob directory: every entry is the
    /// blob of a file, and every blob is listed.
    pub open spec fn lists(self, entries: Seq<DirectoryEntryView>) -> bool {
        &&& forall|i: int|
            0 <= i < entries.len() ==> {
                &&& (#[trigger] entries[i]).kind == EntryKind::File
                &&& parse_hex32_spec(entries[i].name) matches Some(id)
                &&& self.blobs.contains(id)
            }
        &&& forall|id: u128|
            self.blobs.contains(id) ==> exists|i: int|
                0 <= i < entries.len() && parse_hex32_spec((#[trigger] entries[i]).name) == Some(
                    id,
                )
    }

    /// The entries of the blob directory, in the order in which they are
    /// listed.
    pub open spec fn listing(self) -> Seq<DirectoryEntryView> {
        choose|entries: Seq<DirectoryEntryView>| self.lists(entries)
    }

    /// The state after a request has been carried out, and the reply to it.
    pub open spec fn perform<R>(self, step: StepView<R>) -> (World, ReplyView) {
        match step {
            StepView::Query(statement) => self.query(statement),
            StepView::File(operation) => self.file(operation),
            StepView::Guard(request) => (
                self.guarded(request),
                ReplyView::Flag(self.registry.perform(request).1),
            ),
            StepView::Codec(request) => (
                self,
                if self.codec.contains_key(request) {
                    self.codec[request]
                } else {
                    ReplyView::CodecFailed
                },
            ),
            StepView::Clock => (self, ReplyView::Time(self.now)),
            StepView::Pause => (self, ReplyView::Done),
            StepView::Finish(_) => (self, ReplyView::Done),
        }
    }

    /// Every file that is live now has its blob.
    pub open spec fn blobs_cover_files(self) -> bool {
        forall|id: u128| #[trigger]
            self.tables.files.contains_key(id) && self.tables.files[id].is_live(self.now)
                ==> self.blobs.contains(id)
    }

    /// Every blob belongs to a file that is live now, or is pinned.
    pub open spec fn files_cover_blobs(self) -> bool {
        forall|id: u128| #[trigger]
            self.blobs.contains(id) ==> (self.tables.files.contains_key(id)
                && self.tables.files[id].is_live(self.now))
                || self.registry.opening.contains_key(id)
    }
}

/// A statement leaves every file with a count of at least one.
pub proof fn law_statement_keeps_counts(tables: Tables, statement: StatementView)
    requires
        tables.wf(),
        statement matches StatementView::InsertFile(row) ==> row.count >= 1,
    ensures
        tables.execute(statement).0.wf(),
{
}

} // verus!
