//! The operations of the store, run against a store kept in memory.

use std::collections::BTreeMap;
use std::collections::HashMap;

use datalith::ask::Ask;
use datalith::datalith::Datalith;
use datalith::datalith::DropStore;
use datalith::datalith::OpenStore;
use datalith::datalith::Opened;
use datalith::datalith_errors::DatalithCreateError;
use datalith::datalith_errors::DatalithImageWriteError;
use datalith::datalith_errors::DatalithReadError;
use datalith::datalith_errors::DatalithWriteError;
use datalith::datalith_errors::IoErrorKind;
use datalith::datalith_errors::SqlErrorKind;
use datalith::datalith_file::DatalithFile;
use datalith::datalith_file::FileRow;
use datalith::engine::FileLabel;
use datalith::engine::ImageOptions;
use datalith::functions::get_hash_by_buffer;
use datalith::guard::GuardRegistry;
use datalith::guard::GuardRequest;
use datalith::http::EtagIfNoneMatch;
use datalith::http::FetchImage;
use datalith::http::FetchResource;
use datalith::http::ResolutionType;
use datalith::image_types::DatalithImage;
use datalith::image_types::ImageRow;
use datalith::image_types::ThumbnailLink;
use datalith::listing::PaginationOptions;
use datalith::media_type::FileTypeLevel;
use datalith::media_type::MediaType;
use datalith::operation::Operation;
use datalith::resources::DatalithResource;
use datalith::resources::ResourceRow;
use datalith::step::CodecRequest;
use datalith::step::Directory;
use datalith::step::DirectoryEntry;
use datalith::step::EntryKind;
use datalith::step::FileOperation;
use datalith::step::ImageFormat;
use datalith::step::ImageIdentity;
use datalith::step::Payload;
use datalith::step::Reply;
use datalith::step::Statement;
use datalith::step::Step;
use datalith::text::hex32;

const PNG_SIGNATURE: [u8; 8] = [0x89, b'P', b'N', b'G', 0x0d, 0x0a, 0x1a, 0x0a];
const IMAGE_SIZE: u64 = 11658;

fn image_data() -> Vec<u8> {
    let mut data = PNG_SIGNATURE.to_vec();
    let mut i: usize = 0;
    while data.len() < IMAGE_SIZE as usize {
        data.push((i % 251) as u8);
        i += 1;
    }
    data
}

fn copy_type(t: &MediaType) -> MediaType {
    t.duplicate()
}

fn copy_file_row(row: &FileRow) -> FileRow {
    FileRow {
        id: row.id,
        hash: row.hash,
        created_at: row.created_at,
        file_size: row.file_size,
        file_type: copy_type(&row.file_type),
        file_name: row.file_name.clone(),
        expired_at: row.expired_at,
        count: row.count,
    }
}

fn copy_resource_row(row: &ResourceRow) -> ResourceRow {
    ResourceRow {
        id: row.id,
        created_at: row.created_at,
        file_name: row.file_name.clone(),
        file_type: copy_type(&row.file_type),
        file_id: row.file_id,
    }
}

fn copy_image_row(row: &ImageRow) -> ImageRow {
    ImageRow {
        id: row.id,
        created_at: row.created_at,
        image_stem: row.image_stem.clone(),
        image_width: row.image_width,
        image_height: row.image_height,
        original_file_id: row.original_file_id,
        has_alpha_channel: row.has_alpha_channel,
    }
}

struct Tables {
    files: Vec<FileRow>,
    resources: Vec<ResourceRow>,
    images: Vec<ImageRow>,
    links: Vec<ThumbnailLink>,
}

impl Tables {
    fn new() -> Tables {
        Tables { files: Vec::new(), resources: Vec::new(), images: Vec::new(), links: Vec::new() }
    }

    fn copy(&self) -> Tables {
        Tables {
            files: self.files.iter().map(copy_file_row).collect(),
            resources: self.resources.iter().map(copy_resource_row).collect(),
            images: self.images.iter().map(copy_image_row).collect(),
            links: self.links.clone(),
        }
    }
}

struct FakeImage {
    width: u32,
    height: u32,
    format: String,
    has_alpha_channel: bool,
}

/// A store kept in memory, which carries out what the operations ask for.
struct Store {
    settings: Datalith,
    tables: Tables,
    saved: Option<Tables>,
    blobs: BTreeMap<String, Vec<u8>>,
    staged: HashMap<u128, Vec<u8>>,
    disk: HashMap<String, Vec<u8>>,
    registry: GuardRegistry,
    now: i64,
    magic: bool,
    buffer: Vec<u8>,
    image: Option<FakeImage>,
    cropped: Option<(u32, u32)>,
    pauses: usize,
    steps: Vec<String>,
    environment_exists: bool,
    database_exists: bool,
    locked_elsewhere: bool,
    information: Option<(String, String)>,
    temporary_entries: usize,
    fail_commit: bool,
    fail_insert_resource: bool,
    fail_encode_at: Option<usize>,
    encoded: usize,
}

enum Outcome<T> {
    Ended(T),
    Blocked,
}

impl Store {
    fn new() -> Store {
        Store {
            settings: Datalith::new(
                "env".to_string(),
                Opened { version: 1, create_time: 0 },
            ),
            tables: Tables::new(),
            saved: None,
            blobs: BTreeMap::new(),
            staged: HashMap::new(),
            disk: HashMap::new(),
            registry: GuardRegistry::new(),
            now: 1_700_000_000_000,
            magic: false,
            buffer: Vec::new(),
            image: None,
            cropped: None,
            pauses: 0,
            steps: Vec::new(),
            environment_exists: false,
            database_exists: false,
            locked_elsewhere: false,
            information: None,
            temporary_entries: 0,
            fail_commit: false,
            fail_insert_resource: false,
            fail_encode_at: None,
            encoded: 0,
        }
    }

    fn file(&self, id: u128) -> Option<&FileRow> {
        self.tables.files.iter().find(|row| row.id == id)
    }

    fn count_of(&self, id: u128) -> Option<u64> {
        self.file(id).map(|row| row.count)
    }

    fn is_referenced(&self, id: u128) -> bool {
        self.tables.resources.iter().any(|r| r.file_id == id)
            || self.tables.links.iter().any(|l| l.file_id == id)
            || self.tables.images.iter().any(|m| m.original_file_id == Some(id))
    }

    fn payload_bytes(&self, payload: &Payload) -> Option<Vec<u8>> {
        match payload {
            Payload::Buffer => Some(self.buffer.clone()),
            Payload::Path(path) => self.disk.get(path).cloned(),
            Payload::Staged(id) => self.staged.get(id).cloned(),
        }
    }

    fn query(&mut self, statement: Statement) -> Reply {
        match statement {
            Statement::Begin => {
                self.saved = Some(self.tables.copy());
                Reply::Done
            },
            Statement::Commit => {
                if self.fail_commit {
                    self.fail_commit = false;
                    if let Some(saved) = self.saved.take() {
                        self.tables = saved;
                    }
                    return Reply::SqlFailed(SqlErrorKind::Other);
                }
                self.saved = None;
                Reply::Done
            },
            Statement::Rollback => {
                if let Some(saved) = self.saved.take() {
                    self.tables = saved;
                }
                Reply::Done
            },
            Statement::CreateInformationTable => {
                if self.information.is_some() {
                    Reply::SqlFailed(SqlErrorKind::TableAlreadyExists)
                } else {
                    Reply::Done
                }
            },
            Statement::InsertInformation { version, create_time } => {
                self.information = Some((version.to_string(), format!("@{create_time}")));
                Reply::Affected(2)
            },
            Statement::CreateSchema => Reply::Done,
            Statement::SelectVersion => {
                Reply::Text(self.information.as_ref().map(|(version, _)| version.clone()))
            },
            Statement::SelectCreateTime => {
                Reply::Text(self.information.as_ref().map(|(_, time)| time.clone()))
            },
            Statement::SelectLiveFileByHash { hash, now } => Reply::File(
                self.tables
                    .files
                    .iter()
                    .find(|row| row.hash == hash && row.is_live(now))
                    .map(copy_file_row),
            ),
            Statement::IncrementFileCount { id } => {
                match self.tables.files.iter_mut().find(|row| row.id == id) {
                    Some(row) => {
                        row.count += 1;
                        Reply::Affected(1)
                    },
                    None => Reply::Affected(0),
                }
            },
            Statement::InsertFile(row) => {
                if self.file(row.id).is_some() {
                    Reply::SqlFailed(SqlErrorKind::Other)
                } else {
                    self.tables.files.push(row);
                    Reply::Affected(1)
                }
            },
            Statement::TouchTemporaryFile { id, now } => {
                match self.tables.files.iter_mut().find(|row| row.id == id) {
                    Some(row) if row.is_temporary() && row.is_live(now) => {
                        row.expired_at = Some(now);
                        Reply::Affected(1)
                    },
                    _ => Reply::Affected(0),
                }
            },
            Statement::ExpireFile { id, now } => {
                match self.tables.files.iter_mut().find(|row| row.id == id) {
                    Some(row) => {
                        row.expired_at = Some(now);
                        Reply::Affected(1)
                    },
                    None => Reply::Affected(0),
                }
            },
            Statement::SelectReadableFile { id, now } => Reply::File(
                self.file(id)
                    .filter(|row| row.expired_at.is_none() || row.expired_at == Some(now))
                    .map(copy_file_row),
            ),
            Statement::SelectFileExists { id, now } => {
                Reply::Flag(self.file(id).map(|row| row.is_live(now)).unwrap_or(false))
            },
            Statement::SelectFileShared { id } => {
                Reply::Flag(self.file(id).map(|row| row.count > 1).unwrap_or(false))
            },
            Statement::DecrementFileCount { id } => {
                match self.tables.files.iter_mut().find(|row| row.id == id) {
                    Some(row) if row.count > 1 => {
                        row.count -= 1;
                        Reply::Affected(1)
                    },
                    _ => Reply::Affected(0),
                }
            },
            Statement::DeleteLastFile { id } => {
                if self.file(id).map(|row| row.count == 1).unwrap_or(false) {
                    if self.is_referenced(id) {
                        Reply::SqlFailed(SqlErrorKind::ForeignKeyRestricted)
                    } else {
                        self.tables.files.retain(|row| row.id != id);
                        Reply::Affected(1)
                    }
                } else {
                    Reply::Affected(0)
                }
            },
            Statement::SelectExpiredFileIds { now } => Reply::Ids(
                self.tables.files.iter().filter(|row| row.is_expired(now)).map(|row| row.id).collect(),
            ),
            Statement::CountFiles => Reply::Count(self.tables.files.len() as u64),
            Statement::SelectLiveFileIds { now, window } => {
                let mut rows: Vec<&FileRow> =
                    self.tables.files.iter().filter(|row| row.is_live(now)).collect();
                rows.sort_by(|a, b| b.created_at.cmp(&a.created_at).then(a.id.cmp(&b.id)));
                Reply::Ids(window_of(rows.iter().map(|row| row.id).collect(), window.limit, window.offset))
            },
            Statement::InsertResource(row) => {
                if self.fail_insert_resource {
                    self.fail_insert_resource = false;
                    return Reply::SqlFailed(SqlErrorKind::Other);
                }
                self.tables.resources.push(row);
                Reply::Affected(1)
            },
            Statement::SelectResourceExists { id, now } => Reply::Flag(
                self.tables.resources.iter().any(|r| {
                    r.id == id && self.file(r.file_id).map(|f| f.is_live(now)).unwrap_or(false)
                }),
            ),
            Statement::SelectResource { id, now } => Reply::Resource(
                self.tables
                    .resources
                    .iter()
                    .find(|r| {
                        r.id == id && self.file(r.file_id).map(|f| f.is_live(now)).unwrap_or(false)
                    })
                    .map(copy_resource_row),
            ),
            Statement::SelectResourceFile { id } => {
                Reply::Id(self.tables.resources.iter().find(|r| r.id == id).map(|r| r.file_id))
            },
            Statement::DeleteResource { id } => {
                let before = self.tables.resources.len();
                self.tables.resources.retain(|r| r.id != id);
                Reply::Affected((before - self.tables.resources.len()) as u64)
            },
            Statement::DeleteResourcesOfFile { file_id } => {
                let before = self.tables.resources.len();
                self.tables.resources.retain(|r| r.file_id != file_id);
                Reply::Affected((before - self.tables.resources.len()) as u64)
            },
            Statement::CountResources => Reply::Count(self.tables.resources.len() as u64),
            Statement::SelectResourceIds { window } => {
                let mut rows: Vec<&ResourceRow> = self.tables.resources.iter().collect();
                rows.sort_by(|a, b| b.created_at.cmp(&a.created_at).then(a.id.cmp(&b.id)));
                Reply::Ids(window_of(rows.iter().map(|row| row.id).collect(), window.limit, window.offset))
            },
            Statement::InsertImage(row) => {
                self.tables.images.push(row);
                Reply::Affected(1)
            },
            Statement::InsertThumbnails(links) => {
                let n = links.len() as u64;
                self.tables.links.extend(links);
                Reply::Affected(n)
            },
            Statement::SelectThumbnailFiles { image_id } => {
                let mut links: Vec<&ThumbnailLink> =
                    self.tables.links.iter().filter(|l| l.image_id == image_id).collect();
                links.sort_by(|a, b| a.multiplier.cmp(&b.multiplier).then(a.fallback.cmp(&b.fallback)));
                Reply::Ids(links.iter().map(|l| l.file_id).collect())
            },
            Statement::SelectImage { id } => {
                Reply::Image(self.tables.images.iter().find(|m| m.id == id).map(copy_image_row))
            },
            Statement::SelectImageExists { id } => {
                Reply::Flag(self.tables.images.iter().any(|m| m.id == id))
            },
            Statement::DeleteThumbnails { image_id } => {
                let before = self.tables.links.len();
                self.tables.links.retain(|l| l.image_id != image_id);
                Reply::Affected((before - self.tables.links.len()) as u64)
            },
            Statement::DeleteImage { id } => {
                let before = self.tables.images.len();
                self.tables.images.retain(|m| m.id != id);
                Reply::Affected((before - self.tables.images.len()) as u64)
            },
            Statement::CountImages => Reply::Count(self.tables.images.len() as u64),
            Statement::SelectImageIds { window } => {
                let mut rows: Vec<&ImageRow> = self.tables.images.iter().collect();
                rows.sort_by(|a, b| b.created_at.cmp(&a.created_at).then(a.id.cmp(&b.id)));
                Reply::Ids(window_of(rows.iter().map(|row| row.id).collect(), window.limit, window.offset))
            },
        }
    }

    fn sniff(&self, payload: &Payload) -> Option<String> {
        if !self.magic {
            return None;
        }
        let bytes = self.payload_bytes(payload)?;
        if bytes.starts_with(&PNG_SIGNATURE) {
            Some("image/png".to_string())
        } else {
            Some("application/octet-stream".to_string())
        }
    }

    fn file_operation(&mut self, operation: FileOperation) -> Reply {
        match operation {
            FileOperation::EnsureDirectory(_) => Reply::Done,
            FileOperation::Measure(path) => match self.disk.get(&path) {
                Some(bytes) => Reply::Size(bytes.len() as u64),
                None => Reply::IoFailed(IoErrorKind::NotFound),
            },
            FileOperation::Canonicalize(path) => {
                if self.disk.contains_key(&path) {
                    Reply::Text(Some(path))
                } else {
                    Reply::IoFailed(IoErrorKind::NotFound)
                }
            },
            FileOperation::Sniff(payload) => Reply::Text(self.sniff(&payload)),
            FileOperation::StoreBlob { id, payload } => match self.payload_bytes(&payload) {
                Some(bytes) => {
                    if let Payload::Staged(staged) = payload {
                        self.staged.remove(&staged);
                    }
                    self.blobs.insert(hex32(id), bytes);
                    Reply::Done
                },
                None => Reply::IoFailed(IoErrorKind::NotFound),
            },
            FileOperation::RemoveBlob { id } => match self.blobs.remove(&hex32(id)) {
                Some(_) => Reply::Done,
                None => Reply::IoFailed(IoErrorKind::NotFound),
            },
            FileOperation::RemoveStaged { id } => match self.staged.remove(&id) {
                Some(_) => Reply::Done,
                None => Reply::IoFailed(IoErrorKind::NotFound),
            },
            FileOperation::List(Directory::Files) => Reply::Entries(
                self.blobs
                    .keys()
                    .map(|name| DirectoryEntry { name: name.clone(), kind: EntryKind::File })
                    .collect(),
            ),
            FileOperation::List(Directory::Temporary) => Reply::Entries(Vec::new()),
            FileOperation::RemoveEntry { name, .. } | FileOperation::RemoveTree { name, .. } => {
                match self.blobs.remove(&name) {
                    Some(_) => Reply::Done,
                    None => Reply::IoFailed(IoErrorKind::NotFound),
                }
            },
            FileOperation::IsEmpty(_) => Reply::Flag(self.temporary_entries == 0),
            FileOperation::RemoveDirectory(Directory::Temporary) => {
                self.temporary_entries = 0;
                Reply::Done
            },
            FileOperation::RemoveDirectory(Directory::Files) => {
                self.blobs.clear();
                Reply::Done
            },
            FileOperation::ProbeEnvironment => {
                if self.environment_exists {
                    Reply::Entry(EntryKind::Directory)
                } else {
                    Reply::IoFailed(IoErrorKind::NotFound)
                }
            },
            FileOperation::CreateEnvironment => {
                self.environment_exists = true;
                Reply::Done
            },
            FileOperation::ProbeDatabase => {
                if self.database_exists {
                    Reply::Entry(EntryKind::File)
                } else {
                    Reply::IoFailed(IoErrorKind::NotFound)
                }
            },
            FileOperation::Connect { create_if_missing, .. } => {
                if self.database_exists || create_if_missing {
                    self.database_exists = true;
                    Reply::Done
                } else {
                    Reply::SqlFailed(SqlErrorKind::Other)
                }
            },
            FileOperation::Lock => {
                if self.locked_elsewhere {
                    Reply::IoFailed(IoErrorKind::WouldBlock)
                } else {
                    Reply::Done
                }
            },
            FileOperation::Disconnect => Reply::Done,
            FileOperation::RemoveDatabase => {
                if self.database_exists {
                    self.database_exists = false;
                    Reply::Done
                } else {
                    Reply::IoFailed(IoErrorKind::NotFound)
                }
            },
            FileOperation::IsEnvironmentEmpty => Reply::Flag(true),
            FileOperation::RemoveEnvironment => {
                self.environment_exists = false;
                Reply::Done
            },
        }
    }

    fn codec(&mut self, request: CodecRequest) -> Reply {
        let image = match &self.image {
            Some(image) => image,
            None => return Reply::CodecFailed,
        };
        match request {
            CodecRequest::Identify => Reply::Identified(ImageIdentity {
                width: image.width,
                height: image.height,
                format: image.format.clone(),
                has_alpha_channel: image.has_alpha_channel,
            }),
            CodecRequest::Crop => match self.cropped {
                Some((width, height)) => Reply::Identified(ImageIdentity {
                    width,
                    height,
                    format: image.format.clone(),
                    has_alpha_channel: image.has_alpha_channel,
                }),
                None => Reply::CodecFailed,
            },
            CodecRequest::Fit { width, height, max_width, max_height } => {
                let mut w = width as u32;
                let mut h = height as u32;
                if max_width > 0 && w > max_width as u32 {
                    h = h * max_width as u32 / w;
                    w = max_width as u32;
                }
                if max_height > 0 && h > max_height as u32 {
                    w = w * max_height as u32 / h;
                    h = max_height as u32;
                }
                if w == width as u32 && h == height as u32 {
                    Reply::Fitted(None)
                } else {
                    Reply::Fitted(Some((w as u16, h as u16)))
                }
            },
            CodecRequest::Encode { format, width, height } => {
                if self.fail_encode_at == Some(self.encoded) {
                    return Reply::CodecFailed;
                }
                self.encoded += 1;
                self.buffer = format!("{format:?} {width}x{height}").into_bytes();
                Reply::Encoded {
                    file_size: self.buffer.len() as u64,
                    hash: get_hash_by_buffer(&self.buffer),
                }
            },
        }
    }

    fn perform<R>(&mut self, step: Step<R>) -> Reply {
        match step {
            Step::Query(statement) => {
                self.steps.push(format!("{statement:?}"));
                self.query(statement)
            },
            Step::File(operation) => {
                self.steps.push(format!("{operation:?}"));
                self.file_operation(operation)
            },
            Step::Guard(request) => {
                self.steps.push(format!("{request:?}"));
                Reply::Flag(self.registry.perform(&request))
            },
            Step::Codec(request) => {
                self.steps.push(format!("{request:?}"));
                self.codec(request)
            },
            Step::Clock => Reply::Time(self.now),
            Step::Pause => {
                self.pauses += 1;
                Reply::Done
            },
            Step::Finish(_) => unreachable!(),
        }
    }

    /// Runs an operation until it ends, or until it has paused more often
    /// than `patience` allows.
    fn try_run<O: Operation>(
        &mut self,
        begun: (O, Step<O::Output>),
        patience: usize,
    ) -> Outcome<O::Output> {
        let (mut state, mut step) = begun;
        let limit = self.pauses + patience;
        loop {
            match step {
                Step::Finish(result) => return Outcome::Ended(result),
                other => {
                    if matches!(other, Step::Pause) && self.pauses >= limit {
                        return Outcome::Blocked;
                    }
                    let reply = self.perform(other);
                    let next = state.resume(reply);
                    state = next.0;
                    step = next.1;
                },
            }
        }
    }

    fn run<O: Operation>(&mut self, begun: (O, Step<O::Output>)) -> O::Output {
        match self.try_run(begun, 0) {
            Outcome::Ended(result) => result,
            Outcome::Blocked => panic!("the operation waits"),
        }
    }

    fn drop_file(&mut self, file: DatalithFile) {
        self.registry.perform(&GuardRequest::ReleaseOpen(file.id()));
    }

    fn drop_resource(&mut self, resource: DatalithResource) {
        self.drop_file(resource.into_file());
    }

    fn drop_image(&mut self, image: DatalithImage) {
        for id in image.pins() {
            self.registry.perform(&GuardRequest::ReleaseOpen(id));
        }
    }

    fn put_buffer(&mut self, data: &[u8], name: Option<&str>, temporary: bool) -> DatalithFile {
        self.buffer = data.to_vec();
        let label = FileLabel { file_name: name.map(|n| n.to_string()), file_type: None };
        let begun = if temporary {
            self.settings.put_file_by_buffer_temporarily(data, label)
        } else {
            self.settings.put_file_by_buffer(data, label)
        };
        self.run(begun).unwrap()
    }

    fn put_resource_buffer(&mut self, data: &[u8], name: Option<&str>, temporary: bool) -> DatalithResource {
        self.buffer = data.to_vec();
        let label = FileLabel { file_name: name.map(|n| n.to_string()), file_type: None };
        let begun = if temporary {
            self.settings.put_resource_by_buffer_temporarily(data, label)
        } else {
            self.settings.put_resource_by_buffer(data, label)
        };
        self.run(begun).unwrap()
    }

    fn get_file(&mut self, id: u128) -> Option<DatalithFile> {
        let begun = datalith::get_file::GetFile::begin(id, self.now);
        self.run(begun).unwrap()
    }

    fn delete_file(&mut self, id: u128) -> bool {
        let begun = self.settings.delete_file_by_id(id);
        self.run(begun).unwrap()
    }

    fn file_exists(&mut self, id: u128) -> bool {
        let begun = Ask::check_file_exist(id, self.now);
        self.run(begun).unwrap()
    }

    fn put_image(
        &mut self,
        data: &[u8],
        name: Option<&str>,
        max_width: Option<u16>,
        save_original_file: bool,
    ) -> Result<DatalithImage, DatalithImageWriteError> {
        self.buffer = data.to_vec();
        let options =
            ImageOptions { max_width, max_height: None, center_crop: false, save_original_file };
        let begun = self.settings.put_image_by_buffer(data, name.map(|n| n.to_string()), options);
        self.run_image(begun, data)
    }

    /// Runs a put of an image: the buffer of the driver holds the image
    /// whenever the file of the image is put as it is.
    fn run_image<O: Operation>(&mut self, begun: (O, Step<O::Output>), data: &[u8]) -> O::Output {
        let (mut state, mut step) = begun;
        loop {
            match step {
                Step::Finish(result) => return result,
                other => {
                    if matches!(other, Step::Codec(CodecRequest::Identify)) {
                        self.buffer = data.to_vec();
                    }
                    let reply = self.perform(other);
                    let next = state.resume(reply);
                    state = next.0;
                    step = next.1;
                },
            }
        }
    }
}

fn window_of(ids: Vec<u128>, limit: u64, offset: u64) -> Vec<u128> {
    let rest: Vec<u128> = ids.into_iter().skip(offset as usize).collect();
    if limit == 0 {
        rest
    } else {
        rest.into_iter().take(limit as usize).collect()
    }
}

fn png(width: u32, height: u32) -> FakeImage {
    FakeImage { width, height, format: "PNG".to_string(), has_alpha_channel: true }
}

#[test]
fn initialize() {
    let mut store = Store::new();
    store.now = 1_444;
    let opened = store.run(OpenStore::begin()).unwrap();
    assert_eq!(opened, Opened { version: 1, create_time: 1_444 });
    assert!(store.environment_exists);
    assert!(store.database_exists);
    let manager = datalith::manager::DatalithManager::new(Datalith::new("env".to_string(), opened));
    assert_eq!(manager.jobs().len(), 2);
    assert_eq!(store.run(DropStore::begin()), Ok(()));
    assert!(!store.database_exists);
    assert!(!store.environment_exists);
}

#[test]
fn dropping_the_database_leaves_the_blobs() {
    let mut store = Store::new();
    let opened = store.run(OpenStore::begin()).unwrap();
    let settings = Datalith::new("env".to_string(), opened);
    store.buffer = b"kept".to_vec();
    let label = FileLabel { file_name: None, file_type: None };
    let begun = store.settings.put_file_by_buffer(b"kept", label);
    assert!(store.run(begun).is_ok());
    assert_eq!(store.blobs.len(), 1);
    assert_eq!(store.run(settings.drop_database()), Ok(()));
    assert!(!store.database_exists);
    assert_eq!(store.blobs.len(), 1);
    let settings = Datalith::new("env".to_string(), opened);
    assert_eq!(store.run(settings.drop_datalith()), Ok(()));
    assert!(store.blobs.is_empty());
}

#[test]
fn open_reads_the_information_of_an_old_database() {
    let mut store = Store::new();
    store.environment_exists = true;
    store.database_exists = true;
    store.information = Some(("1".to_string(), "1970-01-01T00:00:01.444+00:00".to_string()));
    store.temporary_entries = 3;
    let opened = store.run(OpenStore::begin_with(4)).unwrap();
    assert_eq!(opened, Opened { version: 1, create_time: 1_444 });
    assert_eq!(store.temporary_entries, 0);
    assert!(store.steps.iter().any(|s| s.contains("max_connections: 40")));
}

#[test]
fn second_open_fails_already_running() {
    let mut store = Store::new();
    store.locked_elsewhere = true;
    assert_eq!(store.run(OpenStore::begin()), Err(DatalithCreateError::AlreadyRun));
}

#[test]
fn open_refuses_a_newer_database() {
    let mut store = Store::new();
    store.environment_exists = true;
    store.database_exists = true;
    store.information = Some(("2".to_string(), "1970-01-01T00:00:00+00:00".to_string()));
    assert_eq!(
        store.run(OpenStore::begin()),
        Err(DatalithCreateError::DatabaseTooNewError { app_db_version: 1, current_db_version: 2 })
    );
    store.information = Some(("0".to_string(), "1970-01-01T00:00:00+00:00".to_string()));
    assert_eq!(
        store.run(OpenStore::begin()),
        Err(DatalithCreateError::DatabaseTooOldError { app_db_version: 1, current_db_version: 0 })
    );
}

#[test]
fn upload_download_data() {
    let mut store = Store::new();
    let image = image_data();

    let first = store.put_buffer(&image, Some("image.png"), false);
    assert!(first.is_new());
    assert!(!first.is_temporary());
    assert_eq!(first.file_size(), IMAGE_SIZE);
    assert_eq!(first.file_name(), "image.png");
    assert_eq!(first.created_at(), store.now);
    let id = first.id();

    let second = store.put_buffer(&image, Some("image.png"), false);
    assert_eq!(second.id(), id);
    assert!(!second.is_new());
    assert_eq!(store.count_of(id), Some(2));
    assert_eq!(store.blobs.get(&hex32(id)), Some(&image));

    let page = store.run(store.settings.list_file_ids(PaginationOptions::new())).unwrap();
    assert_eq!(page.ids, vec![id]);
    assert_eq!(page.pagination.total_items, 1);

    let read = store.get_file(id).unwrap();
    assert_eq!(read.id(), id);
    assert!(!read.is_new());
    assert_eq!(store.blobs.get(&hex32(read.id())), Some(&image));
    store.drop_file(read);

    // The file has two holders: the delete does not wait for the handles.
    assert!(store.delete_file(id));
    assert_eq!(store.count_of(id), Some(1));
    assert!(store.blobs.contains_key(&hex32(id)));

    store.drop_file(first);
    store.drop_file(second);
    assert!(store.delete_file(id));
    assert_eq!(store.count_of(id), None);
    assert!(!store.blobs.contains_key(&hex32(id)));
    assert!(!store.delete_file(id));
    assert!(store.get_file(id).is_none());
}

#[test]
fn a_temporary_file_is_read_once() {
    let mut store = Store::new();
    let file = store.put_buffer(b"Hello world!", Some("plain.txt"), true);
    assert!(file.is_temporary());
    assert!(file.is_new());
    let id = file.id();
    store.drop_file(file);
    assert_eq!(store.file(id).unwrap().expired_at, Some(store.now + 60_000));

    store.now += 5;
    let read = store.get_file(id).unwrap();
    assert!(read.is_temporary());
    assert_eq!(store.file(id).unwrap().expired_at, Some(store.now));
    store.drop_file(read);

    store.now += 1;
    assert!(store.get_file(id).is_none());
    assert!(!store.file_exists(id));
}

#[test]
fn parallel_and_temporary() {
    let mut store = Store::new();
    let image = image_data();

    let temporary_1 = store.put_buffer(&image, Some("image.png"), true);
    let permanent_1 = store.put_buffer(&image, Some("image.png"), false);
    let temporary_2 = store.put_buffer(&image, Some("image.png"), true);
    let permanent_2 = store.put_buffer(&image, Some("image.png"), false);

    assert_ne!(temporary_1.id(), temporary_2.id());
    assert_ne!(temporary_1.id(), permanent_1.id());
    assert_eq!(permanent_1.id(), permanent_2.id());
    assert_eq!(store.tables.files.len(), 3);
    assert_eq!(store.count_of(permanent_1.id()), Some(2));
    assert_eq!(store.count_of(temporary_1.id()), Some(1));

    // While the handles are held, the deletes of the temporary files wait.
    let id_1 = temporary_1.id();
    let id_2 = temporary_2.id();
    assert!(matches!(
        store.try_run(store.settings.delete_file_by_id(id_1), 30),
        Outcome::Blocked
    ));
    store.registry.perform(&GuardRequest::ReleaseDelete(id_1));
    assert!(store.file(id_1).is_some());
    assert!(store.blobs.contains_key(&hex32(id_1)));

    store.drop_file(temporary_1);
    store.drop_file(temporary_2);
    assert!(store.delete_file(id_1));
    assert!(store.delete_file(id_2));
    assert_eq!(store.tables.files.len(), 1);

    store.drop_file(permanent_1);
    store.drop_file(permanent_2);
}

#[test]
fn a_put_in_flight_makes_another_put_of_the_payload_wait() {
    let mut store = Store::new();
    let data = b"same payload".to_vec();
    let hash = get_hash_by_buffer(&data);
    assert!(store.registry.perform(&GuardRequest::AcquirePut(hash)));
    store.buffer = data.clone();
    let label = FileLabel { file_name: None, file_type: None };
    assert!(matches!(
        store.try_run(store.settings.put_file_by_buffer(&data, label), 5),
        Outcome::Blocked
    ));
    assert!(store.tables.files.is_empty());
    store.registry.perform(&GuardRequest::ReleasePut(hash));
    let file = store.put_buffer(&data, None, false);
    assert!(file.is_new());
    // The guard is given back: the payload can be put again at once.
    let again = store.put_buffer(&data, None, false);
    assert_eq!(again.id(), file.id());
}

#[test]
fn auto_file_extension() {
    let image = image_data();
    for magic in [false, true] {
        for temporary in [true, false] {
            let mut store = Store::new();
            store.magic = magic;
            let file = store.put_buffer(&image, Some("MagicLen"), temporary);
            if magic {
                assert_eq!(file.file_type().essence, "image/png");
                assert_eq!(file.file_name(), "MagicLen.png");
            } else {
                assert_eq!(file.file_type().essence, "application/octet-stream");
                assert_eq!(file.file_name(), "MagicLen.bin");
            }
            let id = file.id();
            store.drop_file(file);
            assert!(store.delete_file(id));
        }
    }

    // A payload at a path is typed by the extension of the path where no
    // magic database is at hand.
    for temporary in [true, false] {
        let mut store = Store::new();
        store.disk.insert("/data/image.png".to_string(), image.clone());
        let label = FileLabel { file_name: Some("MagicLen".to_string()), file_type: None };
        let begun = if temporary {
            store.settings.put_file_by_path_temporarily("/data/image.png".to_string(), label)
        } else {
            store.settings.put_file_by_path(
                "/data/image.png".to_string(),
                get_hash_by_buffer(&image),
                label,
            )
        };
        let file = store.run(begun).unwrap();
        assert_eq!(file.file_type().essence, "image/png");
        assert_eq!(file.file_name(), "MagicLen.png");
        assert_eq!(file.file_size(), IMAGE_SIZE);
        assert_eq!(store.blobs.get(&hex32(file.id())), Some(&image));
        let id = file.id();
        store.drop_file(file);
        assert!(store.delete_file(id));
    }

    // A payload that was taken in from a reader is not typed by a path.
    for temporary in [true, false] {
        let mut store = Store::new();
        store.staged.insert(7, image.clone());
        let label = FileLabel { file_name: Some("MagicLen".to_string()), file_type: None };
        let begun = if temporary {
            store.settings.put_file_by_reader_temporarily(7, IMAGE_SIZE, label)
        } else {
            store.settings.put_file_by_reader(7, IMAGE_SIZE, get_hash_by_buffer(&image), label)
        };
        let file = store.run(begun).unwrap();
        assert_eq!(file.file_name(), "MagicLen.bin");
        assert!(store.staged.is_empty());
        assert_eq!(store.blobs.get(&hex32(file.id())), Some(&image));
        let id = file.id();
        store.drop_file(file);
        assert!(store.delete_file(id));
    }
}

#[test]
fn a_path_without_a_name_keeps_its_file_name() {
    let mut store = Store::new();
    store.disk.insert("/data/report".to_string(), b"abc".to_vec());
    let label = FileLabel { file_name: None, file_type: None };
    let file = store
        .run(store.settings.put_file_by_path(
            "/data/report".to_string(),
            get_hash_by_buffer(b"abc"),
            label,
        ))
        .unwrap();
    assert_eq!(file.file_name(), "report");
    assert_eq!(file.file_size(), 3);
}

#[test]
fn an_exact_match_that_fails_is_refused() {
    let mut store = Store::new();
    store.magic = true;
    let data = image_data();
    store.buffer = data.clone();
    let label = FileLabel {
        file_name: Some("image".to_string()),
        file_type: Some((MediaType::from_text("image/jpeg").unwrap(), FileTypeLevel::ExactMatch)),
    };
    let result = store.run(store.settings.put_file_by_buffer(&data, label));
    match result {
        Err(DatalithWriteError::FileTypeInvalid { file_type, expected_file_type }) => {
            assert_eq!(file_type.essence, "image/png");
            assert_eq!(expected_file_type.essence, "image/jpeg");
        },
        other => panic!("{other:?}"),
    }
    assert!(store.tables.files.is_empty());
    assert!(store.blobs.is_empty());
    // The guard on the hash is given back.
    assert!(store.registry.perform(&GuardRequest::AcquirePut(get_hash_by_buffer(&data))));
}

#[test]
fn a_commit_that_fails_leaves_no_row() {
    let mut store = Store::new();
    let data = b"payload".to_vec();
    store.buffer = data.clone();
    store.fail_commit = true;
    let label = FileLabel { file_name: None, file_type: None };
    let result = store.run(store.settings.put_file_by_buffer(&data, label));
    assert!(matches!(result, Err(DatalithWriteError::SQLError(SqlErrorKind::Other))));
    assert!(store.tables.files.is_empty());
    // The blob is left for the sweep of the blob directory.
    assert_eq!(store.blobs.len(), 1);
    assert_eq!(store.run(store.settings.clear_untracked_files()), Ok(1));
    assert!(store.blobs.is_empty());
}

#[test]
fn clear_expired_files() {
    let mut store = Store::new();
    store.settings.set_temporary_file_lifespan(2_000);
    let image = image_data();

    let file = store.put_buffer(&image, Some("image.png"), true);
    let file_id = file.id();
    store.drop_file(file);

    store.now += 500;
    let begun = datalith::sweep::ClearExpired::begin(store.now, 500);
    assert_eq!(store.run(begun), Ok(0));
    assert!(store.file_exists(file_id));

    store.now += 2_000;
    let begun = datalith::sweep::ClearExpired::begin(store.now, 500);
    assert_eq!(store.run(begun), Ok(1));
    assert!(!store.file_exists(file_id));
    assert!(store.tables.files.is_empty());
    assert!(store.blobs.is_empty());
}

#[test]
fn the_sweep_of_expired_files_gives_up_a_delete_that_waits() {
    let mut store = Store::new();
    store.settings.set_temporary_file_lifespan(100);
    let file = store.put_buffer(b"abc", None, true);
    let id = file.id();
    store.now += 1_000;
    // The handle is held: the delete waits for 30 milliseconds and is given up.
    let begun = datalith::sweep::ClearExpired::begin(store.now, 30);
    assert!(matches!(store.try_run(begun, 10), Outcome::Ended(Ok(0))));
    assert_eq!(store.pauses, 3);
    assert!(store.file(id).is_some());
    // The file is no longer entered in the set of files being deleted.
    assert!(store.registry.perform(&GuardRequest::AcquireDelete(id)));
    store.registry.perform(&GuardRequest::ReleaseDelete(id));
    store.drop_file(file);
    let begun = datalith::sweep::ClearExpired::begin(store.now, 30);
    assert_eq!(store.run(begun), Ok(1));
}

#[test]
fn clear_untracked_files() {
    let mut store = Store::new();
    let image = image_data();

    let file_1 = store.put_buffer(&image, Some("image.png"), true);
    let id_1 = file_1.id();
    store.drop_file(file_1);
    let file_2 = store.put_buffer(&image, Some("image.png"), false);
    let id_2 = file_2.id();
    store.drop_file(file_2);

    assert_eq!(store.run(store.settings.clear_untracked_files()), Ok(0));

    store.blobs.insert("hello.txt".to_string(), b"Hello world!".to_vec());
    store.blobs.insert("70b7c850506e4fa98a4a713aca21f594".to_string(), b"Hello world!".to_vec());

    assert_eq!(store.run(store.settings.clear_untracked_files()), Ok(2));

    assert!(!store.blobs.contains_key("hello.txt"));
    assert!(!store.blobs.contains_key("70b7c850506e4fa98a4a713aca21f594"));
    assert!(store.file_exists(id_1));
    assert!(store.file_exists(id_2));
    assert!(store.blobs.contains_key(&hex32(id_1)));
    assert!(store.blobs.contains_key(&hex32(id_2)));
}

#[test]
fn the_sweep_of_the_blob_directory_spares_a_pinned_blob() {
    let mut store = Store::new();
    store.blobs.insert(hex32(9), b"orphan".to_vec());
    assert!(store.registry.perform(&GuardRequest::AcquireOpen(9)));
    assert_eq!(store.run(store.settings.clear_untracked_files()), Ok(0));
    assert!(store.blobs.contains_key(&hex32(9)));
    store.registry.perform(&GuardRequest::ReleaseOpen(9));
    assert_eq!(store.run(store.settings.clear_untracked_files()), Ok(1));
    assert!(store.blobs.is_empty());
}

#[test]
fn resource_upload_download_data() {
    let mut store = Store::new();
    let image = image_data();

    let first = store.put_resource_buffer(&image, Some("image.png"), false);
    assert_eq!(first.file_name(), "image.png");
    assert_eq!(first.created_at(), store.now);
    assert!(first.file().is_new());
    let file_id = first.file().id();

    store.now += 10;
    let second = store.put_resource_buffer(&image, Some("picture"), false);
    assert_ne!(second.id(), first.id());
    assert_eq!(second.file().id(), file_id);
    assert!(!second.file().is_new());
    // The resource is labelled anew; the file keeps its name.
    assert_eq!(second.file_name(), "picture.bin");
    assert_eq!(second.created_at(), store.now);
    assert_eq!(second.file().file_name(), "image.png");
    assert_eq!(store.count_of(file_id), Some(2));
    assert_eq!(store.tables.resources.len(), 2);

    let page = store.run(store.settings.list_resource_ids(PaginationOptions::new())).unwrap();
    assert_eq!(page.ids, vec![second.id(), first.id()]);

    let first_id = first.id();
    let second_id = second.id();
    store.drop_resource(first);
    store.drop_resource(second);

    let got = store.run(store.settings.get_resource_by_id(first_id)).unwrap().unwrap();
    assert_eq!(got.id(), first_id);
    assert_eq!(got.file().id(), file_id);
    store.drop_resource(got);

    // A file that a resource names cannot be deleted for good.
    assert!(store.delete_file(file_id));
    assert_eq!(store.count_of(file_id), Some(1));
    assert!(!store.delete_file(file_id));
    assert!(store.file(file_id).is_some());
    assert!(store.blobs.contains_key(&hex32(file_id)));
    // Put the holder back that the delete above took.
    store.query(Statement::IncrementFileCount { id: file_id });

    assert_eq!(store.run(store.settings.delete_resource_by_id(first_id)), Ok(true));
    assert_eq!(store.count_of(file_id), Some(1));
    assert_eq!(store.run(store.settings.delete_resource_by_id(first_id)), Ok(false));
    assert_eq!(store.run(store.settings.delete_resource_by_id(second_id)), Ok(true));
    assert!(store.tables.files.is_empty());
    assert!(store.tables.resources.is_empty());
    assert!(store.blobs.is_empty());
    assert!(store.run(store.settings.get_resource_by_id(second_id)).unwrap().is_none());
}

#[test]
fn resource_parallel_and_temporary() {
    let mut store = Store::new();
    let image = image_data();
    let temporary_1 = store.put_resource_buffer(&image, Some("image.png"), true);
    let permanent_1 = store.put_resource_buffer(&image, Some("image.png"), false);
    let temporary_2 = store.put_resource_buffer(&image, Some("image.png"), true);
    let permanent_2 = store.put_resource_buffer(&image, Some("image.png"), false);
    assert!(temporary_1.is_temporary());
    assert!(!permanent_1.is_temporary());
    assert_ne!(temporary_1.file().id(), temporary_2.file().id());
    assert_eq!(permanent_1.file().id(), permanent_2.file().id());
    assert_ne!(permanent_1.id(), permanent_2.id());
    assert_eq!(store.tables.files.len(), 3);
    assert_eq!(store.tables.resources.len(), 4);

    let id = temporary_1.id();
    assert!(matches!(
        store.try_run(store.settings.delete_resource_by_id(id), 10),
        Outcome::Blocked
    ));
    store.registry.perform(&GuardRequest::ReleaseDelete(temporary_1.file().id()));
    store.drop_resource(temporary_1);
    assert_eq!(store.run(store.settings.delete_resource_by_id(id)), Ok(true));
    assert_eq!(store.tables.files.len(), 2);

    store.drop_resource(temporary_2);
    store.drop_resource(permanent_1);
    store.drop_resource(permanent_2);
}

#[test]
fn a_resource_that_cannot_be_recorded_gives_its_file_back() {
    let mut store = Store::new();
    let data = b"payload".to_vec();
    store.buffer = data.clone();
    store.fail_insert_resource = true;
    let label = FileLabel { file_name: None, file_type: None };
    let result = store.run(store.settings.put_resource_by_buffer(&data, label));
    assert!(matches!(result, Err(DatalithWriteError::SQLError(SqlErrorKind::Other))));
    assert!(store.tables.files.is_empty());
    assert!(store.blobs.is_empty());
    assert!(!store.registry.is_opening(0));
}

#[test]
fn image_upload_download_data() {
    let mut store = Store::new();
    store.magic = true;
    store.image = Some(png(32, 32));
    let data = image_data();

    let image = store.put_image(&data, Some("image.png"), Some(32), true).unwrap();
    assert_eq!(image.image_width(), 32);
    assert_eq!(image.image_height(), 32);
    assert!(image.has_alpha_channel());
    assert_eq!(image.image_stem(), "image");
    // The image as it was put is 32 pixels wide: only multiplier one fits.
    assert_eq!(image.thumbnails().len(), 1);
    assert_eq!(image.fallback_thumbnails().len(), 1);
    assert_eq!(image.thumbnails()[0].file_name(), "image@1x.webp");
    assert_eq!(image.thumbnails()[0].file_type().essence, "image/webp");
    assert_eq!(image.fallback_thumbnails()[0].file_name(), "image_1x.png");
    assert_eq!(image.fallback_thumbnails()[0].file_type().essence, "image/png");
    let original = image.original_file().unwrap();
    assert_eq!(original.file_name(), "image.png");
    assert_eq!(original.file_type().essence, "image/png");
    assert_eq!(original.file_size(), IMAGE_SIZE);
    assert_eq!(store.tables.files.len(), 3);
    assert_eq!(store.tables.links.len(), 2);
    assert_eq!(store.tables.images.len(), 1);

    let id = image.id();
    store.drop_image(image);

    // Put the image again: every file is shared.
    let again = store.put_image(&data, Some("image.png"), Some(32), true).unwrap();
    assert_ne!(again.id(), id);
    assert_eq!(store.tables.files.len(), 3);
    assert!(store.tables.files.iter().all(|row| row.count == 2));
    let again_id = again.id();
    store.drop_image(again);

    let got = store.run(store.settings.get_image_by_id(id)).unwrap().unwrap();
    assert_eq!(got.image_stem(), "image");
    assert_eq!(got.thumbnails().len(), 1);
    assert!(got.original_file().is_some());
    store.drop_image(got);

    assert_eq!(store.run(store.settings.delete_image_by_id(id)), Ok(true));
    assert_eq!(store.tables.files.len(), 3);
    assert!(store.tables.files.iter().all(|row| row.count == 1));
    assert_eq!(store.run(store.settings.delete_image_by_id(id)), Ok(false));
    assert_eq!(store.run(store.settings.delete_image_by_id(again_id)), Ok(true));
    assert!(store.tables.files.is_empty());
    assert!(store.tables.links.is_empty());
    assert!(store.tables.images.is_empty());
    assert!(store.blobs.is_empty());
    assert!(store.run(store.settings.get_image_by_id(id)).unwrap().is_none());
}

#[test]
fn an_image_that_is_put_and_deleted_leaves_the_files_that_were() {
    let mut store = Store::new();
    store.image = Some(png(64, 64));
    store.buffer = b"other".to_vec();
    let label = FileLabel { file_name: None, file_type: None };
    let begun = store.settings.put_file_by_buffer(b"other", label);
    let other = store.run(begun).unwrap();
    store.drop_file(other);
    let data = image_data();

    let image = store.put_image(&data, Some("image.png"), Some(32), true).unwrap();
    // The image at 32 pixels fits twice into the image as it was put.
    assert_eq!(image.thumbnails().len(), 2);
    assert_eq!(store.tables.files.len(), 6);
    let id = image.id();
    store.drop_image(image);

    assert_eq!(store.run(store.settings.delete_image_by_id(id)), Ok(true));
    assert_eq!(store.tables.files.len(), 1);
    assert_eq!(store.blobs.len(), 1);
    assert!(store.tables.links.is_empty());
    assert!(store.tables.images.is_empty());
}

#[test]
fn image_parallel() {
    let mut store = Store::new();
    store.magic = true;
    store.image = Some(png(64, 64));
    let data = image_data();

    // The image is 64 pixels wide and is shown at 32: multipliers one and two
    // fit, three does not.
    let image = store.put_image(&data, Some("image.png"), Some(32), false).unwrap();
    assert_eq!(image.image_width(), 32);
    assert_eq!(image.image_height(), 32);
    assert_eq!(image.thumbnails().len(), 2);
    assert_eq!(image.fallback_thumbnails().len(), 2);
    assert!(image.original_file().is_none());
    assert_eq!(image.thumbnails()[1].file_name(), "image@2x.webp");
    assert_eq!(image.fallback_thumbnails()[1].file_name(), "image_2x.png");
    assert!(store.steps.iter().any(|s| s.contains("Encode { format: Webp, width: 64, height: 64 }")));
    assert_eq!(store.tables.files.len(), 4);
    let id = image.id();

    // While the handle is held, the delete of the image waits.
    assert!(matches!(
        store.try_run(store.settings.delete_image_by_id(id), 10),
        Outcome::Blocked
    ));
    assert_eq!(store.tables.images.len(), 1);
    store.registry.perform(&GuardRequest::ReleaseDeleteAll(image.pins()));
    store.drop_image(image);
    assert_eq!(store.run(store.settings.delete_image_by_id(id)), Ok(true));
    assert!(store.tables.files.is_empty());
    assert!(store.blobs.is_empty());

    // With a cap of one multiplier only one pair of thumbnails is written.
    store.settings.set_max_image_resolution_multiplier(1);
    let image = store.put_image(&data, Some("image.png"), Some(32), false).unwrap();
    assert_eq!(image.thumbnails().len(), 1);
    store.drop_image(image);
}

#[test]
fn image_auto_file_extension() {
    let mut store = Store::new();
    store.image = Some(png(32, 32));
    let data = image_data();
    let image = store.put_image(&data, Some("MagicLen"), Some(32), true).unwrap();
    let original = image.original_file().unwrap();
    assert_eq!(original.file_type().essence, "image/png");
    assert_eq!(original.file_name(), "MagicLen.png");
    assert_eq!(image.image_stem(), "MagicLen");
    assert_eq!(image.thumbnails()[0].file_name(), "MagicLen@1x.webp");
    store.drop_image(image);
}

#[test]
fn an_image_that_is_too_big_or_no_image_is_refused() {
    let mut store = Store::new();
    let data = image_data();
    assert!(matches!(
        store.put_image(&data, None, None, true),
        Err(DatalithImageWriteError::UnsupportedImageType)
    ));
    store.image = Some(png(70_000, 10));
    assert!(matches!(
        store.put_image(&data, None, None, true),
        Err(DatalithImageWriteError::ResolutionTooBig)
    ));
    store.image = Some(png(10_000, 10_000));
    assert!(matches!(
        store.put_image(&data, None, None, true),
        Err(DatalithImageWriteError::ResolutionTooBig)
    ));
    store.settings.set_max_image_resolution(100_000_000);
    store.settings.set_max_image_resolution_multiplier(1);
    assert!(store.put_image(&data, None, None, false).is_ok());
}

#[test]
fn an_image_whose_thumbnail_fails_leaves_no_file() {
    let mut store = Store::new();
    store.image = Some(png(64, 64));
    store.fail_encode_at = Some(2);
    let data = image_data();
    let result = store.put_image(&data, Some("image.png"), Some(32), true);
    assert!(matches!(result, Err(DatalithImageWriteError::MagickError)));
    assert!(store.tables.files.is_empty());
    assert!(store.tables.images.is_empty());
    assert!(store.blobs.is_empty());
}

#[test]
fn put_image_by_resource() {
    let mut store = Store::new();
    store.magic = true;
    store.image = Some(png(32, 32));
    let data = image_data();
    let resource = store.put_resource_buffer(&data, Some("image.png"), false);
    let file_id = resource.file().id();

    store.staged.insert(11, data.clone());
    let options =
        ImageOptions { max_width: Some(32), max_height: None, center_crop: false, save_original_file: false };
    let begun =
        store.settings.put_image_by_resource(&resource, 11, get_hash_by_buffer(&data), options);
    let image = store.run_image(begun, &data).unwrap();
    assert_eq!(image.image_stem(), "image");
    assert_eq!(image.image_width(), 32);
    assert_eq!(image.image_height(), 32);
    assert!(image.has_alpha_channel());
    // The file of the resource is the file of the image as it was put.
    assert_eq!(image.original_file().unwrap().id(), file_id);
    assert_eq!(store.count_of(file_id), Some(2));
    assert_eq!(store.tables.resources.len(), 1);
    store.drop_image(image);
    store.drop_resource(resource);
}

#[test]
fn convert_resource_to_image() {
    let mut store = Store::new();
    store.magic = true;
    store.image = Some(png(32, 32));
    let data = image_data();
    let resource = store.put_resource_buffer(&data, Some("image.png"), false);
    let resource_id = resource.id();
    let file_id = resource.file().id();

    store.staged.insert(11, data.clone());
    let options =
        ImageOptions { max_width: Some(32), max_height: None, center_crop: false, save_original_file: false };
    let begun =
        store.settings.convert_resource_to_image(resource, 11, get_hash_by_buffer(&data), options);
    let image = store.run_image(begun, &data).unwrap();
    assert_eq!(image.image_stem(), "image");
    assert_eq!(image.original_file().unwrap().id(), file_id);
    // The resource is gone, and the file has the image as its only holder.
    assert!(store.tables.resources.is_empty());
    assert_eq!(store.count_of(file_id), Some(1));
    assert!(!store.run(Ask::check_resource_exist(resource_id, store.now)).unwrap());
    assert!(store.run(Ask::check_image_exist(image.id())).unwrap());
    store.drop_image(image);
}

#[test]
fn etag_304() {
    let mut store = Store::new();
    let data = image_data();
    let resource = store.put_resource_buffer(&data, Some("image.png"), false);
    let id = resource.id();
    store.drop_resource(resource);

    let none = EtagIfNoneMatch { any: false, etags: Vec::new() };
    let first = store.run(FetchResource::from_resource_id(&none, id, false, store.now));
    assert_eq!(datalith::http::fetch_status(&first), 200);
    let response = first.unwrap().unwrap();
    let data = response.data.unwrap();
    let headers = datalith::http::response_headers(&data);
    let etag = headers.iter().find(|h| h.name == "etag").unwrap().value.clone();
    assert_eq!(etag, format!("W/\"{}\"", hex32(id)));
    store.drop_file(data.file);

    let before = store.steps.len();
    let tags = EtagIfNoneMatch { any: false, etags: vec![hex32(id)] };
    let second = store.run(FetchResource::from_resource_id(&tags, id, false, store.now));
    assert_eq!(datalith::http::fetch_status(&second), 304);
    assert!(second.unwrap().unwrap().data.is_none());
    // Nothing was looked up.
    assert_eq!(store.steps.len(), before);

    let other = EtagIfNoneMatch { any: false, etags: vec![hex32(id + 1)] };
    let third = store.run(FetchResource::from_resource_id(&other, id, false, store.now));
    assert_eq!(datalith::http::fetch_status(&third), 200);
    let missing = store.run(FetchResource::from_resource_id(&none, id + 1, false, store.now));
    assert_eq!(datalith::http::fetch_status(&missing), 404);
}

#[test]
fn an_image_is_fetched_at_the_multiplier_asked_for() {
    let mut store = Store::new();
    store.image = Some(png(64, 64));
    let data = image_data();
    let image = store.put_image(&data, Some("image.png"), Some(32), true).unwrap();
    let id = image.id();
    let ids: Vec<u128> = image.thumbnails().iter().map(|f| f.id()).collect();
    let fallback_ids: Vec<u128> = image.fallback_thumbnails().iter().map(|f| f.id()).collect();
    let original_id = image.original_file().unwrap().id();
    store.drop_image(image);
    let none = EtagIfNoneMatch { any: false, etags: Vec::new() };

    let data_of = |store: &mut Store, resolution, fallback| {
        let response = store
            .run(FetchImage::from_image_id(&none, id, resolution, fallback, false))
            .unwrap()
            .unwrap();
        response.data.unwrap()
    };

    let one = data_of(&mut store, None, false);
    assert_eq!(one.file.id(), ids[0]);
    assert_eq!(one.file_name, "image@1x.webp");
    assert_eq!(one.file_type.essence, "image/webp");
    assert_eq!(one.image_size, Some((32, 32)));
    store.drop_file(one.file);
    // Every pin but that of the file picked is released.
    assert!(!store.registry.is_opening(ids[1]));
    assert!(!store.registry.is_opening(original_id));
    assert!(!store.registry.is_opening(ids[0]));

    let two = data_of(&mut store, Some(ResolutionType::Multiplier(2)), true);
    assert_eq!(two.file.id(), fallback_ids[1]);
    assert_eq!(two.file_name, "image@2x.png");
    assert_eq!(two.image_size, Some((64, 64)));
    store.drop_file(two.file);

    // A multiplier beyond the largest is brought down to it.
    let nine = data_of(&mut store, Some(ResolutionType::Multiplier(9)), false);
    assert_eq!(nine.file.id(), ids[1]);
    store.drop_file(nine.file);

    let original = data_of(&mut store, Some(ResolutionType::Original), false);
    assert_eq!(original.file.id(), original_id);
    assert_eq!(original.file_name, "image.png");
    assert_eq!(original.image_size, None);
    store.drop_file(original.file);

    let any = EtagIfNoneMatch { any: true, etags: Vec::new() };
    let not_modified =
        store.run(FetchImage::from_image_id(&any, id, None, false, false)).unwrap().unwrap();
    assert!(not_modified.data.is_none());
}
