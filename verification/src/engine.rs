//! The operations of a store, begun with what only the moment can give:
//! the time, fresh identifiers and random hashes.

use vstd::prelude::*;
use crate::ask::Ask;
use crate::datalith::Datalith;
use crate::datalith::DatalithView;
use crate::datalith_errors::DatalithReadError;
use crate::delete_file::DeleteFile;
use crate::functions::get_current_timestamp;
use crate::functions::get_hash_by_buffer;
use crate::functions::get_random_hash;
use crate::functions::is_random_id;
use crate::functions::new_id;
use crate::functions::sha256;
use crate::functions::FileHash;
use crate::functions::declared_view;
use crate::get_file::found_file_view;
use crate::get_file::GetFile;
use crate::image_ops::convert_turn_is;
use crate::image_ops::delete_image_turn_is;
use crate::image_ops::get_image_turn_is;
use crate::image_ops::ConvertNext;
use crate::image_ops::ConvertResource;
use crate::image_ops::ConvertResourceView;
use crate::image_ops::DeleteImage;
use crate::image_ops::DeleteImageNext;
use crate::image_ops::DeleteImageView;
use crate::image_ops::GetImage;
use crate::image_ops::GetImageNext;
use crate::image_ops::GetImageView;
use crate::ingest::Ingest;
use crate::ingest::IngestStep;
use crate::ingest::IngestStepView;
use crate::ingest::IngestView;
use crate::listing::list_turn_is;
use crate::listing::ListIds;
use crate::listing::ListIdsView;
use crate::listing::ListKind;
use crate::listing::ListNext;
use crate::listing::PaginationOptions;
use crate::media_type::FileTypeLevel;
use crate::media_type::MediaType;
use crate::put_file::put_turn_is;
use crate::put_file::text_view;
use crate::put_file::PutFile;
use crate::put_file::PutFileView;
use crate::put_file::PutNext;
use crate::put_file::PutRequest;
use crate::put_file::PutRequestView;
use crate::put_image::ImageRequest;
use crate::put_image::ImageRequestView;
use crate::put_image::OriginalFile;
use crate::put_image::PutImage;
use crate::put_image::put_image_turn_is;
use crate::put_image::PutImageNext;
use crate::put_image::PutImageView;
use crate::resource_ops::found_resource_view;
use crate::resource_ops::put_resource_turn_is;
use crate::resource_ops::DeleteResource;
use crate::resource_ops::GetResource;
use crate::resource_ops::GetResourceNext;
use crate::resource_ops::GetResourceView;
use crate::resource_ops::PutResource;
use crate::resource_ops::PutResourceNext;
use crate::resource_ops::PutResourceView;
use crate::resources::DatalithResource;
use crate::step::Payload;
use crate::step::PayloadView;
use crate::step::StatementView;
use crate::step::Step;
use crate::step::StepView;
use crate::sweep::clear_expired_turn_is;
use crate::sweep::clear_untracked_turn_is;
use crate::sweep::ClearExpired;
use crate::sweep::ClearExpiredNext;
use crate::sweep::ClearExpiredView;
use crate::sweep::ClearUntracked;
use crate::sweep::ClearUntrackedNext;
use crate::sweep::ClearUntrackedView;

verus! {

/// What a caller says of a file that is put.
#[derive(Debug)]
pub struct FileLabel {
    pub file_name: Option<String>,
    pub file_type: Option<(MediaType, FileTypeLevel)>,
}

/// What a caller says of an image that is put.
#[derive(Clone, Copy, Debug)]
pub struct ImageOptions {
    /// The largest width of the image at multiplier one.
    pub max_width: Option<u16>,
    /// The largest height of the image at multiplier one.
    pub max_height: Option<u16>,
    /// Whether the image is cropped about its centre.
    pub center_crop: bool,
    /// Whether the file of the image is kept as it was put.
    pub save_original_file: bool,
}

/// The request to put a payload under a label.
pub open spec fn request_of(
    payload: PayloadView,
    hash: FileHash,
    id: u128,
    file_size: u64,
    label: FileLabel,
    temporary: bool,
    lifespan: u64,
) -> PutRequestView {
    PutRequestView {
        payload,
        hash,
        id,
        file_size,
        file_name: text_view(label.file_name),
        file_type: declared_view(label.file_type),
        temporary,
        lifespan,
    }
}

/// Whether a request puts a payload under a label, with an identifier that is
/// random.
pub open spec fn is_request_of(
    request: PutRequestView,
    payload: PayloadView,
    file_size: u64,
    label: FileLabel,
    temporary: bool,
    lifespan: u64,
) -> bool {
    &&& is_random_id(request.id)
    &&& request == request_of(
        payload,
        request.hash,
        request.id,
        file_size,
        label,
        temporary,
        lifespan,
    )
}

/// The size of a buffer, as far as a count of 64 bits holds it.
pub open spec fn buffer_len(buffer: Seq<u8>) -> u64 {
    if buffer.len() > u64::MAX {
        u64::MAX
    } else {
        buffer.len() as u64
    }
}

/// Whether a state and a request begin the put of a resource, under an
/// identifier that is random, on the file that a request puts.
pub open spec fn puts_resource(r: PutResourceNext, request: PutRequestView) -> bool {
    exists|id: u128|
        is_random_id(id) && put_resource_turn_is(r, PutResourceView::begin(request, id))
}

/// Whether a request puts the image of a payload under a name, with what
/// the caller says of it and the settings of the store: the identifiers of
/// the image and of its files are random, there are two identifiers of
/// thumbnails for every multiplier, and the file of the image is kept as it
/// was put where that is asked for and its size and hash are given.
pub open spec fn is_image_request_of(
    request: ImageRequestView,
    payload: PayloadView,
    file_name: Option<Seq<char>>,
    options: ImageOptions,
    original: Option<(u64, FileHash)>,
    settings: DatalithView,
) -> bool {
    &&& request.payload == payload
    &&& request.file_name == file_name
    &&& request.max_width == options.max_width
    &&& request.max_height == options.max_height
    &&& request.center_crop == options.center_crop
    &&& request.max_image_resolution == settings.max_image_resolution
    &&& request.max_multiplier == settings.max_image_resolution_multiplier
    &&& request.thumbnail_ids.len() == 2 * settings.max_image_resolution_multiplier
    &&& is_random_id(request.image_id)
    &&& forall|i: int|
        0 <= i < request.thumbnail_ids.len() ==> is_random_id(#[trigger] request.thumbnail_ids[i])
    &&& match request.original {
        Some(kept) => options.save_original_file && original == Some((kept.file_size, kept.hash))
            && is_random_id(kept.id),
        None => !options.save_original_file || original is None,
    }
}

/// What a caller says of an image that is made of a resource: the file of
/// the resource is kept as the file of the image as it was put.
pub open spec fn resource_options(options: ImageOptions) -> ImageOptions {
    ImageOptions { save_original_file: true, ..options }
}

fn make_request(
    payload: Payload,
    hash: FileHash,
    file_size: u64,
    label: FileLabel,
    temporary: bool,
    lifespan: u64,
) -> (request: PutRequest)
    ensures
        request.hash == hash,
        is_request_of(request@, payload@, file_size, label, temporary, lifespan),
{
    PutRequest {
        payload,
        hash,
        id: new_id(),
        file_size,
        file_name: label.file_name,
        file_type: label.file_type,
        temporary,
        lifespan,
    }
}

fn size_of(buffer: &[u8]) -> (r: u64)
    ensures
        r == buffer_len(buffer@),
{
    let n: u128 = buffer.len() as u128;
    if n > u64::MAX as u128 {
        u64::MAX
    } else {
        n as u64
    }
}

impl Datalith {
    /// Makes the request to put a buffer as a permanent file: its hash is the
    /// SHA-256 digest of the buffer.
    pub fn buffer_request(&self, buffer: &[u8], label: FileLabel) -> (request: PutRequest)
        ensures
            request.hash@ == sha256(buffer@),
            is_request_of(
                request@,
                PayloadView::Buffer,
                buffer_len(buffer@),
                label,
                false,
                self@.temporary_file_lifespan,
            ),
    {
        make_request(
            Payload::Buffer,
            get_hash_by_buffer(buffer),
            size_of(buffer),
            label,
            false,
            self.get_temporary_file_lifespan(),
        )
    }

    /// Makes the request to put a buffer as a temporary file: its hash is
    /// random.
    pub fn temporary_buffer_request(&self, buffer: &[u8], label: FileLabel) -> (request: PutRequest)
        ensures
            is_request_of(
                request@,
                PayloadView::Buffer,
                buffer_len(buffer@),
                label,
                true,
                self@.temporary_file_lifespan,
            ),
    {
        make_request(
            Payload::Buffer,
            get_random_hash(),
            size_of(buffer),
            label,
            true,
            self.get_temporary_file_lifespan(),
        )
    }

    /// Makes the request to put the file at a path, whose hash is given, as a
    /// permanent file.
    pub fn path_request(&self, file_path: String, hash: FileHash, label: FileLabel) -> (request:
        PutRequest)
        ensures
            request.hash == hash,
            is_request_of(
                request@,
                PayloadView::Path(file_path@),
                0,
                label,
                false,
                self@.temporary_file_lifespan,
            ),
    {
        make_request(
            Payload::Path(file_path),
            hash,
            0,
            label,
            false,
            self.get_temporary_file_lifespan(),
        )
    }

    /// Makes the request to put the file at a path as a temporary file.
    pub fn temporary_path_request(&self, file_path: String, label: FileLabel) -> (request:
        PutRequest)
        ensures
            is_request_of(
                request@,
                PayloadView::Path(file_path@),
                0,
                label,
                true,
                self@.temporary_file_lifespan,
            ),
    {
        make_request(
            Payload::Path(file_path),
            get_random_hash(),
            0,
            label,
            true,
            self.get_temporary_file_lifespan(),
        )
    }

    /// Makes the request to put a staged file, whose size and hash are given,
    /// as a permanent file.
    pub fn staged_request(&self, staged: u128, file_size: u64, hash: FileHash, label: FileLabel) -> (request:
        PutRequest)
        ensures
            request.hash == hash,
            is_request_of(
                request@,
                PayloadView::Staged(staged),
                file_size,
                label,
                false,
                self@.temporary_file_lifespan,
            ),
    {
        make_request(
            Payload::Staged(staged),
            hash,
            file_size,
            label,
            false,
            self.get_temporary_file_lifespan(),
        )
    }

    /// Makes the request to put a staged file, whose size is given, as a
    /// temporary file.
    pub fn temporary_staged_request(&self, staged: u128, file_size: u64, label: FileLabel) -> (request:
        PutRequest)
        ensures
            is_request_of(
                request@,
                PayloadView::Staged(staged),
                file_size,
                label,
                true,
                self@.temporary_file_lifespan,
            ),
    {
        make_request(
            Payload::Staged(staged),
            get_random_hash(),
            file_size,
            label,
            true,
            self.get_temporary_file_lifespan(),
        )
    }

    /// Begins to put a buffer as a permanent file.
    pub fn put_file_by_buffer(&self, buffer: &[u8], label: FileLabel) -> (r: PutNext)
        ensures
            exists|request: PutRequestView|
                {
                    &&& request.hash@ == sha256(buffer@)
                    &&& is_request_of(
                        request,
                        PayloadView::Buffer,
                        buffer_len(buffer@),
                        label,
                        false,
                        self@.temporary_file_lifespan,
                    )
                    &&& put_turn_is(r, PutFileView::begin(request))
                },
    {
        let request = self.buffer_request(buffer, label);
        let ghost view = request@;
        let r = PutFile::begin(request);
        proof {
            assert(put_turn_is(r, PutFileView::begin(view)));
        }
        r
    }

    /// Begins to put a buffer as a temporary file.
    pub fn put_file_by_buffer_temporarily(&self, buffer: &[u8], label: FileLabel) -> (r: PutNext)
        ensures
            exists|request: PutRequestView|
                {
                    &&& is_request_of(
                        request,
                        PayloadView::Buffer,
                        buffer_len(buffer@),
                        label,
                        true,
                        self@.temporary_file_lifespan,
                    )
                    &&& put_turn_is(r, PutFileView::begin(request))
                },
    {
        let request = self.temporary_buffer_request(buffer, label);
        let ghost view = request@;
        let r = PutFile::begin(request);
        proof {
            assert(put_turn_is(r, PutFileView::begin(view)));
        }
        r
    }

    /// Begins to put the file at a path, whose hash is given, as a permanent
    /// file.
    pub fn put_file_by_path(&self, file_path: String, hash: FileHash, label: FileLabel) -> (r:
        PutNext)
        ensures
            exists|request: PutRequestView|
                {
                    &&& request.hash == hash
                    &&& is_request_of(
                        request,
                        PayloadView::Path(file_path@),
                        0,
                        label,
                        false,
                        self@.temporary_file_lifespan,
                    )
                    &&& put_turn_is(r, PutFileView::begin(request))
                },
    {
        let request = self.path_request(file_path, hash, label);
        let ghost view = request@;
        let r = PutFile::begin(request);
        proof {
            assert(put_turn_is(r, PutFileView::begin(view)));
        }
        r
    }

    /// Begins to put the file at a path as a temporary file.
    pub fn put_file_by_path_temporarily(&self, file_path: String, label: FileLabel) -> (r: PutNext)
        ensures
            exists|request: PutRequestView|
                {
                    &&& is_request_of(
                        request,
                        PayloadView::Path(file_path@),
                        0,
                        label,
                        true,
                        self@.temporary_file_lifespan,
                    )
                    &&& put_turn_is(r, PutFileView::begin(request))
                },
    {
        let request = self.temporary_path_request(file_path, label);
        let ghost view = request@;
        let r = PutFile::begin(request);
        proof {
            assert(put_turn_is(r, PutFileView::begin(view)));
        }
        r
    }

    /// Begins to take in the payload of a reader, of at most
    /// `expected_reader_length` bytes where a length is expected, before it is
    /// put as a permanent file: the digest of the payload is asked for.
    pub fn read_for_put(&self, expected_reader_length: Option<u64>) -> (r: (Ingest, IngestStep))
        ensures
            r.0.wf(),
            r.0@ == IngestView::begin(expected_reader_length, true, true),
            r.1@ == IngestStepView::Create,
    {
        Ingest::begin(expected_reader_length, true, true)
    }

    /// Begins to take in the file at a path, to know its size and its digest
    /// before it is put as a permanent file: nothing is staged.
    pub fn read_path(&self) -> (r: (Ingest, IngestStep))
        ensures
            r.0.wf(),
            r.0@ == IngestView::begin(None, true, false),
            r.1@ == r.0@.read_step(),
    {
        Ingest::begin(None, true, false)
    }

    /// Begins to take in the payload of a reader before it is put as a
    /// temporary file or as an image: no digest is asked for.
    pub fn read_for_temporary_put(&self, expected_reader_length: Option<u64>) -> (r: (
        Ingest,
        IngestStep,
    ))
        ensures
            r.0.wf(),
            r.0@ == IngestView::begin(expected_reader_length, false, true),
            r.1@ == IngestStepView::Create,
    {
        Ingest::begin(expected_reader_length, false, true)
    }

    /// Begins to put the payload that was taken in from a reader, whose size
    /// and hash are given, as a permanent file.
    pub fn put_file_by_reader(&self, staged: u128, file_size: u64, hash: FileHash, label: FileLabel) -> (r:
        PutNext)
        ensures
            exists|request: PutRequestView|
                {
                    &&& request.hash == hash
                    &&& is_request_of(
                        request,
                        PayloadView::Staged(staged),
                        file_size,
                        label,
                        false,
                        self@.temporary_file_lifespan,
                    )
                    &&& put_turn_is(r, PutFileView::begin(request))
                },
    {
        let request = self.staged_request(staged, file_size, hash, label);
        let ghost view = request@;
        let r = PutFile::begin(request);
        proof {
            assert(put_turn_is(r, PutFileView::begin(view)));
        }
        r
    }

    /// Begins to put the payload that was taken in from a reader, whose size
    /// is given, as a temporary file.
    pub fn put_file_by_reader_temporarily(&self, staged: u128, file_size: u64, label: FileLabel) -> (r:
        PutNext)
        ensures
            exists|request: PutRequestView|
                {
                    &&& is_request_of(
                        request,
                        PayloadView::Staged(staged),
                        file_size,
                        label,
                        true,
                        self@.temporary_file_lifespan,
                    )
                    &&& put_turn_is(r, PutFileView::begin(request))
                },
    {
        let request = self.temporary_staged_request(staged, file_size, label);
        let ghost view = request@;
        let r = PutFile::begin(request);
        proof {
            assert(put_turn_is(r, PutFileView::begin(view)));
        }
        r
    }

    /// Begins to put a resource on the file that a request puts.
    pub fn put_resource(&self, request: PutRequest) -> (r: PutResourceNext)
        ensures
            puts_resource(r, request@),
    {
        let id = new_id();
        let r = PutResource::begin(request, id);
        proof {
            assert(is_random_id(id) && put_resource_turn_is(
                r,
                PutResourceView::begin(request@, id),
            ));
        }
        r
    }

    /// Begins to put a buffer as a resource on a permanent file.
    pub fn put_resource_by_buffer(&self, buffer: &[u8], label: FileLabel) -> (r: PutResourceNext)
        ensures
            exists|request: PutRequestView|
                {
                    &&& request.hash@ == sha256(buffer@)
                    &&& is_request_of(
                        request,
                        PayloadView::Buffer,
                        buffer_len(buffer@),
                        label,
                        false,
                        self@.temporary_file_lifespan,
                    )
                    &&& puts_resource(r, request)
                },
    {
        let request = self.buffer_request(buffer, label);
        let ghost view = request@;
        let r = self.put_resource(request);
        proof {
            assert(view.hash@ == sha256(buffer@) && puts_resource(r, view));
        }
        r
    }

    /// Begins to put a buffer as a resource on a temporary file.
    pub fn put_resource_by_buffer_temporarily(&self, buffer: &[u8], label: FileLabel) -> (r:
        PutResourceNext)
        ensures
            exists|request: PutRequestView|
                {
                    &&& is_request_of(
                        request,
                        PayloadView::Buffer,
                        buffer_len(buffer@),
                        label,
                        true,
                        self@.temporary_file_lifespan,
                    )
                    &&& puts_resource(r, request)
                },
    {
        let request = self.temporary_buffer_request(buffer, label);
        let ghost view = request@;
        let r = self.put_resource(request);
        proof {
            assert(puts_resource(r, view));
        }
        r
    }

    /// Begins to put the file at a path, whose hash is given, as a resource
    /// on a permanent file.
    pub fn put_resource_by_path(&self, file_path: String, hash: FileHash, label: FileLabel) -> (r:
        PutResourceNext)
        ensures
            exists|request: PutRequestView|
                {
                    &&& request.hash == hash
                    &&& is_request_of(
                        request,
                        PayloadView::Path(file_path@),
                        0,
                        label,
                        false,
                        self@.temporary_file_lifespan,
                    )
                    &&& puts_resource(r, request)
                },
    {
        let request = self.path_request(file_path, hash, label);
        let ghost view = request@;
        let r = self.put_resource(request);
        proof {
            assert(view.hash == hash && puts_resource(r, view));
        }
        r
    }

    /// Begins to put the file at a path as a resource on a temporary file.
    pub fn put_resource_by_path_temporarily(&self, file_path: String, label: FileLabel) -> (r:
        PutResourceNext)
        ensures
            exists|request: PutRequestView|
                {
                    &&& is_request_of(
                        request,
                        PayloadView::Path(file_path@),
                        0,
                        label,
                        true,
                        self@.temporary_file_lifespan,
                    )
                    &&& puts_resource(r, request)
                },
    {
        let request = self.temporary_path_request(file_path, label);
        let ghost view = request@;
        let r = self.put_resource(request);
        proof {
            assert(puts_resource(r, view));
        }
        r
    }

    /// Begins to put the payload that was taken in from a reader as a
    /// resource on a permanent file.
    pub fn put_resource_by_reader(
        &self,
        staged: u128,
        file_size: u64,
        hash: FileHash,
        label: FileLabel,
    ) -> (r: PutResourceNext)
        ensures
            exists|request: PutRequestView|
                {
                    &&& request.hash == hash
                    &&& is_request_of(
                        request,
                        PayloadView::Staged(staged),
                        file_size,
                        label,
                        false,
                        self@.temporary_file_lifespan,
                    )
                    &&& puts_resource(r, request)
                },
    {
        let request = self.staged_request(staged, file_size, hash, label);
        let ghost view = request@;
        let r = self.put_resource(request);
        proof {
            assert(view.hash == hash && puts_resource(r, view));
        }
        r
    }

    /// Begins to put the payload that was taken in from a reader as a
    /// resource on a temporary file.
    pub fn put_resource_by_reader_temporarily(
        &self,
        staged: u128,
        file_size: u64,
        label: FileLabel,
    ) -> (r: PutResourceNext)
        ensures
            exists|request: PutRequestView|
                {
                    &&& is_request_of(
                        request,
                        PayloadView::Staged(staged),
                        file_size,
                        label,
                        true,
                        self@.temporary_file_lifespan,
                    )
                    &&& puts_resource(r, request)
                },
    {
        let request = self.temporary_staged_request(staged, file_size, label);
        let ghost view = request@;
        let r = self.put_resource(request);
        proof {
            assert(puts_resource(r, view));
        }
        r
    }

    /// Begins to ask whether a file exists and is live now.
    pub fn check_file_exist(&self, id: u128) -> (r: (Ask, Step<Result<bool, DatalithReadError>>))
        ensures
            r.0 == Ask::Asking,
            exists|now: i64|
                r.1.view_with(|o| o) == StepView::<Result<bool, DatalithReadError>>::Query(
                    StatementView::SelectFileExists { id, now },
                ),
    {
        Ask::check_file_exist(id, get_current_timestamp())
    }

    /// Begins to ask whether a resource exists and its file is live now.
    pub fn check_resource_exist(&self, id: u128) -> (r: (
        Ask,
        Step<Result<bool, DatalithReadError>>,
    ))
        ensures
            r.0 == Ask::Asking,
            exists|now: i64|
                r.1.view_with(|o| o) == StepView::<Result<bool, DatalithReadError>>::Query(
                    StatementView::SelectResourceExists { id, now },
                ),
    {
        Ask::check_resource_exist(id, get_current_timestamp())
    }

    /// Begins to ask whether an image exists.
    pub fn check_image_exist(&self, id: u128) -> (r: (Ask, Step<Result<bool, DatalithReadError>>))
        ensures
            r.0 == Ask::Asking,
            r.1.view_with(|o| o) == StepView::<Result<bool, DatalithReadError>>::Query(
                StatementView::SelectImageExists { id },
            ),
    {
        Ask::check_image_exist(id)
    }

    /// Begins to get a file now.
    pub fn get_file_by_id(&self, id: u128) -> (r: (
        GetFile,
        Step<Result<Option<crate::datalith_file::DatalithFile>, DatalithReadError>>,
    ))
        ensures
            exists|now: i64|
                r.0 == GetFile::begin_spec(id, now).0 && r.1.view_with(|o| found_file_view(o))
                    == GetFile::begin_spec(id, now).1,
    {
        let now = get_current_timestamp();
        let r = GetFile::begin(id, now);
        proof {
            assert(r.0 == GetFile::begin_spec(id, now).0 && r.1.view_with(|o| found_file_view(o))
                == GetFile::begin_spec(id, now).1);
        }
        r
    }

    /// Begins to get a resource now.
    pub fn get_resource_by_id(&self, id: u128) -> (r: GetResourceNext)
        ensures
            exists|now: i64|
                r.0@ == GetResourceView::begin(id, now).0 && r.1.view_with(
                    |o| found_resource_view(o),
                ) == GetResourceView::begin(id, now).1,
    {
        let now = get_current_timestamp();
        let r = GetResource::begin(id, now);
        proof {
            assert(r.0@ == GetResourceView::begin(id, now).0 && r.1.view_with(
                |o| found_resource_view(o),
            ) == GetResourceView::begin(id, now).1);
        }
        r
    }

    /// Begins to get an image.
    pub fn get_image_by_id(&self, id: u128) -> (r: GetImageNext)
        ensures
            get_image_turn_is(r, GetImageView::begin(id)),
    {
        GetImage::begin(id)
    }

    /// Begins to list the files that are live now.
    pub fn list_file_ids(&self, options: PaginationOptions) -> (r: ListNext)
        ensures
            exists|now: i64| list_turn_is(r, ListIdsView::begin(ListKind::Files, options, now, false)),
    {
        let now = get_current_timestamp();
        let r = ListIds::list_file_ids(options, now);
        proof {
            assert(list_turn_is(r, ListIdsView::begin(ListKind::Files, options, now, false)));
        }
        r
    }

    /// Begins to list the resources.
    pub fn list_resource_ids(&self, options: PaginationOptions) -> (r: ListNext)
        ensures
            list_turn_is(r, ListIdsView::begin(ListKind::Resources, options, 0, false)),
    {
        ListIds::list_resource_ids(options)
    }

    /// Begins to list the images.
    pub fn list_image_ids(&self, options: PaginationOptions) -> (r: ListNext)
        ensures
            list_turn_is(r, ListIdsView::begin(ListKind::Images, options, 0, false)),
    {
        ListIds::list_image_ids(options)
    }

    /// Begins to delete a file.
    pub fn delete_file_by_id(&self, id: u128) -> (r: (
        DeleteFile,
        Step<Result<bool, DatalithReadError>>,
    ))
        ensures
            r.0 == DeleteFile::begin_spec(id).0,
            r.1.view_with(|o| o) == DeleteFile::begin_spec(id).1,
    {
        DeleteFile::begin(id)
    }

    /// Begins to delete a resource.
    pub fn delete_resource_by_id(&self, id: u128) -> (r: (
        DeleteResource,
        Step<Result<bool, DatalithReadError>>,
    ))
        ensures
            r.0 == DeleteResource::begin_spec(id).0,
            r.1.view_with(|o| o) == DeleteResource::begin_spec(id).1,
    {
        DeleteResource::begin(id)
    }

    /// Begins to delete an image.
    pub fn delete_image_by_id(&self, id: u128) -> (r: DeleteImageNext)
        ensures
            delete_image_turn_is(r, DeleteImageView::begin(id)),
    {
        DeleteImage::begin(id)
    }

    /// Begins a sweep of the files that have expired now, each delete waiting
    /// for at most `timeout_ms` milliseconds.
    pub fn clear_expired_files(&self, timeout_ms: u64) -> (r: ClearExpiredNext)
        ensures
            exists|now: i64| clear_expired_turn_is(r, ClearExpiredView::begin(now, timeout_ms)),
    {
        let now = get_current_timestamp();
        let r = ClearExpired::begin(now, timeout_ms);
        proof {
            assert(clear_expired_turn_is(r, ClearExpiredView::begin(now, timeout_ms)));
        }
        r
    }

    /// Begins a sweep of the blob directory.
    pub fn clear_untracked_files(&self) -> (r: ClearUntrackedNext)
        ensures
            clear_untracked_turn_is(r, ClearUntrackedView::begin()),
    {
        ClearUntracked::begin()
    }

    /// Makes the request to put an image. The file of the image is kept as it
    /// was put where that is asked for and the size and the hash of the
    /// payload are given.
    pub fn image_request(
        &self,
        payload: Payload,
        file_name: Option<String>,
        options: ImageOptions,
        original: Option<(u64, FileHash)>,
    ) -> (request: ImageRequest)
        ensures
            is_image_request_of(
                request@,
                payload@,
                text_view(file_name),
                options,
                original,
                self@,
            ),
    {
        let max_multiplier = self.get_max_image_resolution_multiplier();
        let mut thumbnail_ids: Vec<u128> = Vec::new();
        let mut i: u16 = 0;
        while i < 2 * (max_multiplier as u16)
            invariant
                i <= 2 * (max_multiplier as u16),
                thumbnail_ids@.len() == i,
                forall|j: int| 0 <= j < thumbnail_ids@.len() ==> is_random_id(#[trigger] thumbnail_ids@[j]),
            decreases 2 * (max_multiplier as u16) - i,
        {
            thumbnail_ids.push(new_id());
            i = i + 1;
        }
        let original = if options.save_original_file {
            match original {
                Some((file_size, hash)) => Some(OriginalFile { hash, file_size, id: new_id() }),
                None => None,
            }
        } else {
            None
        };
        ImageRequest {
            payload,
            file_name,
            max_width: options.max_width,
            max_height: options.max_height,
            center_crop: options.center_crop,
            original,
            image_id: new_id(),
            thumbnail_ids,
            max_image_resolution: self.get_max_image_resolution(),
            max_multiplier,
        }
    }

    /// Begins to put the image in a buffer; the file of the image as it was
    /// put, where it is kept, has the SHA-256 digest of the buffer as its
    /// hash.
    pub fn put_image_by_buffer(
        &self,
        buffer: &[u8],
        file_name: Option<String>,
        options: ImageOptions,
    ) -> (r: PutImageNext)
        ensures
            exists|request: ImageRequestView, hash: FileHash|
                {
                    &&& hash@ == sha256(buffer@)
                    &&& is_image_request_of(
                        request,
                        PayloadView::Buffer,
                        text_view(file_name),
                        options,
                        Some((buffer_len(buffer@), hash)),
                        self@,
                    )
                    &&& put_image_turn_is(r, PutImageView::begin(request))
                },
    {
        let hash = get_hash_by_buffer(buffer);
        let request = self.image_request(
            Payload::Buffer,
            file_name,
            options,
            Some((size_of(buffer), hash)),
        );
        let ghost view = request@;
        let r = PutImage::begin(request);
        proof {
            assert(hash@ == sha256(buffer@) && is_image_request_of(
                view,
                PayloadView::Buffer,
                text_view(file_name),
                options,
                Some((buffer_len(buffer@), hash)),
                self@,
            ) && put_image_turn_is(r, PutImageView::begin(view)));
        }
        r
    }

    /// Begins to put the image in the file at a path; `original` gives the
    /// size and the hash of the file, where they are known.
    pub fn put_image_by_path(
        &self,
        file_path: String,
        file_name: Option<String>,
        options: ImageOptions,
        original: Option<(u64, FileHash)>,
    ) -> (r: PutImageNext)
        ensures
            exists|request: ImageRequestView|
                {
                    &&& is_image_request_of(
                        request,
                        PayloadView::Path(file_path@),
                        text_view(file_name),
                        options,
                        original,
                        self@,
                    )
                    &&& put_image_turn_is(r, PutImageView::begin(request))
                },
    {
        let request = self.image_request(Payload::Path(file_path), file_name, options, original);
        let ghost view = request@;
        let r = PutImage::begin(request);
        proof {
            assert(is_image_request_of(
                view,
                PayloadView::Path(file_path@),
                text_view(file_name),
                options,
                original,
                self@,
            ) && put_image_turn_is(r, PutImageView::begin(view)));
        }
        r
    }

    /// Begins to put the image that was taken in from a reader; `original`
    /// gives the size and the hash of the payload, where they are known.
    pub fn put_image_by_reader(
        &self,
        staged: u128,
        file_name: Option<String>,
        options: ImageOptions,
        original: Option<(u64, FileHash)>,
    ) -> (r: PutImageNext)
        ensures
            exists|request: ImageRequestView|
                {
                    &&& is_image_request_of(
                        request,
                        PayloadView::Staged(staged),
                        text_view(file_name),
                        options,
                        original,
                        self@,
                    )
                    &&& put_image_turn_is(r, PutImageView::begin(request))
                },
    {
        let request = self.image_request(Payload::Staged(staged), file_name, options, original);
        let ghost view = request@;
        let r = PutImage::begin(request);
        proof {
            assert(is_image_request_of(
                view,
                PayloadView::Staged(staged),
                text_view(file_name),
                options,
                original,
                self@,
            ) && put_image_turn_is(r, PutImageView::begin(view)));
        }
        r
    }

    /// Begins to put the image in the file of a resource, staged under an
    /// identifier: the image has the name of the resource, and the file of
    /// the resource is kept as the file of the image as it was put.
    pub fn put_image_by_resource(
        &self,
        resource: &DatalithResource,
        staged: u128,
        hash: FileHash,
        options: ImageOptions,
    ) -> (r: PutImageNext)
        ensures
            exists|request: ImageRequestView|
                {
                    &&& is_image_request_of(
                        request,
                        PayloadView::Staged(staged),
                        Some(resource@.file_name),
                        resource_options(options),
                        Some((resource@.file.file_size, hash)),
                        self@,
                    )
                    &&& put_image_turn_is(r, PutImageView::begin(request))
                },
    {
        let kept = ImageOptions {
            max_width: options.max_width,
            max_height: options.max_height,
            center_crop: options.center_crop,
            save_original_file: true,
        };
        let request = self.image_request(
            Payload::Staged(staged),
            Some(resource.file_name().clone()),
            kept,
            Some((resource.file().file_size(), hash)),
        );
        let ghost view = request@;
        let r = PutImage::begin(request);
        proof {
            assert(is_image_request_of(
                view,
                PayloadView::Staged(staged),
                Some(resource@.file_name),
                resource_options(options),
                Some((resource@.file.file_size, hash)),
                self@,
            ) && put_image_turn_is(r, PutImageView::begin(view)));
        }
        r
    }

    /// Begins to make an image of a resource whose file is staged under an
    /// identifier: the image is put as by `put_image_by_resource`, and then
    /// the resource is deleted.
    pub fn convert_resource_to_image(
        &self,
        resource: DatalithResource,
        staged: u128,
        hash: FileHash,
        options: ImageOptions,
    ) -> (r: ConvertNext)
        ensures
            exists|request: ImageRequestView|
                {
                    &&& is_image_request_of(
                        request,
                        PayloadView::Staged(staged),
                        Some(resource@.file_name),
                        resource_options(options),
                        Some((resource@.file.file_size, hash)),
                        self@,
                    )
                    &&& convert_turn_is(
                        r,
                        ConvertResourceView::begin(request, resource@.id, resource@.file.id),
                    )
                },
    {
        let kept = ImageOptions {
            max_width: options.max_width,
            max_height: options.max_height,
            center_crop: options.center_crop,
            save_original_file: true,
        };
        let request = self.image_request(
            Payload::Staged(staged),
            Some(resource.file_name().clone()),
            kept,
            Some((resource.file().file_size(), hash)),
        );
        let ghost view = request@;
        let r = ConvertResource::begin(request, resource.id(), resource.file().id());
        proof {
            assert(is_image_request_of(
                view,
                PayloadView::Staged(staged),
                Some(resource@.file_name),
                resource_options(options),
                Some((resource@.file.file_size, hash)),
                self@,
            ) && convert_turn_is(
                r,
                ConvertResourceView::begin(view, resource@.id, resource@.file.id),
            ));
        }
        r
    }
}

} // verus!
