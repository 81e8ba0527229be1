//! Image rows, thumbnail links and the handles that callers hold.

use vstd::prelude::*;
use crate::datalith_file::DatalithFile;
use crate::datalith_file::DatalithFileView;

verus! {

/// A row of the table `images`.
#[derive(Debug)]
pub struct ImageRow {
    pub id: u128,
    /// Creation time, in milliseconds since the Unix epoch.
    pub created_at: i64,
    /// The file name of the image without its extension.
    pub image_stem: String,
    /// The width of the image at multiplier one.
    pub image_width: u16,
    /// The height of the image at multiplier one.
    pub image_height: u16,
    pub original_file_id: Option<u128>,
    pub has_alpha_channel: bool,
}

/// The mathematical value of an image row.
pub struct ImageRecord {
    pub id: u128,
    pub created_at: i64,
    pub image_stem: Seq<char>,
    pub image_width: u16,
    pub image_height: u16,
    pub original_file_id: Option<u128>,
    pub has_alpha_channel: bool,
}

impl View for ImageRow {
    type V = ImageRecord;

    open spec fn view(&self) -> ImageRecord {
        ImageRecord {
            id: self.id,
            created_at: self.created_at,
            image_stem: self.image_stem@,
            image_width: self.image_width,
            image_height: self.image_height,
            original_file_id: self.original_file_id,
            has_alpha_channel: self.has_alpha_channel,
        }
    }
}

/// A row of the table `image_thumbnails`: the file that holds an image at a
/// multiplier, in WebP or in the fallback format.
#[derive(Clone, Copy, Debug, PartialEq, Eq, Structural)]
pub struct ThumbnailLink {
    pub image_id: u128,
    pub multiplier: u32,
    pub fallback: bool,
    pub file_id: u128,
}

/// The mathematical value of a list of file handles.
pub open spec fn files_view(files: Seq<DatalithFile>) -> Seq<DatalithFileView> {
    Seq::new(files.len(), |i: int| files[i]@)
}

/// The pins that a get of an image holds: one for each file got.
pub open spec fn pins_of(
    original_file: Option<DatalithFileView>,
    thumbnails: Seq<DatalithFileView>,
    fallback_thumbnails: Seq<DatalithFileView>,
) -> Seq<u128> {
    thumbnails.map_values(|f: DatalithFileView| f.id) + fallback_thumbnails.map_values(
        |f: DatalithFileView| f.id,
    ) + (match original_file {
        Some(file) => seq![file.id],
        None => Seq::empty(),
    })
}

/// Lists the pins on the files of an image: one for each handle.
pub(crate) fn collect_pins(
    original_file: &Option<DatalithFile>,
    thumbnails: &Vec<DatalithFile>,
    fallback_thumbnails: &Vec<DatalithFile>,
) -> (pins: Vec<u128>)
    ensures
        pins@ == pins_of(
            optional_file_view(*original_file),
            files_view(thumbnails@),
            files_view(fallback_thumbnails@),
        ),
{
    let mut pins: Vec<u128> = Vec::new();
    let mut i: usize = 0;
    while i < thumbnails.len()
        invariant
            i <= thumbnails.len(),
            pins@ == files_view(thumbnails@).subrange(0, i as int).map_values(
                |f: DatalithFileView| f.id,
            ),
        decreases thumbnails.len() - i,
    {
        pins.push(thumbnails[i].id());
        proof {
            let all = files_view(thumbnails@);
            assert(all.subrange(0, i as int + 1) =~= all.subrange(0, i as int).push(all[i as int]));
            assert(pins@ =~= all.subrange(0, i as int + 1).map_values(|f: DatalithFileView| f.id));
        }
        i = i + 1;
    }
    proof {
        let all = files_view(thumbnails@);
        assert(all.subrange(0, i as int) =~= all);
    }
    let ghost first = pins@;
    let mut j: usize = 0;
    while j < fallback_thumbnails.len()
        invariant
            j <= fallback_thumbnails.len(),
            pins@ == first + files_view(fallback_thumbnails@).subrange(0, j as int).map_values(
                |f: DatalithFileView| f.id,
            ),
        decreases fallback_thumbnails.len() - j,
    {
        pins.push(fallback_thumbnails[j].id());
        proof {
            let all = files_view(fallback_thumbnails@);
            assert(all.subrange(0, j as int + 1) =~= all.subrange(0, j as int).push(all[j as int]));
            assert(pins@ =~= first + all.subrange(0, j as int + 1).map_values(
                |f: DatalithFileView| f.id,
            ));
        }
        j = j + 1;
    }
    proof {
        let all = files_view(fallback_thumbnails@);
        assert(all.subrange(0, j as int) =~= all);
    }
    let ghost second = pins@;
    match original_file {
        Some(file) => {
            pins.push(file.id());
            proof {
                assert(pins@ =~= second + seq![file@.id]);
            }
        },
        None => {
            proof {
                assert(pins@ =~= second + Seq::<u128>::empty());
            }
        },
    }
    pins
}

/// An image of the store as a caller holds it.
#[derive(Debug)]
pub struct DatalithImage {
    pub(crate) id: u128,
    pub(crate) created_at: i64,
    pub(crate) image_stem: String,
    pub(crate) image_width: u16,
    pub(crate) image_height: u16,
    pub(crate) original_file: Option<DatalithFile>,
    pub(crate) thumbnails: Vec<DatalithFile>,
    pub(crate) fallback_thumbnails: Vec<DatalithFile>,
    pub(crate) has_alpha_channel: bool,
}

/// The mathematical value of an image handle.
pub struct DatalithImageView {
    pub id: u128,
    pub created_at: i64,
    pub image_stem: Seq<char>,
    pub image_width: u16,
    pub image_height: u16,
    pub original_file: Option<DatalithFileView>,
    pub thumbnails: Seq<DatalithFileView>,
    pub fallback_thumbnails: Seq<DatalithFileView>,
    pub has_alpha_channel: bool,
}

/// The mathematical value of a file handle that may be absent.
pub open spec fn optional_file_view(file: Option<DatalithFile>) -> Option<DatalithFileView> {
    match file {
        Some(file) => Some(file@),
        None => None,
    }
}

impl View for DatalithImage {
    type V = DatalithImageView;

    closed spec fn view(&self) -> DatalithImageView {
        DatalithImageView {
            id: self.id,
            created_at: self.created_at,
            image_stem: self.image_stem@,
            image_width: self.image_width,
            image_height: self.image_height,
            original_file: optional_file_view(self.original_file),
            thumbnails: files_view(self.thumbnails@),
            fallback_thumbnails: files_view(self.fallback_thumbnails@),
            has_alpha_channel: self.has_alpha_channel,
        }
    }
}

/// The handle on the image of a row, over the handles on its files.
pub open spec fn image_of(
    row: ImageRecord,
    original_file: Option<DatalithFileView>,
    thumbnails: Seq<DatalithFileView>,
    fallback_thumbnails: Seq<DatalithFileView>,
) -> DatalithImageView {
    DatalithImageView {
        id: row.id,
        created_at: row.created_at,
        image_stem: row.image_stem,
        image_width: row.image_width,
        image_height: row.image_height,
        original_file,
        thumbnails,
        fallback_thumbnails,
        has_alpha_channel: row.has_alpha_channel,
    }
}

impl DatalithImage {
    /// Makes the handle on the image of a row, over the handles on its files.
    pub fn new(
        row: ImageRow,
        original_file: Option<DatalithFile>,
        thumbnails: Vec<DatalithFile>,
        fallback_thumbnails: Vec<DatalithFile>,
    ) -> (image: DatalithImage)
        ensures
            image@ == image_of(
                row@,
                optional_file_view(original_file),
                files_view(thumbnails@),
                files_view(fallback_thumbnails@),
            ),
    {
        DatalithImage {
            id: row.id,
            created_at: row.created_at,
            image_stem: row.image_stem,
            image_width: row.image_width,
            image_height: row.image_height,
            original_file,
            thumbnails,
            fallback_thumbnails,
            has_alpha_channel: row.has_alpha_channel,
        }
    }

    /// The pins that the handle holds: one on each of its files.
    pub fn pins(&self) -> (pins: Vec<u128>)
        ensures
            pins@ == pins_of(self@.original_file, self@.thumbnails, self@.fallback_thumbnails),
    {
        collect_pins(&self.original_file, &self.thumbnails, &self.fallback_thumbnails)
    }

    /// The identifier of the image.
    pub fn id(&self) -> (r: u128)
        ensures
            r == self@.id,
    {
        self.id
    }

    /// The creation time, in milliseconds since the Unix epoch.
    pub fn created_at(&self) -> (r: i64)
        ensures
            r == self@.created_at,
    {
        self.created_at
    }

    /// The file name of the image without its extension.
    pub fn image_stem(&self) -> (r: &String)
        ensures
            r@ == self@.image_stem,
    {
        &self.image_stem
    }

    /// The width of the image at multiplier one.
    pub fn image_width(&self) -> (r: u16)
        ensures
            r == self@.image_width,
    {
        self.image_width
    }

    /// The height of the image at multiplier one.
    pub fn image_height(&self) -> (r: u16)
        ensures
            r == self@.image_height,
    {
        self.image_height
    }

    /// The file of the image as it was put, where it was kept.
    pub fn original_file(&self) -> (r: Option<&DatalithFile>)
        ensures
            match r {
                Some(file) => self@.original_file == Some(file@),
                None => self@.original_file is None,
            },
    {
        self.original_file.as_ref()
    }

    /// The WebP thumbnails, by rising multiplier.
    pub fn thumbnails(&self) -> (r: &Vec<DatalithFile>)
        ensures
            files_view(r@) == self@.thumbnails,
    {
        &self.thumbnails
    }

    /// The thumbnails in the fallback format, by rising multiplier.
    pub fn fallback_thumbnails(&self) -> (r: &Vec<DatalithFile>)
        ensures
            files_view(r@) == self@.fallback_thumbnails,
    {
        &self.fallback_thumbnails
    }

    /// Whether the image has an alpha channel. The fallback format is PNG
    /// where it has one and JPEG where it has none.
    pub fn has_alpha_channel(&self) -> (r: bool)
        ensures
            r == self@.has_alpha_channel,
    {
        self.has_alpha_channel
    }

    /// Gives up the image for its files: the file as it was put, the WebP
    /// thumbnails and the fallback thumbnails.
    pub fn into_files(self) -> (r: (Option<DatalithFile>, Vec<DatalithFile>, Vec<DatalithFile>))
        ensures
            optional_file_view(r.0) == self@.original_file,
            files_view(r.1@) == self@.thumbnails,
            files_view(r.2@) == self@.fallback_thumbnails,
    {
        (self.original_file, self.thumbnails, self.fallback_thumbnails)
    }

    /// Gives up the image for the file as it was put.
    pub fn into_original_file(self) -> (r: Option<DatalithFile>)
        ensures
            optional_file_view(r) == self@.original_file,
    {
        self.original_file
    }

    /// Gives up the image for its WebP thumbnails.
    pub fn into_thumbnails(self) -> (r: Vec<DatalithFile>)
        ensures
            files_view(r@) == self@.thumbnails,
    {
        self.thumbnails
    }

    /// Gives up the image for its thumbnails in the fallback format.
    pub fn into_fallback_thumbnails(self) -> (r: Vec<DatalithFile>)
        ensures
            files_view(r@) == self@.fallback_thumbnails,
    {
        self.fallback_thumbnails
    }
}

} // verus!
