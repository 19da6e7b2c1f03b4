//! Metadata of an audio file, with its cover art as text.

use vstd::prelude::*;

verus! {

/// What was read from the tag of an audio file.
#[derive(Clone, Debug, PartialEq, Eq)]
pub struct TagFields {
    pub title: Option<String>,
    pub artist: Option<String>,
    pub album: Option<String>,
    pub year: Option<i32>,
    /// The data of the embedded pictures, in the order of the tag.
    pub pictures: Vec<Vec<u8>>,
}

/// The mathematical content of [`TagFields`].
pub struct TagFieldsView {
    pub title: Option<Seq<char>>,
    pub artist: Option<Seq<char>>,
    pub album: Option<Seq<char>>,
    pub year: Option<i32>,
    pub pictures: Seq<Seq<u8>>,
}

impl View for TagFields {
    type V = TagFieldsView;

    open spec fn view(&self) -> TagFieldsView {
        TagFieldsView {
            title: self.title.deep_view(),
            artist: self.artist.deep_view(),
            album: self.album.deep_view(),
            year: self.year,
            pictures: self.pictures@.map_values(|picture: Vec<u8>| picture@),
        }
    }
}

/// The metadata handed to the user interface.
#[derive(Clone, Debug, PartialEq, Eq)]
pub struct MetadataResponse {
    pub title: Option<String>,
    pub artist: Option<String>,
    pub album: Option<String>,
    /// The first embedded picture, in base64.
    pub base64_cover: Option<String>,
    pub year: Option<i32>,
}

/// The mathematical content of a [`MetadataResponse`].
pub struct MetadataView {
    pub title: Option<Seq<char>>,
    pub artist: Option<Seq<char>>,
    pub album: Option<Seq<char>>,
    pub base64_cover: Option<Seq<char>>,
    pub year: Option<i32>,
}

impl View for MetadataResponse {
    type V = MetadataView;

    open spec fn view(&self) -> MetadataView {
        MetadataView {
            title: self.title.deep_view(),
            artist: self.artist.deep_view(),
            album: self.album.deep_view(),
            base64_cover: self.base64_cover.deep_view(),
            year: self.year,
        }
    }
}

/// The base64 text, in the standard alphabet and with padding, that the
/// `base64` crate makes of `data`.
pub uninterp spec fn base64_standard(data: Seq<u8>) -> Seq<char>;

/// The content of a tag that may be missing.
pub open spec fn tag_view(tag: Option<TagFields>) -> Option<TagFieldsView> {
    match tag {
        None => None,
        Some(fields) => Some(fields@),
    }
}

/// The metadata without any entry.
pub open spec fn empty_metadata() -> MetadataView {
    MetadataView { title: None, artist: None, album: None, base64_cover: None, year: None }
}

/// The cover of a tag: its first picture in base64, if it has a picture.
pub open spec fn cover_of(pictures: Seq<Seq<u8>>) -> Option<Seq<char>> {
    if pictures.len() > 0 {
        Some(base64_standard(pictures[0]))
    } else {
        None
    }
}

/// The metadata of a file: nothing at all where no tag could be read, and
/// else the text entries and the year of the tag as they are, with the
/// first picture as cover.
pub open spec fn metadata_of(tag: Option<TagFieldsView>) -> MetadataView {
    match tag {
        None => empty_metadata(),
        Some(fields) => MetadataView {
            title: fields.title,
            artist: fields.artist,
            album: fields.album,
            base64_cover: cover_of(fields.pictures),
            year: fields.year,
        },
    }
}

/// Encodes bytes with `base64::prelude::BASE64_STANDARD`.
///
/// Trusted: the result is named `base64_standard`. The call panics only
/// when the length of the text does not fit in `usize`, which no data held
/// in memory can bring about.
#[verifier::external_body]
fn encode_base64(data: &Vec<u8>) -> (text: String)
    ensures
        text@ == base64_standard(data@),
{
    base64::Engine::encode(&base64::prelude::BASE64_STANDARD, data)
}

/// Builds the metadata of an audio file from what was read of its tag;
/// `None` stands for a file that could not be read or holds no tag.
pub fn get_metadata(tag: Option<TagFields>) -> (response: MetadataResponse)
    ensures
        response@ == metadata_of(tag_view(tag)),
{
    match tag {
        None => MetadataResponse {
            title: None,
            artist: None,
            album: None,
            base64_cover: None,
            year: None,
        },
        Some(fields) => {
            let cover = if fields.pictures.len() > 0 {
                Some(encode_base64(&fields.pictures[0]))
            } else {
                None
            };
            MetadataResponse {
                title: fields.title,
                artist: fields.artist,
                album: fields.album,
                base64_cover: cover,
                year: fields.year,
            }
        },
    }
}

} // verus!
