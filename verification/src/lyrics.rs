//! The lookup of song lyrics at the remote lyrics service.

use vstd::prelude::*;
use vstd::string::StringExecFns;
use vstd::utf8::encode_utf8;

verus! {

/// One record of the lyrics service.
#[derive(Clone, Debug, PartialEq, Eq)]
pub struct LrcLibResponse {
    pub track_name: String,
    pub artist_name: String,
    /// Lyrics with time stamps; the service does not have them for every song.
    pub synced_lyrics: Option<String>,
    pub plain_lyrics: String,
}

/// The mathematical content of an [`LrcLibResponse`].
pub struct LrcLibView {
    pub track_name: Seq<char>,
    pub artist_name: Seq<char>,
    pub synced_lyrics: Option<Seq<char>>,
    pub plain_lyrics: Seq<char>,
}

impl View for LrcLibResponse {
    type V = LrcLibView;

    open spec fn view(&self) -> LrcLibView {
        LrcLibView {
            track_name: self.track_name@,
            artist_name: self.artist_name@,
            synced_lyrics: self.synced_lyrics.deep_view(),
            plain_lyrics: self.plain_lyrics@,
        }
    }
}

/// What came of the search request to the lyrics service.
#[derive(Clone, Debug, PartialEq, Eq)]
pub enum SearchOutcome {
    /// The request failed on the network; with the failure in words.
    NetworkFailed(String),
    /// The response was no list of records; with the failure in words.
    Unparsable(String),
    /// The records that the service found, best match first.
    Found(Vec<LrcLibResponse>),
}

/// The mathematical content of a [`SearchOutcome`].
pub enum SearchOutcomeView {
    NetworkFailed(Seq<char>),
    Unparsable(Seq<char>),
    Found(Seq<LrcLibView>),
}

impl View for SearchOutcome {
    type V = SearchOutcomeView;

    open spec fn view(&self) -> SearchOutcomeView {
        match self {
            SearchOutcome::NetworkFailed(words) => SearchOutcomeView::NetworkFailed(words@),
            SearchOutcome::Unparsable(words) => SearchOutcomeView::Unparsable(words@),
            SearchOutcome::Found(records) => SearchOutcomeView::Found(
                records@.map_values(|record: LrcLibResponse| record@),
            ),
        }
    }
}

/// Whether a byte stands for itself in percent-encoded text: the ASCII
/// letters and digits, and `-`, `.`, `_`, `~`.
pub open spec fn is_unreserved(byte: u8) -> bool {
    ||| 0x30 <= byte <= 0x39
    ||| 0x41 <= byte <= 0x5a
    ||| 0x61 <= byte <= 0x7a
    ||| byte == 0x2d
    ||| byte == 0x2e
    ||| byte == 0x5f
    ||| byte == 0x7e
}

/// The upper-case hexadecimal digit of a value below sixteen.
pub open spec fn hex_digit(value: int) -> char {
    if value < 10 {
        ((0x30 + value) as u8) as char
    } else {
        ((0x37 + value) as u8) as char
    }
}

/// One byte in percent-encoding: itself if it is unreserved, and else `%`
/// with its two hexadecimal digits.
pub open spec fn percent_encoded_byte(byte: u8) -> Seq<char> {
    if is_unreserved(byte) {
        seq![byte as char]
    } else {
        seq!['%', hex_digit(byte as int / 16), hex_digit(byte as int % 16)]
    }
}

/// Bytes in percent-encoding, byte by byte.
pub open spec fn percent_encoded(bytes: Seq<u8>) -> Seq<char>
    decreases bytes.len(),
{
    if bytes.len() == 0 {
        Seq::empty()
    } else {
        percent_encoded(bytes.drop_last()) + percent_encoded_byte(bytes.last())
    }
}

/// The address of the search for `track` by `artist`.
pub open spec fn search_url(artist: Seq<char>, track: Seq<char>) -> Seq<char> {
    "https://lrclib.net/api/search"@ + "?artist_name="@ + percent_encoded(encode_utf8(artist))
        + "&track_name="@ + percent_encoded(encode_utf8(track))
}

/// The message for a search that found no record.
pub open spec fn not_found_message(artist: Seq<char>, track: Seq<char>) -> Seq<char> {
    "No matching synchronized lyrics found for: "@ + artist + " - "@ + track
}

/// What the lookup of `track` by `artist` comes to, given what came of the
/// search request: the first record found, or the failure in words.
pub open spec fn lyrics_of(outcome: SearchOutcomeView, artist: Seq<char>, track: Seq<char>)
    -> Result<LrcLibView, Seq<char>> {
    match outcome {
        SearchOutcomeView::NetworkFailed(words) => Err("Network/HTTP Error: "@ + words),
        SearchOutcomeView::Unparsable(words) => Err("JSON Parsing Error: "@ + words),
        SearchOutcomeView::Found(records) => if records.len() > 0 {
            Ok(records[0])
        } else {
            Err(not_found_message(artist, track))
        },
    }
}

/// Percent-encodes text with `urlencoding::encode`.
///
/// Trusted: every byte of the UTF-8 form of the text stands for itself if it
/// is unreserved and is else written as `%` and two upper-case hexadecimal
/// digits.
#[verifier::external_body]
fn percent_encode(text: &str) -> (encoded: String)
    ensures
        encoded@ == percent_encoded(encode_utf8(text@)),
{
    urlencoding::encode(text).into_owned()
}

/// The address at which the lyrics service is asked for `track` by `artist`.
pub fn lyrics_search_url(artist: &str, track: &str) -> (url: String)
    ensures
        url@ == search_url(artist@, track@),
{
    let mut url = "https://lrclib.net/api/search".to_owned();
    url.append("?artist_name=");
    url.append(percent_encode(artist).as_str());
    url.append("&track_name=");
    url.append(percent_encode(track).as_str());
    url
}

/// Settles the lookup of `track` by `artist` once the search request has
/// come back: the first record that the service found, or the failure in
/// words.
pub fn fetch_synced_lyrics(outcome: SearchOutcome, artist: &str, track: &str) -> (lyrics: Result<
    LrcLibResponse,
    String,
>)
    ensures
        match lyrics {
            Ok(record) => Ok::<LrcLibView, Seq<char>>(record@) == lyrics_of(
                outcome@,
                artist@,
                track@,
            ),
            Err(words) => Err::<LrcLibView, Seq<char>>(words@) == lyrics_of(
                outcome@,
                artist@,
                track@,
            ),
        },
{
    match outcome {
        SearchOutcome::NetworkFailed(words) => {
            let mut message = "Network/HTTP Error: ".to_owned();
            message.append(words.as_str());
            Err(message)
        },
        SearchOutcome::Unparsable(words) => {
            let mut message = "JSON Parsing Error: ".to_owned();
            message.append(words.as_str());
            Err(message)
        },
        SearchOutcome::Found(mut records) => {
            if records.len() > 0 {
                Ok(records.remove(0))
            } else {
                let mut message = "No matching synchronized lyrics found for: ".to_owned();
                message.append(artist);
                message.append(" - ");
                message.append(track);
                Err(message)
            }
        },
    }
}

} // verus!
