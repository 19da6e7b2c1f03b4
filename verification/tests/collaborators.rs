use music_companion::lyrics::{
    fetch_synced_lyrics, lyrics_search_url, LrcLibResponse, SearchOutcome,
};
use music_companion::metadata::{get_metadata, MetadataResponse, TagFields};
use music_companion::text_file::read_file_content;

fn record(track: &str, synced: Option<&str>) -> LrcLibResponse {
    LrcLibResponse {
        track_name: track.to_string(),
        artist_name: "Artist".to_string(),
        synced_lyrics: synced.map(|lyrics| lyrics.to_string()),
        plain_lyrics: "la la".to_string(),
    }
}

#[test]
fn unreadable_file_gives_empty_metadata() {
    assert_eq!(
        get_metadata(None),
        MetadataResponse { title: None, artist: None, album: None, base64_cover: None, year: None }
    );
}

#[test]
fn metadata_carries_the_tag_and_the_first_picture() {
    let tag = TagFields {
        title: Some("Song".to_string()),
        artist: Some("Singer".to_string()),
        album: None,
        year: Some(1999),
        pictures: vec![b"hello".to_vec(), b"second".to_vec()],
    };
    assert_eq!(
        get_metadata(Some(tag)),
        MetadataResponse {
            title: Some("Song".to_string()),
            artist: Some("Singer".to_string()),
            album: None,
            base64_cover: Some("aGVsbG8=".to_string()),
            year: Some(1999),
        }
    );
}

#[test]
fn tag_without_picture_has_no_cover() {
    let tag = TagFields {
        title: None,
        artist: None,
        album: Some("Album".to_string()),
        year: None,
        pictures: Vec::new(),
    };
    let response = get_metadata(Some(tag));
    assert_eq!(response.base64_cover, None);
    assert_eq!(response.album, Some("Album".to_string()));
    assert_eq!(response.year, None);
}

#[test]
fn cover_is_padded_base64_in_the_standard_alphabet() {
    let cover = |data: &[u8]| {
        let tag = TagFields {
            title: None,
            artist: None,
            album: None,
            year: None,
            pictures: vec![data.to_vec()],
        };
        get_metadata(Some(tag)).base64_cover.unwrap()
    };
    assert_eq!(cover(b""), "");
    assert_eq!(cover(b"f"), "Zg==");
    assert_eq!(cover(b"fo"), "Zm8=");
    assert_eq!(cover(b"foo"), "Zm9v");
    assert_eq!(cover(&[0xfb, 0xff, 0xfe]), "+//+");
}

#[test]
fn search_url_encodes_artist_and_track() {
    assert_eq!(
        lyrics_search_url("Daft Punk", "One More Time"),
        "https://lrclib.net/api/search?artist_name=Daft%20Punk&track_name=One%20More%20Time"
    );
}

#[test]
fn search_url_keeps_unreserved_characters() {
    assert_eq!(
        lyrics_search_url("AZaz09-._~", ""),
        "https://lrclib.net/api/search?artist_name=AZaz09-._~&track_name="
    );
}

#[test]
fn search_url_encodes_reserved_and_wide_characters() {
    assert_eq!(
        lyrics_search_url("AC/DC & co", "Beyoncé ñ"),
        "https://lrclib.net/api/search?artist_name=AC%2FDC%20%26%20co&track_name=Beyonc%C3%A9%20%C3%B1"
    );
    assert_eq!(
        lyrics_search_url("👾", "+=?"),
        "https://lrclib.net/api/search?artist_name=%F0%9F%91%BE&track_name=%2B%3D%3F"
    );
}

#[test]
fn first_record_is_the_answer() {
    let outcome = SearchOutcome::Found(vec![record("first", Some("[00:01.00] la")), record("second", None)]);
    assert_eq!(
        fetch_synced_lyrics(outcome, "Artist", "first"),
        Ok(record("first", Some("[00:01.00] la")))
    );
}

#[test]
fn record_without_synced_lyrics_is_still_an_answer() {
    let outcome = SearchOutcome::Found(vec![record("only", None)]);
    assert_eq!(fetch_synced_lyrics(outcome, "Artist", "only"), Ok(record("only", None)));
}

#[test]
fn empty_result_is_not_found() {
    assert_eq!(
        fetch_synced_lyrics(SearchOutcome::Found(Vec::new()), "Daft Punk", "One More Time"),
        Err("No matching synchronized lyrics found for: Daft Punk - One More Time".to_string())
    );
}

#[test]
fn network_failure_is_reported_in_words() {
    assert_eq!(
        fetch_synced_lyrics(SearchOutcome::NetworkFailed("timed out".to_string()), "a", "b"),
        Err("Network/HTTP Error: timed out".to_string())
    );
}

#[test]
fn unparsable_response_is_reported_in_words() {
    assert_eq!(
        fetch_synced_lyrics(SearchOutcome::Unparsable("expected value".to_string()), "a", "b"),
        Err("JSON Parsing Error: expected value".to_string())
    );
}

#[test]
fn file_content_is_handed_through() {
    assert_eq!(read_file_content(Some("[00:01.00] la\n".to_string())), "[00:01.00] la\n");
    assert_eq!(read_file_content(Some(String::new())), "");
}

#[test]
fn unreadable_file_gives_the_error_marker() {
    assert_eq!(read_file_content(None), "Error reading file");
}
