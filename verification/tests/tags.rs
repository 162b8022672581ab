use id3::TagLike;
use mr_rippah::catalog::AlbumMetadata;
use mr_rippah::catalog::ArtistMetadata;
use mr_rippah::catalog::ExternalIds;
use mr_rippah::catalog::ImageMetadata;
use mr_rippah::catalog::TrackMetadata;
use mr_rippah::tags::build_tag;
use mr_rippah::tags::cover_art;
use mr_rippah::tags::cover_url;
use mr_rippah::tags::release_year;
use mr_rippah::tags::CoverFetch;
use mr_rippah::tags::FRONT_COVER;

fn artists(names: &[&str]) -> Vec<ArtistMetadata> {
    names.iter().map(|name| ArtistMetadata { name: name.to_string() }).collect()
}

fn song() -> TrackMetadata {
    TrackMetadata {
        name: "Song".to_string(),
        is_playable: Some(true),
        disc_number: 1,
        track_number: 3,
        album: AlbumMetadata {
            name: "Alb".to_string(),
            release_date: "1999-07-01".to_string(),
            images: vec![],
            artists: artists(&["AA"]),
        },
        artists: artists(&["A"]),
        external_ids: ExternalIds { isrc: None },
    }
}

fn text_of<'a>(tag: &'a id3::Tag, id: &str) -> Option<&'a str> {
    tag.get(id).and_then(|frame| frame.content().text())
}

#[test]
fn tag_set_of_a_track_without_cover() {
    let tag = build_tag(&song(), "4uLU6hMCjMI75M1A2tKUQC", None);
    assert_eq!(tag.title(), Some("Song"));
    assert_eq!(tag.track(), Some(3));
    assert_eq!(tag.disc(), Some(1));
    assert_eq!(tag.year(), Some(1999));
    assert_eq!(tag.artist(), Some("A"));
    assert_eq!(tag.album_artist(), Some("AA"));
    assert_eq!(tag.album(), Some("Alb"));
    assert_eq!(tag.pictures().count(), 0);
}

#[test]
fn tag_set_frames_hold_the_texts() {
    let tag = build_tag(&song(), "4uLU6hMCjMI75M1A2tKUQC", None);
    assert_eq!(text_of(&tag, "TIT2"), Some("Song"));
    assert_eq!(text_of(&tag, "TPE1"), Some("A"));
    assert_eq!(text_of(&tag, "TPE2"), Some("AA"));
    assert_eq!(text_of(&tag, "TALB"), Some("Alb"));
    assert_eq!(text_of(&tag, "TRCK"), Some("3"));
    assert_eq!(text_of(&tag, "TPOS"), Some("1"));
    assert_eq!(text_of(&tag, "TYER"), Some("1999"));
    assert_eq!(text_of(&tag, "TXXX"), Some("spotify:track:4uLU6hMCjMI75M1A2tKUQC"));
    assert_eq!(text_of(&tag, "TSRC"), None);
    assert_eq!(tag.frames().count(), 8);
}

#[test]
fn recording_code_gets_its_frame() {
    let mut metadata = song();
    metadata.external_ids.isrc = Some("USRC17607839".to_string());
    let tag = build_tag(&metadata, "id", None);
    assert_eq!(text_of(&tag, "TSRC"), Some("USRC17607839"));
    assert_eq!(tag.frames().count(), 9);
}

#[test]
fn first_artists_are_the_primary_ones() {
    let mut metadata = song();
    metadata.artists = artists(&["First", "Second"]);
    metadata.album.artists = artists(&["Band", "Guest"]);
    let tag = build_tag(&metadata, "id", None);
    assert_eq!(tag.artist(), Some("First"));
    assert_eq!(tag.album_artist(), Some("Band"));
}

#[test]
fn missing_artists_leave_their_frames_out() {
    let mut metadata = song();
    metadata.artists = vec![];
    metadata.album.artists = vec![];
    let tag = build_tag(&metadata, "id", None);
    assert_eq!(tag.artist(), None);
    assert_eq!(tag.album_artist(), None);
    assert_eq!(tag.title(), Some("Song"));
    assert_eq!(tag.frames().count(), 6);
}

#[test]
fn cover_is_embedded_as_front_cover() {
    let tag = build_tag(&song(), "id", Some(vec![0xff, 0xd8, 0xff, 0xe0]));
    let pictures: Vec<&id3::frame::Picture> = tag.pictures().collect();
    assert_eq!(pictures.len(), 1);
    assert_eq!(pictures[0].mime_type, "image/jpeg");
    assert_eq!(pictures[0].picture_type, id3::frame::PictureType::CoverFront);
    assert_eq!(u8::from(pictures[0].picture_type), FRONT_COVER);
    assert_eq!(pictures[0].description, "Cover");
    assert_eq!(pictures[0].data, vec![0xff, 0xd8, 0xff, 0xe0]);
    assert_eq!(tag.title(), Some("Song"));
}

#[test]
fn tag_set_can_be_written() {
    let tag = build_tag(&song(), "id", Some(vec![1, 2, 3]));
    let mut bytes: Vec<u8> = Vec::new();
    tag.write_to(&mut bytes, id3::Version::Id3v24).unwrap();
    assert_eq!(&bytes[0..3], b"ID3");
    assert_eq!(bytes[3], 4);
}

#[test]
fn large_numbers_are_written_in_full() {
    let mut metadata = song();
    metadata.track_number = 4294967295;
    metadata.disc_number = 120;
    let tag = build_tag(&metadata, "id", None);
    assert_eq!(text_of(&tag, "TRCK"), Some("4294967295"));
    assert_eq!(text_of(&tag, "TPOS"), Some("120"));
}

#[test]
fn year_frame_is_padded_to_four_characters() {
    let mut metadata = song();
    metadata.album.release_date = "0007".to_string();
    assert_eq!(text_of(&build_tag(&metadata, "id", None), "TYER"), Some("0007"));
    metadata.album.release_date = "-012".to_string();
    assert_eq!(text_of(&build_tag(&metadata, "id", None), "TYER"), Some("-012"));
    metadata.album.release_date = "unknown".to_string();
    assert_eq!(text_of(&build_tag(&metadata, "id", None), "TYER"), Some("0000"));
}

#[test]
fn release_year_reads_the_first_four_characters() {
    assert_eq!(release_year("1999-07-01"), 1999);
    assert_eq!(release_year("2024"), 2024);
    assert_eq!(release_year("2024-12"), 2024);
    assert_eq!(release_year("0000"), 0);
    assert_eq!(release_year("0042"), 42);
    assert_eq!(release_year("9999x"), 9999);
}

#[test]
fn release_year_accepts_a_sign() {
    assert_eq!(release_year("+123"), 123);
    assert_eq!(release_year("-123"), -123);
    assert_eq!(release_year("-999"), -999);
    assert_eq!(release_year("-000"), 0);
}

#[test]
fn release_year_is_zero_where_nothing_parses() {
    assert_eq!(release_year(""), 0);
    assert_eq!(release_year("199"), 0);
    assert_eq!(release_year("19a9"), 0);
    assert_eq!(release_year("abcd"), 0);
    assert_eq!(release_year(" 199"), 0);
    assert_eq!(release_year("199 "), 0);
    assert_eq!(release_year("1_99"), 0);
    assert_eq!(release_year("+-12"), 0);
    assert_eq!(release_year("12+3"), 0);
    assert_eq!(release_year("----"), 0);
    assert_eq!(release_year("\u{661}\u{669}\u{669}\u{669}"), 0);
    assert_eq!(release_year("19\u{e9}9"), 0);
}

#[test]
fn release_year_agrees_with_the_standard_parser() {
    for text in ["1999", "0001", "+001", "-001", "12a4", "+12-", "    ", "00-1", "9999", "-0-0"] {
        assert_eq!(release_year(text), text.parse::<i32>().unwrap_or_default(), "{}", text);
    }
}

#[test]
fn cover_url_is_the_first_image() {
    let mut metadata = song();
    assert_eq!(cover_url(&metadata), None);
    metadata.album.images = vec![
        ImageMetadata { url: "https://i.example/640".to_string() },
        ImageMetadata { url: "https://i.example/300".to_string() },
    ];
    assert_eq!(cover_url(&metadata), Some("https://i.example/640"));
}

#[test]
fn cover_art_takes_the_body_of_a_successful_answer() {
    assert_eq!(cover_art(CoverFetch::Answered { status: 200, body: vec![1, 2] }), Some(vec![1, 2]));
    assert_eq!(cover_art(CoverFetch::Answered { status: 299, body: vec![] }), Some(vec![]));
}

#[test]
fn cover_art_tolerates_a_failed_fetch() {
    assert_eq!(cover_art(CoverFetch::Failed), None);
    assert_eq!(cover_art(CoverFetch::Answered { status: 404, body: vec![1, 2] }), None);
    assert_eq!(cover_art(CoverFetch::Answered { status: 301, body: vec![1, 2] }), None);
    assert_eq!(cover_art(CoverFetch::Answered { status: 199, body: vec![1, 2] }), None);
}
