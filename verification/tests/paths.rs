use mr_rippah::catalog::AlbumMetadata;
use mr_rippah::catalog::ArtistMetadata;
use mr_rippah::catalog::ExternalIds;
use mr_rippah::catalog::TrackMetadata;
use mr_rippah::paths::track_location;
use mr_rippah::paths::Candidate;
use mr_rippah::paths::DirectoryProbe;
use mr_rippah::paths::ProbeStep;
use mr_rippah::paths::TrackLocation;

fn track(number: u32, name: &str, album: &str, album_artists: &[&str]) -> TrackMetadata {
    TrackMetadata {
        name: name.to_string(),
        is_playable: None,
        disc_number: 1,
        track_number: number,
        album: AlbumMetadata {
            name: album.to_string(),
            release_date: "2001".to_string(),
            images: vec![],
            artists: album_artists.iter().map(|a| ArtistMetadata { name: a.to_string() }).collect(),
        },
        artists: vec![ArtistMetadata { name: "Performer".to_string() }],
        external_ids: ExternalIds { isrc: None },
    }
}

fn search(name: Option<&str>, existing: usize) -> Candidate {
    let mut step = DirectoryProbe::start();
    let mut probes = 0;
    loop {
        match step {
            ProbeStep::Probe(probe, _) => {
                step = probe.advance(name, probes < existing);
                probes += 1;
            }
            ProbeStep::Create(candidate) => return candidate,
            ProbeStep::Exhausted => panic!("the search ran out of numbers"),
        }
    }
}

#[test]
fn search_begins_with_the_directory_asked_for() {
    match DirectoryProbe::start() {
        ProbeStep::Probe(_, candidate) => assert_eq!(candidate, Candidate::Requested),
        _ => panic!("a search begins with a probe"),
    }
}

#[test]
fn free_directory_is_created_as_it_is() {
    assert_eq!(search(Some("XYZ"), 0), Candidate::Requested);
}

#[test]
fn taken_directory_gets_a_numbered_sibling() {
    assert_eq!(search(Some("XYZ"), 1), Candidate::Sibling("XYZ (1)".to_string()));
    assert_eq!(search(Some("XYZ"), 2), Candidate::Sibling("XYZ (2)".to_string()));
    assert_eq!(search(Some("XYZ"), 10), Candidate::Sibling("XYZ (10)".to_string()));
    assert_eq!(search(Some("XYZ"), 123), Candidate::Sibling("XYZ (123)".to_string()));
}

#[test]
fn each_probe_names_the_next_sibling() {
    let probe = match DirectoryProbe::start() {
        ProbeStep::Probe(probe, _) => probe,
        _ => panic!("a search begins with a probe"),
    };
    let probe = match probe.advance(Some("base"), true) {
        ProbeStep::Probe(probe, candidate) => {
            assert_eq!(candidate, Candidate::Sibling("base (1)".to_string()));
            probe
        }
        _ => panic!("a taken directory is followed by a probe"),
    };
    match probe.advance(Some("base"), true) {
        ProbeStep::Probe(_, candidate) => assert_eq!(candidate, Candidate::Sibling("base (2)".to_string())),
        _ => panic!("a taken directory is followed by a probe"),
    }
}

#[test]
fn directory_without_a_name_is_numbered_as_playlist() {
    assert_eq!(search(None, 0), Candidate::Requested);
    assert_eq!(search(None, 3), Candidate::Sibling("playlist (3)".to_string()));
}

#[test]
fn track_location_is_artist_album_and_numbered_file() {
    assert_eq!(
        track_location(&track(1, "Name", "Album", &["Artist", "Other"])),
        TrackLocation {
            artist: "Artist".to_string(),
            album: "Album".to_string(),
            file_name: "01 - Name.mp3".to_string(),
        }
    );
}

#[test]
fn track_number_has_at_least_two_digits() {
    assert_eq!(track_location(&track(0, "n", "a", &[])).file_name, "00 - n.mp3");
    assert_eq!(track_location(&track(9, "n", "a", &[])).file_name, "09 - n.mp3");
    assert_eq!(track_location(&track(10, "n", "a", &[])).file_name, "10 - n.mp3");
    assert_eq!(track_location(&track(99, "n", "a", &[])).file_name, "99 - n.mp3");
    assert_eq!(track_location(&track(100, "n", "a", &[])).file_name, "100 - n.mp3");
    assert_eq!(track_location(&track(4294967295, "n", "a", &[])).file_name, "4294967295 - n.mp3");
}

#[test]
fn album_without_artist_goes_to_unknown_artist() {
    let location = track_location(&track(7, "Name", "Album", &[]));
    assert_eq!(location.artist, "Unknown Artist");
    assert_eq!(location.album, "Album");
}

#[test]
fn names_are_taken_as_the_catalog_gives_them() {
    let location = track_location(&track(2, "a/b: c?", "Caf\u{e9} *", &["AC/DC"]));
    assert_eq!(location.artist, "AC/DC");
    assert_eq!(location.album, "Caf\u{e9} *");
    assert_eq!(location.file_name, "02 - a/b: c?.mp3");
}
