use mr_rippah::error::RipError;
use mr_rippah::reference::normalise_playlist_uri;

#[test]
fn rejected_reference_is_named_in_the_message() {
    let error = normalise_playlist_uri("not a playlist").unwrap_err();
    assert_eq!(error.message(), "Invalid Spotify playlist URI: not a playlist");
}

#[test]
fn transcode_message_names_the_exit_code() {
    assert_eq!(RipError::TranscodeError(Some(1)).message(), "ffmpeg failed with exit code 1");
    assert_eq!(RipError::TranscodeError(Some(-11)).message(), "ffmpeg failed with exit code -11");
    assert_eq!(
        RipError::TranscodeError(Some(i32::MIN)).message(),
        "ffmpeg failed with exit code -2147483648"
    );
    assert_eq!(RipError::TranscodeError(None).message(), "ffmpeg ended without an exit code");
}

#[test]
fn every_other_failure_has_its_message() {
    assert_eq!(
        RipError::FilesystemError.message(),
        "Unable to create or write a file or directory"
    );
    assert_eq!(RipError::CatalogError.message(), "Spotify API request failed");
    assert_eq!(RipError::TransportError.message(), "Unable to read the audio stream");
    assert_eq!(
        RipError::NoAudioSource.message(),
        "No supported audio files available for track"
    );
    assert_eq!(RipError::TagError.message(), "Unable to write ID3 tags");
}
