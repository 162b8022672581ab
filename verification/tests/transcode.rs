use mr_rippah::error::RipError;
use mr_rippah::transcode::transcode_outcome;
use mr_rippah::transcode::transcoder_arguments;
use mr_rippah::transcode::transcoder_program;

#[test]
fn transcoder_is_ffmpeg() {
    assert_eq!(transcoder_program(), "ffmpeg");
}

#[test]
fn transcoder_arguments_have_the_fixed_shape() {
    assert_eq!(
        transcoder_arguments("/tmp/in.ogg", "/music/A/B/01 - C.mp3"),
        vec!["-y", "-i", "/tmp/in.ogg", "-codec:a", "libmp3lame", "-qscale:a", "0", "/music/A/B/01 - C.mp3"]
    );
}

#[test]
fn exit_code_zero_is_success() {
    assert_eq!(transcode_outcome(Some(0)), Ok(()));
}

#[test]
fn any_other_exit_fails_with_the_code() {
    assert_eq!(transcode_outcome(Some(1)), Err(RipError::TranscodeError(Some(1))));
    assert_eq!(transcode_outcome(Some(-1)), Err(RipError::TranscodeError(Some(-1))));
    assert_eq!(transcode_outcome(Some(255)), Err(RipError::TranscodeError(Some(255))));
    assert_eq!(transcode_outcome(None), Err(RipError::TranscodeError(None)));
}
