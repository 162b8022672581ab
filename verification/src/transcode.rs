//! The call of the transcoder and the reading of how it ended.

use vstd::prelude::*;
use crate::error::RipError;

verus! {

/// The arguments of the transcoder: overwrite what is there, read the
/// source, encode with the MP3 encoder at its best quality setting, write the
/// target.
pub open spec fn transcoder_line(source: Seq<char>, target: Seq<char>) -> Seq<Seq<char>> {
    seq![
        "-y"@,
        "-i"@,
        source,
        "-codec:a"@,
        "libmp3lame"@,
        "-qscale:a"@,
        "0"@,
        target,
    ]
}

/// The program that transcodes.
pub fn transcoder_program() -> (program: &'static str)
    ensures
        program@ == "ffmpeg"@,
{
    "ffmpeg"
}

/// The arguments with which the transcoder turns `source` into `target`.
pub fn transcoder_arguments(source: &str, target: &str) -> (arguments: Vec<String>)
    ensures
        arguments.deep_view() == transcoder_line(source@, target@),
{
    let mut arguments: Vec<String> = Vec::new();
    arguments.push(String::from_str("-y"));
    arguments.push(String::from_str("-i"));
    arguments.push(String::from_str(source));
    arguments.push(String::from_str("-codec:a"));
    arguments.push(String::from_str("libmp3lame"));
    arguments.push(String::from_str("-qscale:a"));
    arguments.push(String::from_str("0"));
    arguments.push(String::from_str(target));
    assert(arguments.deep_view() =~= transcoder_line(source@, target@));
    arguments
}

/// Reads how the transcoder ended: exit code zero is success, and anything
/// else, a missing exit code too, fails the track with that exit code.
pub fn transcode_outcome(exit_code: Option<i32>) -> (outcome: Result<(), RipError>)
    ensures
        exit_code == Some(0i32) ==> outcome is Ok,
        exit_code != Some(0i32) ==> outcome == Err::<(), RipError>(
            RipError::TranscodeError(exit_code),
        ),
{
    match exit_code {
        Some(0) => Ok(()),
        _ => Err(RipError::TranscodeError(exit_code)),
    }
}

} // verus!
