//! The ways in which a run, or one track of it, can fail.

use vstd::prelude::*;
use crate::text::push_signed;
use crate::text::signed_decimal;

verus! {

/// A failure of the pipeline.
///
/// The first three kinds end a run when they arise while it is being set
/// up; every kind ends the track during which it arises, and only that track.
#[derive(Clone, Debug, PartialEq, Eq)]
pub enum RipError {
    /// The playlist reference is neither canonical nor a recognised web
    /// link. Carries the offending input.
    InvalidReference(String),
    /// A directory or file could not be created or written.
    FilesystemError,
    /// A catalog request failed, was answered with a non-success status, or
    /// returned a body that could not be read.
    CatalogError,
    /// The audio stream could not be read to its end.
    TransportError,
    /// None of the recognised encodings is available for the track.
    NoAudioSource,
    /// The transcoder did not finish with exit code zero. Carries the exit
    /// code, if the process left one.
    TranscodeError(Option<i32>),
    /// The tag set could not be written to the file.
    TagError,
}

/// What a [`RipError`] says, with text as character sequences.
pub enum Failure {
    InvalidReference(Seq<char>),
    Filesystem,
    Catalog,
    Transport,
    NoAudioSource,
    Transcode(Option<i32>),
    Tag,
}

impl View for RipError {
    type V = Failure;

    open spec fn view(&self) -> Failure {
        match self {
            RipError::InvalidReference(input) => Failure::InvalidReference(input@),
            RipError::FilesystemError => Failure::Filesystem,
            RipError::CatalogError => Failure::Catalog,
            RipError::TransportError => Failure::Transport,
            RipError::NoAudioSource => Failure::NoAudioSource,
            RipError::TranscodeError(code) => Failure::Transcode(*code),
            RipError::TagError => Failure::Tag,
        }
    }
}

/// What a failure says of itself in a log.
pub open spec fn message_of(failure: Failure) -> Seq<char> {
    match failure {
        Failure::InvalidReference(input) => "Invalid Spotify playlist URI: "@ + input,
        Failure::Filesystem => "Unable to create or write a file or directory"@,
        Failure::Catalog => "Spotify API request failed"@,
        Failure::Transport => "Unable to read the audio stream"@,
        Failure::NoAudioSource => "No supported audio files available for track"@,
        Failure::Transcode(Some(code)) => "ffmpeg failed with exit code "@ + signed_decimal(
            code as int,
        ),
        Failure::Transcode(None) => "ffmpeg ended without an exit code"@,
        Failure::Tag => "Unable to write ID3 tags"@,
    }
}

impl RipError {
    /// The message of the failure, for the log. That of a rejected
    /// reference names the input; that of a failed transcoding names the exit
    /// code.
    pub fn message(&self) -> (message: String)
        ensures
            message@ == message_of(self@),
    {
        match self {
            RipError::InvalidReference(input) => {
                let mut message = String::from_str("Invalid Spotify playlist URI: ");
                message.append(input.as_str());
                message
            },
            RipError::FilesystemError => String::from_str(
                "Unable to create or write a file or directory",
            ),
            RipError::CatalogError => String::from_str("Spotify API request failed"),
            RipError::TransportError => String::from_str("Unable to read the audio stream"),
            RipError::NoAudioSource => String::from_str(
                "No supported audio files available for track",
            ),
            RipError::TranscodeError(Some(code)) => {
                let mut message = String::from_str("ffmpeg failed with exit code ");
                push_signed(&mut message, *code);
                message
            },
            RipError::TranscodeError(None) => String::from_str("ffmpeg ended without an exit code"),
            RipError::TagError => String::from_str("Unable to write ID3 tags"),
        }
    }

    /// Whether a failure of this kind, met while a run is being set up,
    /// ends the run. Such failures are those of resolving the reference,
    /// allocating the directory and enumerating the playlist.
    pub open spec fn ends_setup(&self) -> bool {
        self@ is InvalidReference || self@ is Filesystem || self@ is Catalog
    }
}

} // verus!
