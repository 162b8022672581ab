//! The encodings a track is offered in, and the choice among them.

use vstd::prelude::*;
use crate::error::RipError;

verus! {

/// An encoding of a track's audio, under the name the provider gives it.
#[allow(non_camel_case_types)]
#[derive(Clone, Copy, Debug, PartialEq, Eq, Structural)]
pub enum AudioFileFormat {
    OGG_VORBIS_96,
    OGG_VORBIS_160,
    OGG_VORBIS_320,
    MP3_256,
    MP3_320,
    MP3_160,
    MP3_96,
    MP3_160_ENC,
    AAC_24,
    AAC_48,
    AAC_160,
    AAC_320,
    MP4_128,
    OTHER5,
    FLAC_FLAC,
    XHE_AAC_12,
    XHE_AAC_16,
    XHE_AAC_24,
    FLAC_FLAC_24BIT,
}

/// The bit rate at which an encoding is streamed, in kilobits per second.
pub open spec fn kilobit_rate(format: AudioFileFormat) -> nat {
    match format {
        AudioFileFormat::OGG_VORBIS_96 => 96,
        AudioFileFormat::OGG_VORBIS_160 => 160,
        AudioFileFormat::OGG_VORBIS_320 => 320,
        AudioFileFormat::MP3_256 => 256,
        AudioFileFormat::MP3_320 => 320,
        AudioFileFormat::MP3_160 => 160,
        AudioFileFormat::MP3_96 => 96,
        AudioFileFormat::MP3_160_ENC => 160,
        AudioFileFormat::AAC_24 => 24,
        AudioFileFormat::AAC_48 => 48,
        AudioFileFormat::AAC_160 => 160,
        AudioFileFormat::AAC_320 => 320,
        AudioFileFormat::MP4_128 => 128,
        AudioFileFormat::OTHER5 => 320,
        AudioFileFormat::FLAC_FLAC => 896,
        AudioFileFormat::XHE_AAC_12 => 12,
        AudioFileFormat::XHE_AAC_16 => 16,
        AudioFileFormat::XHE_AAC_24 => 24,
        AudioFileFormat::FLAC_FLAC_24BIT => 24,
    }
}

/// The rate at which an encoding is streamed, in bytes per second: a
/// kilobit is 1024 bits, a byte eight of them.
pub open spec fn byte_rate(format: AudioFileFormat) -> nat {
    kilobit_rate(format) * 128
}

/// The number of bytes per second to ask the stream of an encoding for.
pub fn stream_data_rate(format: AudioFileFormat) -> (rate: usize)
    ensures
        rate == byte_rate(format),
{
    match format {
        AudioFileFormat::OGG_VORBIS_96 => 12 * 1024,
        AudioFileFormat::OGG_VORBIS_160 => 20 * 1024,
        AudioFileFormat::OGG_VORBIS_320 => 40 * 1024,
        AudioFileFormat::MP3_256 => 32 * 1024,
        AudioFileFormat::MP3_320 => 40 * 1024,
        AudioFileFormat::MP3_160 => 20 * 1024,
        AudioFileFormat::MP3_96 => 12 * 1024,
        AudioFileFormat::MP3_160_ENC => 20 * 1024,
        AudioFileFormat::AAC_24 => 3 * 1024,
        AudioFileFormat::AAC_48 => 6 * 1024,
        AudioFileFormat::AAC_160 => 20 * 1024,
        AudioFileFormat::AAC_320 => 40 * 1024,
        AudioFileFormat::MP4_128 => 16 * 1024,
        AudioFileFormat::OTHER5 => 40 * 1024,
        AudioFileFormat::FLAC_FLAC => 112 * 1024,
        AudioFileFormat::XHE_AAC_12 => 1536,
        AudioFileFormat::XHE_AAC_16 => 2048,
        AudioFileFormat::XHE_AAC_24 => 3072,
        AudioFileFormat::FLAC_FLAC_24BIT => 3072,
    }
}

/// The encoding to download, among those a track is offered in: the best
/// of the three tiers of the compressed family that is on offer, the highest
/// bit rate first. `None` where none of the three is on offer.
pub open spec fn best_source(available: Seq<AudioFileFormat>) -> Option<AudioFileFormat> {
    if available.contains(AudioFileFormat::OGG_VORBIS_320) {
        Some(AudioFileFormat::OGG_VORBIS_320)
    } else if available.contains(AudioFileFormat::OGG_VORBIS_160) {
        Some(AudioFileFormat::OGG_VORBIS_160)
    } else if available.contains(AudioFileFormat::OGG_VORBIS_96) {
        Some(AudioFileFormat::OGG_VORBIS_96)
    } else {
        None
    }
}

/// Whether `format` is among `available`.
pub fn is_available(available: &Vec<AudioFileFormat>, format: AudioFileFormat) -> (found: bool)
    ensures
        found == available@.contains(format),
{
    let mut i: usize = 0;
    while i < available.len()
        invariant
            i <= available.len(),
            forall|j: int| 0 <= j < i ==> available@[j] != format,
        decreases available.len() - i,
    {
        if available[i] == format {
            return true;
        }
        i = i + 1;
    }
    false
}

/// The source of a download: the encoding chosen, and the rate to ask its
/// stream for.
#[derive(Clone, Copy, Debug, PartialEq, Eq)]
pub struct AudioSource {
    pub format: AudioFileFormat,
    pub bytes_per_second: usize,
}

/// Chooses the source of a download among the encodings on offer. Fails
/// with `NoAudioSource` exactly where none of the recognised tiers is on
/// offer.
pub fn select_source(available: &Vec<AudioFileFormat>) -> (chosen: Result<AudioSource, RipError>)
    ensures
        match best_source(available@) {
            Some(format) => chosen == Ok::<AudioSource, RipError>(
                AudioSource { format, bytes_per_second: byte_rate(format) as usize },
            ),
            None => chosen == Err::<AudioSource, RipError>(RipError::NoAudioSource),
        },
{
    let format = if is_available(available, AudioFileFormat::OGG_VORBIS_320) {
        AudioFileFormat::OGG_VORBIS_320
    } else if is_available(available, AudioFileFormat::OGG_VORBIS_160) {
        AudioFileFormat::OGG_VORBIS_160
    } else if is_available(available, AudioFileFormat::OGG_VORBIS_96) {
        AudioFileFormat::OGG_VORBIS_96
    } else {
        return Err(RipError::NoAudioSource);
    };
    Ok(AudioSource { format, bytes_per_second: stream_data_rate(format) })
}

/// How the stream of a track is read once its key has been asked for:
/// with the key, or without one where none could be had. Reading without a
/// key keeps the track at the risk of damaged audio, and is to be logged.
#[derive(Clone, Copy, Debug, PartialEq, Eq, Structural)]
pub enum KeyUse {
    Keyed,
    Unkeyed,
}

/// Decides how to read the stream from whether its key was obtained. The
/// track goes on either way; `warn` is set exactly where it goes on without
/// a key.
pub fn key_use(key_obtained: bool) -> (decision: (KeyUse, bool))
    ensures
        decision.0 == (if key_obtained {
            KeyUse::Keyed
        } else {
            KeyUse::Unkeyed
        }),
        decision.1 == !key_obtained,
{
    if key_obtained {
        (KeyUse::Keyed, false)
    } else {
        (KeyUse::Unkeyed, true)
    }
}

} // verus!
