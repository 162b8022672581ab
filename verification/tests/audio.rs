use mr_rippah::audio::is_available;
use mr_rippah::audio::key_use;
use mr_rippah::audio::select_source;
use mr_rippah::audio::stream_data_rate;
use mr_rippah::audio::AudioFileFormat;
use mr_rippah::audio::AudioSource;
use mr_rippah::audio::KeyUse;
use mr_rippah::error::RipError;

#[test]
fn stream_data_rate_of_each_encoding() {
    assert_eq!(stream_data_rate(AudioFileFormat::OGG_VORBIS_96), 12288);
    assert_eq!(stream_data_rate(AudioFileFormat::OGG_VORBIS_160), 20480);
    assert_eq!(stream_data_rate(AudioFileFormat::OGG_VORBIS_320), 40960);
    assert_eq!(stream_data_rate(AudioFileFormat::MP3_256), 32768);
    assert_eq!(stream_data_rate(AudioFileFormat::MP3_320), 40960);
    assert_eq!(stream_data_rate(AudioFileFormat::MP3_160), 20480);
    assert_eq!(stream_data_rate(AudioFileFormat::MP3_96), 12288);
    assert_eq!(stream_data_rate(AudioFileFormat::MP3_160_ENC), 20480);
    assert_eq!(stream_data_rate(AudioFileFormat::AAC_24), 3072);
    assert_eq!(stream_data_rate(AudioFileFormat::AAC_48), 6144);
    assert_eq!(stream_data_rate(AudioFileFormat::AAC_160), 20480);
    assert_eq!(stream_data_rate(AudioFileFormat::AAC_320), 40960);
    assert_eq!(stream_data_rate(AudioFileFormat::MP4_128), 16384);
    assert_eq!(stream_data_rate(AudioFileFormat::OTHER5), 40960);
    assert_eq!(stream_data_rate(AudioFileFormat::FLAC_FLAC), 114688);
    assert_eq!(stream_data_rate(AudioFileFormat::XHE_AAC_12), 1536);
    assert_eq!(stream_data_rate(AudioFileFormat::XHE_AAC_16), 2048);
    assert_eq!(stream_data_rate(AudioFileFormat::XHE_AAC_24), 3072);
    assert_eq!(stream_data_rate(AudioFileFormat::FLAC_FLAC_24BIT), 3072);
}

#[test]
fn highest_tier_on_offer_is_chosen() {
    let all = vec![
        AudioFileFormat::OGG_VORBIS_96,
        AudioFileFormat::MP3_320,
        AudioFileFormat::OGG_VORBIS_320,
        AudioFileFormat::OGG_VORBIS_160,
    ];
    assert_eq!(
        select_source(&all),
        Ok(AudioSource { format: AudioFileFormat::OGG_VORBIS_320, bytes_per_second: 40960 })
    );
}

#[test]
fn lower_tiers_are_fallen_back_to() {
    assert_eq!(
        select_source(&vec![AudioFileFormat::OGG_VORBIS_96, AudioFileFormat::OGG_VORBIS_160]),
        Ok(AudioSource { format: AudioFileFormat::OGG_VORBIS_160, bytes_per_second: 20480 })
    );
    assert_eq!(
        select_source(&vec![AudioFileFormat::FLAC_FLAC, AudioFileFormat::OGG_VORBIS_96]),
        Ok(AudioSource { format: AudioFileFormat::OGG_VORBIS_96, bytes_per_second: 12288 })
    );
}

#[test]
fn no_recognised_tier_is_no_audio_source() {
    assert_eq!(select_source(&vec![]), Err(RipError::NoAudioSource));
    assert_eq!(
        select_source(&vec![AudioFileFormat::MP3_320, AudioFileFormat::FLAC_FLAC, AudioFileFormat::AAC_320]),
        Err(RipError::NoAudioSource)
    );
}

#[test]
fn is_available_finds_what_is_on_offer() {
    let offer = vec![AudioFileFormat::MP3_96, AudioFileFormat::AAC_24];
    assert!(is_available(&offer, AudioFileFormat::AAC_24));
    assert!(!is_available(&offer, AudioFileFormat::AAC_48));
    assert!(!is_available(&vec![], AudioFileFormat::AAC_48));
}

#[test]
fn missing_key_goes_on_with_a_warning() {
    assert_eq!(key_use(true), (KeyUse::Keyed, false));
    assert_eq!(key_use(false), (KeyUse::Unkeyed, true));
}
