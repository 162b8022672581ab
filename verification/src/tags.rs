//! The tag set of a finished track file.

use vstd::prelude::*;
use id3::TagLike;
use crate::catalog::TrackInfo;
use crate::catalog::TrackMetadata;
use crate::catalog::is_success_status;
use crate::text::char_digit;
use crate::text::decimal;
use crate::text::digits_value;
use crate::text::signed_value;
use crate::text::zero_padded;

verus! {

/// The year of a release date: the integer that its first four characters
/// write, with or without a sign. A date that is shorter, or whose first four
/// characters write no integer, has the year zero.
pub open spec fn year_of(release_date: Seq<char>) -> int {
    if release_date.len() < 4 {
        0
    } else {
        match signed_value(release_date.subrange(0, 4)) {
            Some(year) => year,
            None => 0,
        }
    }
}

/// The value of the digits `date[from..4]`, for `from` of 0 or 1.
fn leading_digits(date: &str, from: usize) -> (value: Option<i32>)
    requires
        date@.len() >= 4,
        from <= 1,
    ensures
        match value {
            Some(v) => digits_value(date@.subrange(from as int, 4)) == Some(v as nat) && 0 <= v
                <= 9999 && (from == 1 ==> v <= 999),
            None => digits_value(date@.subrange(from as int, 4)) is None,
        },
{
    let ghost digits = date@.subrange(from as int, 4);
    let mut total: i32 = 0;
    let mut i: usize = from;
    while i < 4
        invariant
            from <= i <= 4,
            from <= 1,
            date@.len() >= 4,
            digits == date@.subrange(from as int, 4),
            i > from ==> digits_value(digits.subrange(0, i - from)) == Some(total as nat),
            i == from ==> total == 0,
            0 <= total,
            i - from == 1 ==> total <= 9,
            i - from == 2 ==> total <= 99,
            i - from == 3 ==> total <= 999,
            i - from == 4 ==> total <= 9999,
        decreases 4 - i,
    {
        let ghost prefix = digits.subrange(0, i - from + 1);
        proof {
            assert(prefix.last() == date@[i as int]);
            assert(prefix.drop_last() =~= digits.subrange(0, i - from));
        }
        match char_digit(date.get_char(i)) {
            Some(d) => {
                total = total * 10 + d as i32;
            },
            None => {
                proof {
                    lemma_digits_value_prefix(digits, (i - from + 1) as nat);
                }
                return None;
            },
        }
        i = i + 1;
    }
    proof {
        assert(digits.subrange(0, 4 - from) =~= digits);
    }
    Some(total)
}

/// Where a prefix of a string writes no number, neither does the string.
proof fn lemma_digits_value_prefix(s: Seq<char>, len: nat)
    requires
        1 <= len <= s.len(),
        digits_value(s.subrange(0, len as int)) is None,
    ensures
        digits_value(s) is None,
    decreases s.len(),
{
    if len < s.len() {
        assert(s.drop_last().subrange(0, len as int) =~= s.subrange(0, len as int));
        lemma_digits_value_prefix(s.drop_last(), len);
    } else {
        assert(s.subrange(0, len as int) =~= s);
    }
}

/// The year of a release date, as [`year_of`] defines it.
pub fn release_year(release_date: &str) -> (year: i32)
    ensures
        year == year_of(release_date@),
        -999 <= year <= 9999,
{
    if release_date.unicode_len() < 4 {
        return 0;
    }
    let first: char = release_date.get_char(0);
    let ghost head = release_date@.subrange(0, 4);
    proof {
        assert(head[0] == first);
        assert(head.subrange(1, 4) =~= release_date@.subrange(1, 4));
    }
    if first == '-' {
        match leading_digits(release_date, 1) {
            Some(v) => -v,
            None => 0,
        }
    } else if first == '+' {
        match leading_digits(release_date, 1) {
            Some(v) => v,
            None => 0,
        }
    } else {
        match leading_digits(release_date, 0) {
            Some(v) => v,
            None => 0,
        }
    }
}

/// The tag of the `id3` crate: an ordered list of frames, each with a
/// four-character identifier and a content.
#[verifier::external_type_specification]
#[verifier::external_body]
pub struct ExTag(id3::Tag);

/// The text frames of a tag: for each frame identifier that a frame with
/// text content carries, the text of the last such frame.
pub uninterp spec fn tag_texts(tag: id3::Tag) -> Map<Seq<char>, Seq<char>>;

/// The pictures of a tag: for each frame with picture content, in the order
/// of the frames, its MIME type, the number of its picture type, its
/// description and its image data.
pub uninterp spec fn tag_pictures(tag: id3::Tag) -> Seq<(Seq<char>, u8, Seq<char>, Seq<u8>)>;

/// The number of the picture type "front cover".
pub const FRONT_COVER: u8 = 3;

/// The text that the `id3` crate writes for a year: the year in decimal,
/// filled with zeros to four characters, a minus sign counting as one of them.
pub open spec fn year_text(year: int) -> Seq<char> {
    if year >= 0 {
        zero_padded(year as nat, 4)
    } else {
        seq!['-'] + zero_padded((-year) as nat, 3)
    }
}

/// `id3::Tag::new`: a tag without frames.
#[verifier::external_body]
fn new_tag() -> (tag: id3::Tag)
    ensures
        tag_texts(tag).dom() == Set::<Seq<char>>::empty(),
        tag_pictures(tag).len() == 0,
{
    id3::Tag::new()
}

/// `id3::TagLike::set_title`: replaces the first text frame `TIT2` by one
/// with the title, placed last. No picture is touched.
#[verifier::external_body]
fn set_title(tag: &mut id3::Tag, title: &str)
    ensures
        tag_texts(*final(tag)) == tag_texts(*old(tag)).insert("TIT2"@, title@),
        tag_pictures(*final(tag)) == tag_pictures(*old(tag)),
{
    tag.set_title(title)
}

/// `id3::TagLike::set_artist`: as `set_title`, for the frame `TPE1`.
#[verifier::external_body]
fn set_artist(tag: &mut id3::Tag, artist: &str)
    ensures
        tag_texts(*final(tag)) == tag_texts(*old(tag)).insert("TPE1"@, artist@),
        tag_pictures(*final(tag)) == tag_pictures(*old(tag)),
{
    tag.set_artist(artist)
}

/// `id3::TagLike::set_album_artist`: as `set_title`, for the frame `TPE2`.
#[verifier::external_body]
fn set_album_artist(tag: &mut id3::Tag, album_artist: &str)
    ensures
        tag_texts(*final(tag)) == tag_texts(*old(tag)).insert("TPE2"@, album_artist@),
        tag_pictures(*final(tag)) == tag_pictures(*old(tag)),
{
    tag.set_album_artist(album_artist)
}

/// `id3::TagLike::set_album`: as `set_title`, for the frame `TALB`.
#[verifier::external_body]
fn set_album(tag: &mut id3::Tag, album: &str)
    ensures
        tag_texts(*final(tag)) == tag_texts(*old(tag)).insert("TALB"@, album@),
        tag_pictures(*final(tag)) == tag_pictures(*old(tag)),
{
    tag.set_album(album)
}

/// `id3::TagLike::set_track`: on a tag without a text frame `TRCK` there is
/// no track total to keep, and the new frame holds the number in decimal.
/// No picture is touched.
#[verifier::external_body]
fn set_track(tag: &mut id3::Tag, track: u32)
    ensures
        !tag_texts(*old(tag)).dom().contains("TRCK"@) ==> tag_texts(*final(tag)) == tag_texts(
            *old(tag),
        ).insert("TRCK"@, decimal(track as nat)),
        tag_pictures(*final(tag)) == tag_pictures(*old(tag)),
{
    tag.set_track(track)
}

/// `id3::TagLike::set_disc`: as `set_track`, for the frame `TPOS`.
#[verifier::external_body]
fn set_disc(tag: &mut id3::Tag, disc: u32)
    ensures
        !tag_texts(*old(tag)).dom().contains("TPOS"@) ==> tag_texts(*final(tag)) == tag_texts(
            *old(tag),
        ).insert("TPOS"@, decimal(disc as nat)),
        tag_pictures(*final(tag)) == tag_pictures(*old(tag)),
{
    tag.set_disc(disc)
}

/// `id3::TagLike::set_year`: as `set_title`, for the frame `TYER`, whose
/// text is the year written with at least four characters.
#[verifier::external_body]
fn set_year(tag: &mut id3::Tag, year: i32)
    ensures
        tag_texts(*final(tag)) == tag_texts(*old(tag)).insert("TYER"@, year_text(year as int)),
        tag_pictures(*final(tag)) == tag_pictures(*old(tag)),
{
    tag.set_year(year)
}

/// `id3::TagLike::add_frame` on `id3::Frame::with_content` with text
/// content: replaces the first text frame of that identifier by the new one,
/// placed last. The identifier has four bytes, as `with_content` demands, and
/// names a text frame, so that no picture is touched.
#[verifier::external_body]
fn add_text_frame(tag: &mut id3::Tag, id: &str, text: &str)
    requires
        id@.len() == 4,
        id.is_ascii(),
        id@[0] == 'T',
    ensures
        tag_texts(*final(tag)) == tag_texts(*old(tag)).insert(id@, text@),
        tag_pictures(*final(tag)) == tag_pictures(*old(tag)),
{
    tag.add_frame(id3::Frame::with_content(id, id3::Content::Text(text.to_string())));
}

/// `id3::TagLike::add_frame` on an `id3::frame::Picture` of the type
/// `CoverFront`, which the crate numbers 3 and which becomes a frame `APIC`:
/// on a tag without pictures the new picture is the only one. No text frame
/// is touched.
#[verifier::external_body]
fn add_front_cover(tag: &mut id3::Tag, mime_type: &str, description: &str, data: Vec<u8>)
    ensures
        tag_texts(*final(tag)) == tag_texts(*old(tag)),
        tag_pictures(*old(tag)).len() == 0 ==> tag_pictures(*final(tag)) == seq![
            (mime_type@, FRONT_COVER, description@, data@),
        ],
{
    tag.add_frame(
        id3::frame::Picture {
            mime_type: mime_type.to_string(),
            picture_type: id3::frame::PictureType::CoverFront,
            description: description.to_string(),
            data,
        },
    );
}

/// The canonical reference of a track, recorded in the tag for provenance.
pub open spec fn track_reference(track_id: Seq<char>) -> Seq<char> {
    "spotify:track:"@ + track_id
}

/// The text frames of the tag set of a track, by frame identifier: title,
/// first track artist and first album artist where there is one, album, track
/// and disc number, year, the recording code where there is one, and the
/// track's canonical reference.
pub open spec fn expected_texts(info: TrackInfo, track_id: Seq<char>) -> Map<
    Seq<char>,
    Seq<char>,
> {
    let titled = Map::<Seq<char>, Seq<char>>::empty().insert("TIT2"@, info.name);
    let with_artist = if info.artists.len() > 0 {
        titled.insert("TPE1"@, info.artists[0])
    } else {
        titled
    };
    let with_album_artist = if info.album.artists.len() > 0 {
        with_artist.insert("TPE2"@, info.album.artists[0])
    } else {
        with_artist
    };
    let numbered = with_album_artist.insert("TALB"@, info.album.name).insert(
        "TRCK"@,
        decimal(info.track_number),
    ).insert("TPOS"@, decimal(info.disc_number)).insert(
        "TYER"@,
        year_text(year_of(info.album.release_date)),
    );
    let with_code = match info.isrc {
        Some(code) => numbered.insert("TSRC"@, code),
        None => numbered,
    };
    with_code.insert("TXXX"@, track_reference(track_id))
}

/// The pictures of the tag set of a track: the cover, where one was
/// fetched, as a JPEG image of the type front cover, described as "Cover".
pub open spec fn expected_pictures(cover: Option<Seq<u8>>) -> Seq<
    (Seq<char>, u8, Seq<char>, Seq<u8>),
> {
    match cover {
        Some(data) => seq![("image/jpeg"@, FRONT_COVER, "Cover"@, data)],
        None => Seq::empty(),
    }
}

/// What the tag set of a track holds, frame by frame: each text frame of
/// [`expected_texts`] holds its field of the record, the frames of the
/// artists and of the recording code are there exactly where the record has
/// the field, and there is no other text frame.
pub proof fn lemma_expected_texts_fields(info: TrackInfo, track_id: Seq<char>)
    ensures
        expected_texts(info, track_id)["TIT2"@] == info.name,
        expected_texts(info, track_id)["TALB"@] == info.album.name,
        expected_texts(info, track_id)["TRCK"@] == decimal(info.track_number),
        expected_texts(info, track_id)["TPOS"@] == decimal(info.disc_number),
        expected_texts(info, track_id)["TYER"@] == year_text(year_of(info.album.release_date)),
        expected_texts(info, track_id)["TXXX"@] == track_reference(track_id),
        expected_texts(info, track_id).dom().contains("TPE1"@) <==> info.artists.len() > 0,
        info.artists.len() > 0 ==> expected_texts(info, track_id)["TPE1"@] == info.artists[0],
        expected_texts(info, track_id).dom().contains("TPE2"@) <==> info.album.artists.len() > 0,
        info.album.artists.len() > 0 ==> expected_texts(info, track_id)["TPE2"@]
            == info.album.artists[0],
        expected_texts(info, track_id).dom().contains("TSRC"@) <==> info.isrc is Some,
        info.isrc matches Some(code) ==> expected_texts(info, track_id)["TSRC"@] == code,
        forall|id: Seq<char>| #[trigger]
            expected_texts(info, track_id).dom().contains(id) ==> id == "TIT2"@ || id == "TPE1"@
                || id == "TPE2"@ || id == "TALB"@ || id == "TRCK"@ || id == "TPOS"@ || id
                == "TYER"@ || id == "TSRC"@ || id == "TXXX"@,
{
    lemma_frame_ids();
}

/// The frame identifiers that a tag set uses are pairwise distinct
/// four-character ASCII names that begin with `T`.
proof fn lemma_frame_ids()
    ensures
        "TIT2"@ == seq!['T', 'I', 'T', '2'],
        "TPE1"@ == seq!['T', 'P', 'E', '1'],
        "TPE2"@ == seq!['T', 'P', 'E', '2'],
        "TALB"@ == seq!['T', 'A', 'L', 'B'],
        "TRCK"@ == seq!['T', 'R', 'C', 'K'],
        "TPOS"@ == seq!['T', 'P', 'O', 'S'],
        "TYER"@ == seq!['T', 'Y', 'E', 'R'],
        "TSRC"@ == seq!['T', 'S', 'R', 'C'],
        "TXXX"@ == seq!['T', 'X', 'X', 'X'],
{
    reveal_strlit("TIT2");
    reveal_strlit("TPE1");
    reveal_strlit("TPE2");
    reveal_strlit("TALB");
    reveal_strlit("TRCK");
    reveal_strlit("TPOS");
    reveal_strlit("TYER");
    reveal_strlit("TSRC");
    reveal_strlit("TXXX");
    assert("TIT2"@ =~= seq!['T', 'I', 'T', '2']);
    assert("TPE1"@ =~= seq!['T', 'P', 'E', '1']);
    assert("TPE2"@ =~= seq!['T', 'P', 'E', '2']);
    assert("TALB"@ =~= seq!['T', 'A', 'L', 'B']);
    assert("TRCK"@ =~= seq!['T', 'R', 'C', 'K']);
    assert("TPOS"@ =~= seq!['T', 'P', 'O', 'S']);
    assert("TYER"@ =~= seq!['T', 'Y', 'E', 'R']);
    assert("TSRC"@ =~= seq!['T', 'S', 'R', 'C']);
    assert("TXXX"@ =~= seq!['T', 'X', 'X', 'X']);
}

/// Builds the tag set of a track from its record, its identifier and the
/// cover image, if one was fetched. Nothing of an earlier tag enters it.
pub fn build_tag(metadata: &TrackMetadata, track_id: &str, cover: Option<Vec<u8>>) -> (tag:
    id3::Tag)
    ensures
        tag_texts(tag) == expected_texts(metadata@, track_id@),
        tag_pictures(tag) == expected_pictures(
            match cover {
                Some(data) => Some(data@),
                None => None,
            },
        ),
{
    proof {
        lemma_frame_ids();
    }
    let mut tag = new_tag();
    assert(tag_texts(tag) =~= Map::<Seq<char>, Seq<char>>::empty());
    set_title(&mut tag, metadata.name.as_str());
    if metadata.artists.len() > 0 {
        set_artist(&mut tag, metadata.artists[0].name.as_str());
    }
    if metadata.album.artists.len() > 0 {
        set_album_artist(&mut tag, metadata.album.artists[0].name.as_str());
    }
    set_album(&mut tag, metadata.album.name.as_str());
    set_track(&mut tag, metadata.track_number);
    set_disc(&mut tag, metadata.disc_number);
    set_year(&mut tag, release_year(metadata.album.release_date.as_str()));
    match &metadata.external_ids.isrc {
        Some(code) => {
            add_text_frame(&mut tag, "TSRC", code.as_str());
        },
        None => {},
    }
    let mut reference = String::from_str("spotify:track:");
    reference.append(track_id);
    add_text_frame(&mut tag, "TXXX", reference.as_str());
    match cover {
        Some(data) => {
            add_front_cover(&mut tag, "image/jpeg", "Cover", data);
        },
        None => {
            assert(tag_pictures(tag) =~= Seq::empty());
        },
    }
    tag
}

/// The address of the cover to fetch for a track: the first image of its
/// album, where the album has one.
pub fn cover_url(metadata: &TrackMetadata) -> (url: Option<&str>)
    ensures
        metadata@.album.images.len() > 0 ==> (url matches Some(address) && address@
            == metadata@.album.images[0]),
        metadata@.album.images.len() == 0 ==> url is None,
{
    if metadata.album.images.len() > 0 {
        Some(metadata.album.images[0].url.as_str())
    } else {
        None
    }
}

/// How the fetch of a cover ended.
#[derive(Clone, Debug, PartialEq, Eq)]
pub enum CoverFetch {
    /// No answer came, or its body could not be read.
    Failed,
    /// An answer came, with this status and this body.
    Answered { status: u16, body: Vec<u8> },
}

/// The image to embed after a fetch: the body of an answer with a success
/// status, and nothing after any other fetch.
pub open spec fn fetched_cover(fetched: CoverFetch) -> Option<Seq<u8>> {
    match fetched {
        CoverFetch::Answered { status, body } => if is_success_status(status) {
            Some(body@)
        } else {
            None
        },
        CoverFetch::Failed => None,
    }
}

/// Decides what to embed after the fetch of a cover. A fetch that did not
/// bring an image leaves the track without art, and fails nothing.
pub fn cover_art(fetched: CoverFetch) -> (cover: Option<Vec<u8>>)
    ensures
        match fetched_cover(fetched) {
            Some(data) => cover matches Some(image) && image@ == data,
            None => cover is None,
        },
{
    match fetched {
        CoverFetch::Answered { status, body } => {
            if 200 <= status && status < 300 {
                Some(body)
            } else {
                None
            }
        },
        CoverFetch::Failed => None,
    }
}

} // verus!
