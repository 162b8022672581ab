//! Playlist references: the canonical form and the web links that resolve
//! to it.

use vstd::prelude::*;
use crate::error::Failure;
use crate::error::RipError;
use crate::text::has_prefix;
use crate::text::same_text;
use crate::text::starts_with;

verus! {

/// What resolution reads of a web link: the domain of its host, where the
/// host is a domain, and the segments of its path, where it has a path that
/// can be split.
#[derive(Clone, Debug, PartialEq, Eq)]
pub struct WebLink {
    pub domain: Option<String>,
    pub segments: Option<Vec<String>>,
}

/// A [`WebLink`] as plain values.
pub struct LinkParts {
    pub domain: Option<Seq<char>>,
    pub segments: Option<Seq<Seq<char>>>,
}

impl View for WebLink {
    type V = LinkParts;

    open spec fn view(&self) -> LinkParts {
        LinkParts {
            domain: match self.domain {
                Some(domain) => Some(domain@),
                None => None,
            },
            segments: match self.segments {
                Some(segments) => Some(segments.deep_view()),
                None => None,
            },
        }
    }
}

/// The plain values of a link that may be absent.
pub open spec fn link_parts(link: Option<WebLink>) -> Option<LinkParts> {
    match link {
        Some(link) => Some(link@),
        None => None,
    }
}

/// The plain values of the outcome of a resolution.
pub open spec fn outcome_view(outcome: Result<String, RipError>) -> Result<Seq<char>, Failure> {
    match outcome {
        Ok(reference) => Ok(reference@),
        Err(error) => Err(error@),
    }
}

/// What the `url` crate reads of `input`: `None` where it is no URL, and
/// otherwise the domain and the path segments of the URL it parses to.
pub uninterp spec fn parsed_link(input: Seq<char>) -> Option<LinkParts>;

/// `url::Url::parse`, with `Url::domain` and `Url::path_segments` on what it
/// returns: the parts of `input` as a URL, or `None` where parsing fails.
/// Parsing reads nothing but `input`.
#[verifier::external_body]
fn parse_web_link(input: &str) -> (link: Option<WebLink>)
    ensures
        link_parts(link) == parsed_link(input@),
{
    match url::Url::parse(input) {
        Ok(parsed) => Some(
            WebLink {
                domain: parsed.domain().map(|domain| domain.to_string()),
                segments: parsed.path_segments().map(
                    |parts| parts.map(|part| part.to_string()).collect(),
                ),
            },
        ),
        Err(_) => None,
    }
}

/// Whether `input` is in canonical form already.
pub open spec fn is_canonical(input: Seq<char>) -> bool {
    has_prefix(input, "spotify:playlist:"@)
}

/// The playlist identifier that a web link names: the second segment of its
/// path, where the host is the provider's web domain and the first segment is
/// `playlist`.
pub open spec fn web_playlist_id(link: Option<LinkParts>) -> Option<Seq<char>> {
    match link {
        Some(LinkParts { domain: Some(domain), segments: Some(segments) }) => {
            if domain == "open.spotify.com"@ && segments.len() >= 2 && segments[0]
                == "playlist"@ {
                Some(segments[1])
            } else {
                None
            }
        },
        _ => None,
    }
}

/// The outcome of resolving `input`, of which the `url` crate reads `link`:
/// a canonical reference is returned unchanged; a web link of the provider
/// names its playlist; anything else is rejected, and the error names it.
pub open spec fn resolution(input: Seq<char>, link: Option<LinkParts>) -> Result<
    Seq<char>,
    Failure,
> {
    if is_canonical(input) {
        Ok(input)
    } else {
        match web_playlist_id(link) {
            Some(id) => Ok("spotify:playlist:"@ + id),
            None => Err(Failure::InvalidReference(input)),
        }
    }
}

/// Resolves `input` given what was read of it as a URL.
pub fn resolve_reference(input: &str, link: Option<WebLink>) -> (outcome: Result<
    String,
    RipError,
>)
    ensures
        outcome_view(outcome) == resolution(input@, link_parts(link)),
{
    if starts_with(input, "spotify:playlist:") {
        return Ok(String::from_str(input));
    }
    match link {
        Some(WebLink { domain: Some(domain), segments: Some(segments) }) => {
            if same_text(domain.as_str(), "open.spotify.com") && segments.len() >= 2 && same_text(
                segments[0].as_str(),
                "playlist",
            ) {
                let mut reference = String::from_str("spotify:playlist:");
                reference.append(segments[1].as_str());
                return Ok(reference);
            }
        },
        _ => {},
    }
    Err(RipError::InvalidReference(String::from_str(input)))
}

/// Normalises a playlist reference, given as a canonical reference or as a
/// web link, into canonical form.
pub fn normalise_playlist_uri(input: &str) -> (outcome: Result<String, RipError>)
    ensures
        outcome_view(outcome) == resolution(input@, parsed_link(input@)),
        is_canonical(input@) ==> (outcome matches Ok(reference) && reference@ == input@),
{
    if starts_with(input, "spotify:playlist:") {
        Ok(String::from_str(input))
    } else {
        resolve_reference(input, parse_web_link(input))
    }
}

/// What follows the last colon of `text`; the whole of `text` where it
/// holds no colon.
pub open spec fn after_last_colon(text: Seq<char>) -> Seq<char>
    decreases text.len(),
{
    if text.len() == 0 || text.last() == ':' {
        Seq::empty()
    } else {
        after_last_colon(text.drop_last()).push(text.last())
    }
}

/// The identifier of a playlist: what follows the last colon of its
/// reference.
pub fn playlist_id(reference: &str) -> (id: String)
    ensures
        id@ == after_last_colon(reference@),
{
    let len: usize = reference.unicode_len();
    let mut start: usize = len;
    while start > 0 && reference.get_char(start - 1) != ':'
        invariant
            start <= len,
            len == reference@.len(),
            forall|j: int| start <= j < len ==> reference@[j] != ':',
        decreases start,
    {
        start = start - 1;
    }
    proof {
        lemma_after_last_colon(reference@, start as int);
    }
    String::from_str(reference.substring_char(start, len))
}

/// Where nothing from `start` on is a colon, and `start` is the beginning
/// of the text or follows a colon, the text from `start` on is what follows
/// the last colon.
proof fn lemma_after_last_colon(text: Seq<char>, start: int)
    requires
        0 <= start <= text.len(),
        forall|j: int| start <= j < text.len() ==> text[j] != ':',
        start == 0 || text[start - 1] == ':',
    ensures
        after_last_colon(text) == text.subrange(start, text.len() as int),
    decreases text.len() - start,
{
    if start == text.len() {
        assert(text.subrange(start, text.len() as int) =~= Seq::empty());
    } else {
        let shorter = text.drop_last();
        lemma_after_last_colon(shorter, start);
        assert(shorter.subrange(start, shorter.len() as int).push(text.last()) =~= text.subrange(
            start,
            text.len() as int,
        ));
    }
}

/// The canonical prefix, character by character.
proof fn lemma_canonical_prefix()
    ensures
        "spotify:playlist:"@ == seq![
            's', 'p', 'o', 't', 'i', 'f', 'y', ':', 'p', 'l', 'a', 'y', 'l', 'i', 's', 't', ':',
        ],
{
    reveal_strlit("spotify:playlist:");
    assert("spotify:playlist:"@ =~= seq![
        's', 'p', 'o', 't', 'i', 'f', 'y', ':', 'p', 'l', 'a', 'y', 'l', 'i', 's', 't', ':',
    ]);
}

/// Resolution is idempotent: a canonical reference resolves to itself,
/// whatever it reads as when taken for a URL, and so does every reference
/// that a resolution has returned.
pub proof fn lemma_resolution_idempotent(
    input: Seq<char>,
    link: Option<LinkParts>,
    again: Option<LinkParts>,
)
    ensures
        is_canonical(input) ==> resolution(input, link) == Ok::<Seq<char>, Failure>(input),
        resolution(input, link) matches Ok(reference) ==> (is_canonical(reference) && resolution(
            reference,
            again,
        ) == Ok::<Seq<char>, Failure>(reference)),
{
    if let Ok(reference) = resolution(input, link) {
        if !is_canonical(input) {
            let id = web_playlist_id(link)->0;
            assert(("spotify:playlist:"@ + id).subrange(0, "spotify:playlist:"@.len() as int)
                =~= "spotify:playlist:"@);
        }
    }
}

/// A web link resolves to the canonical reference of the playlist it
/// names: an input that begins with `https://`, whose host is the provider's
/// web domain and whose path begins with the segments `playlist` and `id`,
/// whatever follows them, resolves to exactly `spotify:playlist:` and `id`.
pub proof fn lemma_web_link_resolves(input: Seq<char>, parts: LinkParts, id: Seq<char>)
    requires
        has_prefix(input, "https://"@),
        parts.domain == Some("open.spotify.com"@),
        parts.segments matches Some(segments) && segments.len() >= 2 && segments[0]
            == "playlist"@ && segments[1] == id,
    ensures
        resolution(input, Some(parts)) == Ok::<Seq<char>, Failure>("spotify:playlist:"@ + id),
{
    lemma_canonical_prefix();
    reveal_strlit("https://");
    assert(input.subrange(0, 8)[0] == 'h');
    if is_canonical(input) {
        assert(input.subrange(0, 17)[0] == 's');
    }
}

/// An input that is not canonical and names no playlist as a web link is
/// rejected, and the error carries the input.
pub proof fn lemma_other_input_rejected(input: Seq<char>, link: Option<LinkParts>)
    requires
        !is_canonical(input),
        web_playlist_id(link) is None,
    ensures
        resolution(input, link) == Err::<Seq<char>, Failure>(Failure::InvalidReference(input)),
{
}

/// The identifier of a playlist is read back from its canonical reference:
/// what follows the last colon of `spotify:playlist:` and `id` is `id`, where
/// `id` holds no colon.
pub proof fn lemma_playlist_id_of_reference(id: Seq<char>)
    requires
        forall|j: int| 0 <= j < id.len() ==> id[j] != ':',
    ensures
        after_last_colon("spotify:playlist:"@ + id) == id,
{
    lemma_canonical_prefix();
    let reference = "spotify:playlist:"@ + id;
    assert(reference[16] == ':');
    lemma_after_last_colon(reference, 17);
    assert(reference.subrange(17, reference.len() as int) =~= id);
}

} // verus!
