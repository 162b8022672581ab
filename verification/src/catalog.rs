//! The catalog's records, the requests that fetch them, and the walk over
//! the pages of a playlist.

use vstd::prelude::*;
use crate::error::RipError;
use crate::text::has_prefix;
use crate::text::starts_with;

verus! {

/// An artist, as the catalog names them.
#[derive(Clone, Debug, PartialEq, Eq)]
pub struct ArtistMetadata {
    pub name: String,
}

/// A reference to a cover image.
#[derive(Clone, Debug, PartialEq, Eq)]
pub struct ImageMetadata {
    pub url: String,
}

/// Identifiers of a track outside the catalog.
#[derive(Clone, Debug, PartialEq, Eq)]
pub struct ExternalIds {
    /// The recording code, where the catalog knows one.
    pub isrc: Option<String>,
}

/// The album a track belongs to.
#[derive(Clone, Debug, PartialEq, Eq)]
pub struct AlbumMetadata {
    pub name: String,
    pub release_date: String,
    pub images: Vec<ImageMetadata>,
    pub artists: Vec<ArtistMetadata>,
}

/// The descriptive record of one track.
#[derive(Clone, Debug, PartialEq, Eq)]
pub struct TrackMetadata {
    pub name: String,
    pub is_playable: Option<bool>,
    pub disc_number: u32,
    pub track_number: u32,
    pub album: AlbumMetadata,
    pub artists: Vec<ArtistMetadata>,
    pub external_ids: ExternalIds,
}

/// The track of a playlist entry.
#[derive(Clone, Debug, PartialEq, Eq)]
pub struct PlaylistTrack {
    pub id: Option<String>,
}

/// One entry of a playlist page. Deleted or restricted content leaves an
/// entry without a track.
#[derive(Clone, Debug, PartialEq, Eq)]
pub struct PlaylistItem {
    pub track: Option<PlaylistTrack>,
}

/// One page of a playlist's entries, with the address of the next page.
#[derive(Clone, Debug, PartialEq, Eq)]
pub struct PlaylistTracksResponse {
    pub items: Vec<PlaylistItem>,
    pub next: Option<String>,
}

/// An album as plain values.
pub struct AlbumInfo {
    pub name: Seq<char>,
    pub release_date: Seq<char>,
    pub images: Seq<Seq<char>>,
    pub artists: Seq<Seq<char>>,
}

/// A track's record as plain values.
pub struct TrackInfo {
    pub name: Seq<char>,
    pub is_playable: Option<bool>,
    pub disc_number: nat,
    pub track_number: nat,
    pub album: AlbumInfo,
    pub artists: Seq<Seq<char>>,
    pub isrc: Option<Seq<char>>,
}

/// A playlist page as plain values: for each entry the identifier of its
/// track, if it has one, and the address of the next page.
pub struct PageInfo {
    pub entries: Seq<Option<Seq<char>>>,
    pub next: Option<Seq<char>>,
}

/// The names of a list of artists, in order.
pub open spec fn artist_names(artists: Seq<ArtistMetadata>) -> Seq<Seq<char>> {
    Seq::new(artists.len(), |i: int| artists[i].name@)
}

/// The addresses of a list of images, in order.
pub open spec fn image_urls(images: Seq<ImageMetadata>) -> Seq<Seq<char>> {
    Seq::new(images.len(), |i: int| images[i].url@)
}

/// The identifier that a playlist entry contributes, if any.
pub open spec fn entry_id(item: PlaylistItem) -> Option<Seq<char>> {
    match item.track {
        Some(track) => match track.id {
            Some(id) => Some(id@),
            None => None,
        },
        None => None,
    }
}

impl View for AlbumMetadata {
    type V = AlbumInfo;

    open spec fn view(&self) -> AlbumInfo {
        AlbumInfo {
            name: self.name@,
            release_date: self.release_date@,
            images: image_urls(self.images@),
            artists: artist_names(self.artists@),
        }
    }
}

impl View for TrackMetadata {
    type V = TrackInfo;

    open spec fn view(&self) -> TrackInfo {
        TrackInfo {
            name: self.name@,
            is_playable: self.is_playable,
            disc_number: self.disc_number as nat,
            track_number: self.track_number as nat,
            album: self.album@,
            artists: artist_names(self.artists@),
            isrc: match self.external_ids.isrc {
                Some(code) => Some(code@),
                None => None,
            },
        }
    }
}

impl View for PlaylistTracksResponse {
    type V = PageInfo;

    open spec fn view(&self) -> PageInfo {
        PageInfo {
            entries: Seq::new(self.items@.len(), |i: int| entry_id(self.items@[i])),
            next: match self.next {
                Some(url) => Some(url@),
                None => None,
            },
        }
    }
}

/// The address of the first page of a playlist's tracks. The request asks
/// for nothing but each entry's track identifier and the next page.
pub open spec fn first_page_address(playlist_id: Seq<char>) -> Seq<char> {
    "https://api.spotify.com/v1/playlists/"@ + playlist_id
        + "/tracks?fields=next,items(track(id))&market=US"@
}

/// The endpoint of a track's record, relative to the catalog's root.
pub open spec fn track_endpoint_of(track_id: Seq<char>) -> Seq<char> {
    "tracks/"@ + track_id + "?market=US"@
}

/// The address that a request for `endpoint` goes to: `endpoint` itself
/// where it is an address already, as the next-page pointers are, and
/// otherwise `endpoint` below the catalog's root.
pub open spec fn request_address(endpoint: Seq<char>) -> Seq<char> {
    if has_prefix(endpoint, "http"@) {
        endpoint
    } else {
        "https://api.spotify.com/v1/"@ + endpoint
    }
}

/// The address of the first page of the tracks of a playlist.
pub fn first_page_url(playlist_id: &str) -> (url: String)
    ensures
        url@ == first_page_address(playlist_id@),
{
    let mut url = String::from_str("https://api.spotify.com/v1/playlists/");
    url.append(playlist_id);
    url.append("/tracks?fields=next,items(track(id))&market=US");
    url
}

/// The endpoint of the record of a track.
pub fn track_endpoint(track_id: &str) -> (endpoint: String)
    ensures
        endpoint@ == track_endpoint_of(track_id@),
{
    let mut endpoint = String::from_str("tracks/");
    endpoint.append(track_id);
    endpoint.append("?market=US");
    endpoint
}

/// The address to request for an endpoint or a next-page pointer.
pub fn api_url(endpoint: &str) -> (url: String)
    ensures
        url@ == request_address(endpoint@),
{
    if starts_with(endpoint, "http") {
        String::from_str(endpoint)
    } else {
        let mut url = String::from_str("https://api.spotify.com/v1/");
        url.append(endpoint);
        url
    }
}

/// Whether an HTTP status code reports success: the codes from 200 to 299.
pub open spec fn is_success_status(status: u16) -> bool {
    200 <= status < 300
}

/// Judges the status of a catalog response: any status but a success fails
/// the request.
pub fn check_status(status: u16) -> (checked: Result<(), RipError>)
    ensures
        is_success_status(status) ==> checked is Ok,
        !is_success_status(status) ==> checked == Err::<(), RipError>(RipError::CatalogError),
{
    if 200 <= status && status < 300 {
        Ok(())
    } else {
        Err(RipError::CatalogError)
    }
}

/// The identifiers that the entries of a page contribute, in the order of
/// the entries. An entry without a track, or whose track has no identifier,
/// contributes nothing.
pub open spec fn present(entries: Seq<Option<Seq<char>>>) -> Seq<Seq<char>>
    decreases entries.len(),
{
    if entries.len() == 0 {
        Seq::empty()
    } else {
        match entries.last() {
            Some(id) => present(entries.drop_last()).push(id),
            None => present(entries.drop_last()),
        }
    }
}

/// The identifiers of a list of pages, page after page.
pub open spec fn flattened(pages: Seq<PageInfo>) -> Seq<Seq<char>>
    decreases pages.len(),
{
    if pages.len() == 0 {
        Seq::empty()
    } else {
        present(pages.first().entries) + flattened(pages.drop_first())
    }
}

/// The identifiers with which the walk ends when `collected` is gathered
/// and the requests are answered by `pages`, in order: the walk ends at the
/// first page that names no next page. `None` where every page names one.
pub open spec fn walk_result(collected: Seq<Seq<char>>, pages: Seq<PageInfo>) -> Option<
    Seq<Seq<char>>,
>
    decreases pages.len(),
{
    if pages.len() == 0 {
        None
    } else {
        let gathered = collected + present(pages.first().entries);
        match pages.first().next {
            None => Some(gathered),
            Some(_) => walk_result(gathered, pages.drop_first()),
        }
    }
}

/// Whether each page but the last names a next page, and the last none.
pub open spec fn is_chain(pages: Seq<PageInfo>) -> bool {
    &&& pages.len() > 0
    &&& forall|i: int| 0 <= i < pages.len() - 1 ==> (#[trigger] pages[i]).next is Some
    &&& pages.last().next is None
}

/// A walk over a chain of pages ends with what was gathered before it,
/// followed by the identifiers of every page in page order, entries without
/// a track left out.
pub proof fn lemma_walk_gathers_every_page(collected: Seq<Seq<char>>, pages: Seq<PageInfo>)
    requires
        is_chain(pages),
    ensures
        walk_result(collected, pages) == Some(collected + flattened(pages)),
    decreases pages.len(),
{
    let gathered = collected + present(pages.first().entries);
    if pages.len() == 1 {
        assert(pages.drop_first() =~= Seq::empty());
        assert(flattened(pages.drop_first()) =~= Seq::empty());
        assert(pages.first() == pages.last());
        assert(collected + flattened(pages) =~= gathered);
    } else {
        let rest = pages.drop_first();
        assert(pages[0].next is Some);
        assert(is_chain(rest)) by {
            assert(rest.last() == pages.last());
            assert forall|i: int| 0 <= i < rest.len() - 1 implies (#[trigger] rest[i]).next
                is Some by {
                assert(rest[i] == pages[i + 1]);
            }
        }
        lemma_walk_gathers_every_page(gathered, rest);
        assert(gathered + flattened(rest) =~= collected + flattened(pages));
    }
}

/// The track identifiers gathered so far while the pages of a playlist are
/// being fetched.
pub struct Enumeration {
    collected: Vec<String>,
}

/// What the walk over the pages of a playlist asks for next.
pub enum EnumerationStep {
    /// Fetch the page at this address and hand it to [`Enumeration::advance`].
    Fetch(Enumeration, String),
    /// The last page has been read: these are the tracks of the playlist.
    Done(Vec<String>),
    /// A page could not be had. Nothing of what was gathered is handed out.
    Abort(RipError),
}

impl View for Enumeration {
    type V = Seq<Seq<char>>;

    closed spec fn view(&self) -> Seq<Seq<char>> {
        self.collected.deep_view()
    }
}

impl Enumeration {
    /// Begins the walk: nothing is gathered, and the first page is asked for.
    pub fn start(playlist_id: &str) -> (step: EnumerationStep)
        ensures
            step matches EnumerationStep::Fetch(walk, url) && walk@ == Seq::<Seq<char>>::empty()
                && url@ == first_page_address(playlist_id@),
    {
        let walk = Enumeration { collected: Vec::new() };
        assert(walk@ =~= Seq::<Seq<char>>::empty());
        EnumerationStep::Fetch(walk, first_page_url(playlist_id))
    }

    /// Takes in the answer to the last request. A page adds its identifiers
    /// to those gathered; the walk then goes on to the next page, or ends
    /// with all of them where the page names no next page. A failed request
    /// ends the walk with a catalog error, whatever the failure was.
    pub fn advance(self, fetched: Result<PlaylistTracksResponse, RipError>) -> (step:
        EnumerationStep)
        ensures
            match fetched {
                Ok(page) => match page@.next {
                    Some(next) => step matches EnumerationStep::Fetch(walk, url) && walk@
                        == self@ + present(page@.entries) && url@ == next,
                    None => step matches EnumerationStep::Done(ids) && ids.deep_view() == self@
                        + present(page@.entries),
                },
                Err(_) => step == EnumerationStep::Abort(RipError::CatalogError),
            },
    {
        match fetched {
            Ok(page) => {
                let mut collected = self.collected;
                let PlaylistTracksResponse { items, next } = page;
                let ghost entries = page@.entries;
                let mut i: usize = 0;
                assert(entries.take(0) =~= Seq::empty());
                while i < items.len()
                    invariant
                        i <= items.len(),
                        entries.len() == items.len(),
                        forall|j: int| 0 <= j < items.len() ==> entries[j] == entry_id(items@[j]),
                        collected.deep_view() == self@ + present(entries.take(i as int)),
                    decreases items.len() - i,
                {
                    let ghost before = collected.deep_view();
                    proof {
                        assert(entries.take(i + 1).drop_last() =~= entries.take(i as int));
                        assert(entries.take(i + 1).last() == entries[i as int]);
                    }
                    match &items[i].track {
                        Some(track) => match &track.id {
                            Some(id) => {
                                collected.push(id.clone());
                                assert(collected.deep_view() =~= before.push(id@));
                            },
                            None => {},
                        },
                        None => {},
                    }
                    i = i + 1;
                    assert(collected.deep_view() =~= self@ + present(entries.take(i as int)));
                }
                assert(entries.take(i as int) =~= entries);
                match next {
                    Some(url) => EnumerationStep::Fetch(Enumeration { collected }, url),
                    None => EnumerationStep::Done(collected),
                }
            },
            Err(_) => EnumerationStep::Abort(RipError::CatalogError),
        }
    }
}

} // verus!
