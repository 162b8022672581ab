//! Where the files of a run go: a directory that is not yet taken, and the
//! place of each track below it.

use vstd::prelude::*;
use crate::catalog::TrackInfo;
use crate::catalog::TrackMetadata;
use crate::text::decimal;
use crate::text::push_decimal;
use crate::text::push_two_digit;
use crate::text::zero_padded;

verus! {

/// The name under which the siblings of a directory are numbered: the
/// directory's own name, or `playlist` where it has none that is text.
pub open spec fn label_of(name: Option<Seq<char>>) -> Seq<char> {
    match name {
        Some(name) => name,
        None => "playlist"@,
    }
}

/// The name of the sibling that is tried at the given attempt: the label,
/// a space, and the attempt's number in brackets.
pub open spec fn sibling_name(label: Seq<char>, attempt: nat) -> Seq<char> {
    label + " ("@ + decimal(attempt) + ")"@
}

/// A directory that may be created: the one asked for, or a sibling of it
/// with the given name.
#[derive(Clone, Debug, PartialEq, Eq)]
pub enum Candidate {
    Requested,
    Sibling(String),
}

/// A [`Candidate`] as plain values.
pub enum CandidateName {
    Requested,
    Sibling(Seq<char>),
}

impl View for Candidate {
    type V = CandidateName;

    open spec fn view(&self) -> CandidateName {
        match self {
            Candidate::Requested => CandidateName::Requested,
            Candidate::Sibling(name) => CandidateName::Sibling(name@),
        }
    }
}

/// The directory tried at an attempt: first the one asked for, then its
/// siblings numbered from one.
pub open spec fn candidate_at(name: Option<Seq<char>>, attempt: nat) -> CandidateName {
    if attempt == 0 {
        CandidateName::Requested
    } else {
        CandidateName::Sibling(sibling_name(label_of(name), attempt))
    }
}

/// The search for a directory that does not exist yet. It holds the number
/// of the attempt whose candidate is being looked for on disk.
#[derive(Clone, Copy, Debug, PartialEq, Eq)]
pub struct DirectoryProbe {
    attempt: u64,
}

/// What the search asks for next.
#[derive(Clone, Debug, PartialEq, Eq)]
pub enum ProbeStep {
    /// Find out whether this candidate exists, and hand the answer to
    /// [`DirectoryProbe::advance`].
    Probe(DirectoryProbe, Candidate),
    /// This candidate does not exist: create it. The search is over.
    Create(Candidate),
    /// Every candidate that can be numbered exists.
    Exhausted,
}

impl View for DirectoryProbe {
    type V = nat;

    closed spec fn view(&self) -> nat {
        self.attempt as nat
    }
}

/// The candidate of an attempt.
fn candidate(name: Option<&str>, attempt: u64) -> (candidate: Candidate)
    ensures
        candidate@ == candidate_at(
            match name {
                Some(name) => Some(name@),
                None => None,
            },
            attempt as nat,
        ),
{
    if attempt == 0 {
        Candidate::Requested
    } else {
        let mut sibling = match name {
            Some(name) => String::from_str(name),
            None => String::from_str("playlist"),
        };
        sibling.append(" (");
        push_decimal(&mut sibling, attempt);
        sibling.append(")");
        Candidate::Sibling(sibling)
    }
}

impl DirectoryProbe {
    /// Begins the search with the directory that was asked for.
    pub fn start() -> (step: ProbeStep)
        ensures
            step matches ProbeStep::Probe(probe, first) && probe@ == 0 && first@
                == CandidateName::Requested,
    {
        ProbeStep::Probe(DirectoryProbe { attempt: 0 }, Candidate::Requested)
    }

    /// Takes in whether the candidate of the current attempt exists. Where
    /// it does not, it is the directory to create. Where it does, it is left
    /// alone and the next sibling is tried. `name` is the name of the
    /// directory that was asked for, if it has one that is text.
    pub fn advance(self, name: Option<&str>, exists: bool) -> (step: ProbeStep)
        ensures
            !exists ==> (step matches ProbeStep::Create(chosen) && chosen@ == candidate_at(
                match name {
                    Some(name) => Some(name@),
                    None => None,
                },
                self@,
            )),
            exists && self@ < u64::MAX ==> (step matches ProbeStep::Probe(probe, next) && probe@
                == self@ + 1 && next@ == candidate_at(
                match name {
                    Some(name) => Some(name@),
                    None => None,
                },
                self@ + 1,
            )),
            exists && self@ == u64::MAX ==> step == ProbeStep::Exhausted,
    {
        if !exists {
            ProbeStep::Create(candidate(name, self.attempt))
        } else if self.attempt < u64::MAX {
            let attempt: u64 = self.attempt + 1;
            ProbeStep::Probe(DirectoryProbe { attempt }, candidate(name, attempt))
        } else {
            ProbeStep::Exhausted
        }
    }
}

/// The attempt whose candidate is created when the search stands at
/// `attempt` and its probes are answered by `answers`, in order: the search
/// stops at the first answer that the candidate does not exist. `None` where
/// every answer is that it exists.
pub open spec fn created_attempt(attempt: nat, answers: Seq<bool>) -> Option<nat>
    decreases answers.len(),
{
    if answers.len() == 0 {
        None
    } else if !answers.first() {
        Some(attempt)
    } else {
        created_attempt(attempt + 1, answers.drop_first())
    }
}

/// What a disk on which the candidates of the attempts in `taken` exist
/// answers to `count` probes in a row, the first of them for `attempt`.
pub open spec fn answers_from(taken: Set<nat>, attempt: nat, count: nat) -> Seq<bool> {
    Seq::new(count, |i: int| taken.contains((attempt + i) as nat))
}

/// The search creates the first candidate that is not taken, and none
/// that is: where the candidates of the attempts from `attempt` up to
/// `free` exist and that of `free` does not, the candidate of `free` is
/// created. With `attempt` and `free` both zero, the directory asked for is
/// created as it is; with `free` directories taken, from the one asked for to
/// the sibling numbered `free - 1`, the sibling numbered `free` is created.
pub proof fn lemma_first_free_is_created(taken: Set<nat>, attempt: nat, free: nat)
    requires
        attempt <= free,
        forall|i: nat| attempt <= i < free ==> taken.contains(i),
        !taken.contains(free),
    ensures
        created_attempt(attempt, answers_from(taken, attempt, (free - attempt + 1) as nat))
            == Some(free),
    decreases free - attempt,
{
    let answers = answers_from(taken, attempt, (free - attempt + 1) as nat);
    if attempt < free {
        assert(answers.first());
        assert(answers.drop_first() =~= answers_from(
            taken,
            attempt + 1,
            (free - attempt) as nat,
        ));
        lemma_first_free_is_created(taken, attempt + 1, free);
    } else {
        assert(!answers.first());
    }
}

/// The place of a track below the directory of its playlist: the directory
/// of its artist, in it the directory of its album, and in that the file.
#[derive(Clone, Debug, PartialEq, Eq)]
pub struct TrackLocation {
    pub artist: String,
    pub album: String,
    pub file_name: String,
}

/// The directory of the artist of a track: the first artist of its album,
/// or `Unknown Artist` where the album names none.
pub open spec fn artist_directory(info: TrackInfo) -> Seq<char> {
    if info.album.artists.len() > 0 {
        info.album.artists[0]
    } else {
        "Unknown Artist"@
    }
}

/// The name of the file of a track: its number on the disc with at least
/// two digits, its name, and the extension of the target format.
pub open spec fn track_file_name(info: TrackInfo) -> Seq<char> {
    zero_padded(info.track_number, 2) + " - "@ + info.name + ".mp3"@
}

/// The place of a track, from its record alone. The names are taken as
/// the catalog gives them.
pub fn track_location(metadata: &TrackMetadata) -> (location: TrackLocation)
    ensures
        location.artist@ == artist_directory(metadata@),
        location.album@ == metadata@.album.name,
        location.file_name@ == track_file_name(metadata@),
{
    let artist = if metadata.album.artists.len() > 0 {
        metadata.album.artists[0].name.clone()
    } else {
        String::from_str("Unknown Artist")
    };
    let mut file_name = String::new();
    push_two_digit(&mut file_name, metadata.track_number as u64);
    file_name.append(" - ");
    file_name.append(metadata.name.as_str());
    file_name.append(".mp3");
    assert(file_name@ =~= track_file_name(metadata@));
    TrackLocation { artist, album: metadata.album.name.clone(), file_name }
}

} // verus!
