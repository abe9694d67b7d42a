//! The free-text release search of the metadata service: the query that is
//! sent and what is made of the answer.

use vstd::prelude::*;
use vstd::string::*;
use crate::text::{join, joined, lines_view, no_lines, one_line};

verus! {

/// A search term as it stands in a query: in double quotes where it holds a
/// space, bare otherwise.
pub open spec fn query_term(value: Seq<char>) -> Seq<char> {
    if value.contains(' ') {
        seq!['"'] + value + seq!['"']
    } else {
        value
    }
}

/// The query for releases with a given title by a given artist.
pub open spec fn release_search_text(release: Seq<char>, artist: Seq<char>) -> Seq<char> {
    "release:"@ + query_term(release) + " AND "@ + "artist:"@ + query_term(artist)
}

/// Builds the search query with `musicbrainz_rs`'s
/// `ReleaseSearchQuery::query_builder()`: a `release` term and an `artist`
/// term joined by `and()`. The builder writes each term as the field name, a
/// colon and the value, quoting a value that holds a space, and writes
/// ` AND ` between the two.
#[verifier::external_body]
pub(crate) fn release_search_query(release: &str, artist: &str) -> (query: String)
    ensures
        query@ == release_search_text(release@, artist@),
{
    musicbrainz_rs::entity::release::ReleaseSearchQuery::query_builder()
        .release(release)
        .and()
        .artist(artist)
        .build()
}

/// A release as a search result lists it.
#[derive(Clone, Debug)]
pub struct ReleaseSummary {
    pub id: String,
    pub title: String,
    /// The credited artists' names, where the result carries credits.
    pub artist_credit: Option<Vec<String>>,
}

/// What the search came back with.
#[derive(Clone, Debug)]
pub enum SearchOutcome {
    /// The request failed; the text says why.
    Failed(String),
    /// The service answered with no release.
    NoMatch,
    /// The first release of the answer.
    Found(ReleaseSummary),
}

impl ReleaseSummary {
    /// The artist a summary credits: the credited names joined by " & ", or
    /// `default` where it carries no credits.
    pub open spec fn credited(self, default: Seq<char>) -> Seq<char> {
        match self.artist_credit {
            Some(names) => joined(lines_view(names@), " & "@),
            None => default,
        }
    }

    /// The artist the summary credits.
    pub fn credited_artist(&self, default: &str) -> (r: String)
        ensures
            r@ == self.credited(default@),
    {
        match &self.artist_credit {
            Some(names) => join(names, " & "),
            None => String::from_str(default),
        }
    }
}

/// How the library names itself to the services it talks to.
pub open spec fn client_identification() -> Seq<char> {
    "mfutil/0.1.1 (https://github.com/anoraktrend/music-folder-utils)"@
}

/// The text every request carries as its user agent.
pub fn user_agent() -> (r: &'static str)
    ensures
        r@ == client_identification(),
{
    "mfutil/0.1.1 (https://github.com/anoraktrend/music-folder-utils)"
}

/// What a lookup of a release came to.
#[derive(Clone, Debug)]
pub enum ReleaseMatch {
    Found { artist: String, title: String, id: String },
    NotFound,
    Failed { reason: String },
}

/// What a `ReleaseMatch` holds, as mathematical values.
pub enum ReleaseMatchView {
    Found { artist: Seq<char>, title: Seq<char>, id: Seq<char> },
    NotFound,
    Failed { reason: Seq<char> },
}

impl View for ReleaseMatch {
    type V = ReleaseMatchView;

    open spec fn view(&self) -> ReleaseMatchView {
        match self {
            ReleaseMatch::Found { artist, title, id } => ReleaseMatchView::Found {
                artist: artist@,
                title: title@,
                id: id@,
            },
            ReleaseMatch::NotFound => ReleaseMatchView::NotFound,
            ReleaseMatch::Failed { reason } => ReleaseMatchView::Failed { reason: reason@ },
        }
    }
}

/// What a lookup is told: that it begins, or what the search came back
/// with.
#[derive(Clone, Debug)]
pub enum ReleaseLookupEvent {
    Begin,
    Searched(SearchOutcome),
}

/// What a lookup asks for next.
#[derive(Clone, Debug)]
pub enum ReleaseLookupAction {
    /// Search releases with this query and report back with
    /// `ReleaseLookupEvent::Searched`.
    Search { query: String },
    /// The lookup is over.
    Finish(ReleaseMatch),
}

/// What a `ReleaseLookupAction` holds, as mathematical values.
pub enum ReleaseLookupActionView {
    Search { query: Seq<char> },
    Finish(ReleaseMatchView),
}

impl View for ReleaseLookupAction {
    type V = ReleaseLookupActionView;

    open spec fn view(&self) -> ReleaseLookupActionView {
        match self {
            ReleaseLookupAction::Search { query } => ReleaseLookupActionView::Search {
                query: query@,
            },
            ReleaseLookupAction::Finish(found) => ReleaseLookupActionView::Finish(found@),
        }
    }
}

/// One step of a lookup: the lines to report, in order, and what to do
/// next.
#[derive(Clone, Debug)]
pub struct ReleaseLookupStep {
    pub messages: Vec<String>,
    pub action: ReleaseLookupAction,
}

/// What a `ReleaseLookupStep` holds, as mathematical values.
pub struct ReleaseLookupStepView {
    pub messages: Seq<Seq<char>>,
    pub action: ReleaseLookupActionView,
}

impl View for ReleaseLookupStep {
    type V = ReleaseLookupStepView;

    open spec fn view(&self) -> ReleaseLookupStepView {
        ReleaseLookupStepView { messages: lines_view(self.messages@), action: self.action@ }
    }
}

/// The step that a lookup by artist and album takes on an event. The first
/// release of the answer is the match; where it carries no credits the
/// artist asked for stands.
pub open spec fn release_lookup_step(
    artist: Seq<char>,
    album: Seq<char>,
    event: ReleaseLookupEvent,
) -> ReleaseLookupStepView {
    match event {
        ReleaseLookupEvent::Begin => ReleaseLookupStepView {
            messages: seq!["Looking up MusicBrainz release: "@ + artist + " - "@ + album],
            action: ReleaseLookupActionView::Search { query: release_search_text(album, artist) },
        },
        ReleaseLookupEvent::Searched(SearchOutcome::Found(found)) => ReleaseLookupStepView {
            messages: seq![
                "Found MusicBrainz release: "@ + found.credited(artist) + " - "@ + found.title@
                    + " ("@ + found.id@ + ")"@,
            ],
            action: ReleaseLookupActionView::Finish(
                ReleaseMatchView::Found {
                    artist: found.credited(artist),
                    title: found.title@,
                    id: found.id@,
                },
            ),
        },
        ReleaseLookupEvent::Searched(SearchOutcome::NoMatch) => ReleaseLookupStepView {
            messages: seq!["No MusicBrainz release found for "@ + artist + " - "@ + album],
            action: ReleaseLookupActionView::Finish(ReleaseMatchView::NotFound),
        },
        ReleaseLookupEvent::Searched(SearchOutcome::Failed(why)) => ReleaseLookupStepView {
            messages: Seq::empty(),
            action: ReleaseLookupActionView::Finish(
                ReleaseMatchView::Failed { reason: "MusicBrainz search failed: "@ + why@ },
            ),
        },
    }
}

/// Looks a release up by artist and album, one step at a time: call it with
/// `ReleaseLookupEvent::Begin`, make the search it asks for, and call it again
/// with what came back.
pub fn lookup_musicbrainz_release(artist: &str, album: &str, event: &ReleaseLookupEvent) -> (step:
    ReleaseLookupStep)
    ensures
        step@ == release_lookup_step(artist@, album@, *event),
{
    match event {
        ReleaseLookupEvent::Begin => {
            let mut line = String::from_str("Looking up MusicBrainz release: ");
            line.append(artist);
            line.append(" - ");
            line.append(album);
            ReleaseLookupStep {
                messages: one_line(line),
                action: ReleaseLookupAction::Search { query: release_search_query(album, artist) },
            }
        },
        ReleaseLookupEvent::Searched(SearchOutcome::Found(found)) => {
            let credited = found.credited_artist(artist);
            let mut line = String::from_str("Found MusicBrainz release: ");
            line.append(credited.as_str());
            line.append(" - ");
            line.append(found.title.as_str());
            line.append(" (");
            line.append(found.id.as_str());
            line.append(")");
            ReleaseLookupStep {
                messages: one_line(line),
                action: ReleaseLookupAction::Finish(
                    ReleaseMatch::Found {
                        artist: credited,
                        title: found.title.clone(),
                        id: found.id.clone(),
                    },
                ),
            }
        },
        ReleaseLookupEvent::Searched(SearchOutcome::NoMatch) => {
            let mut line = String::from_str("No MusicBrainz release found for ");
            line.append(artist);
            line.append(" - ");
            line.append(album);
            ReleaseLookupStep {
                messages: one_line(line),
                action: ReleaseLookupAction::Finish(ReleaseMatch::NotFound),
            }
        },
        ReleaseLookupEvent::Searched(SearchOutcome::Failed(why)) => {
            let mut reason = String::from_str("MusicBrainz search failed: ");
            reason.append(why.as_str());
            ReleaseLookupStep {
                messages: no_lines(),
                action: ReleaseLookupAction::Finish(ReleaseMatch::Failed { reason }),
            }
        },
    }
}

/// Whether artist and album are worth a lookup: the artist is not "Unknown
/// Artist" and the album is not "Unknown Album".
pub open spec fn is_worth_lookup(artist: Seq<char>, album: Seq<char>) -> bool {
    artist != "Unknown Artist"@ && album != "Unknown Album"@
}

/// Whether artist and album are worth a lookup.
pub fn wants_enhancement(artist: &str, album: &str) -> (r: bool)
    ensures
        r == is_worth_lookup(artist@, album@),
{
    !artist.eq("Unknown Artist") && !album.eq("Unknown Album")
}

/// Artist and album of a file, and the release they were matched to.
#[derive(Clone, Debug)]
pub struct EnhancedMetadata {
    pub artist: String,
    pub album: String,
    pub release_id: Option<String>,
    /// The lines to report, in order.
    pub messages: Vec<String>,
}

/// What a `EnhancedMetadata` holds, as mathematical values.
pub struct EnhancedMetadataView {
    pub artist: Seq<char>,
    pub album: Seq<char>,
    pub release_id: Option<Seq<char>>,
    pub messages: Seq<Seq<char>>,
}

impl View for EnhancedMetadata {
    type V = EnhancedMetadataView;

    open spec fn view(&self) -> EnhancedMetadataView {
        EnhancedMetadataView {
            artist: self.artist@,
            album: self.album@,
            release_id: match self.release_id {
                Some(id) => Some(id@),
                None => None,
            },
            messages: lines_view(self.messages@),
        }
    }
}

/// Artist and album of a file after a lookup: those of the release where one
/// was found, with its identifier; else those the file had, without one. A
/// lookup that was not made, or that failed, is reported with no line.
pub open spec fn enhanced(
    path: Seq<char>,
    artist: Seq<char>,
    album: Seq<char>,
    found: Option<ReleaseMatch>,
) -> EnhancedMetadataView {
    match found {
        Some(ReleaseMatch::Found { artist: better_artist, title, id }) => EnhancedMetadataView {
            artist: better_artist@,
            album: title@,
            release_id: Some(id@),
            messages: seq![
                "Enhanced metadata for "@ + path + ": '"@ + artist + "' -> '"@ + better_artist@
                    + "' / '"@ + album + "' -> '"@ + title@ + "'"@,
            ],
        },
        Some(ReleaseMatch::NotFound) => EnhancedMetadataView {
            artist,
            album,
            release_id: None,
            messages: seq![
                "No MusicBrainz match found for "@ + artist + " - "@ + album
                    + " (using original metadata)"@,
            ],
        },
        _ => EnhancedMetadataView { artist, album, release_id: None, messages: Seq::empty() },
    }
}

/// Settles artist and album of a file once the lookup, if one was made, is
/// back.
pub fn extract_and_enhance_metadata(
    file_path: &str,
    artist: &str,
    album: &str,
    found: Option<&ReleaseMatch>,
) -> (r: EnhancedMetadata)
    ensures
        r@ == enhanced(
            file_path@,
            artist@,
            album@,
            match found {
                Some(m) => Some(*m),
                None => None,
            },
        ),
{
    match found {
        Some(ReleaseMatch::Found { artist: better_artist, title, id }) => {
            let mut line = String::from_str("Enhanced metadata for ");
            line.append(file_path);
            line.append(": '");
            line.append(artist);
            line.append("' -> '");
            line.append(better_artist.as_str());
            line.append("' / '");
            line.append(album);
            line.append("' -> '");
            line.append(title.as_str());
            line.append("'");
            EnhancedMetadata {
                artist: better_artist.clone(),
                album: title.clone(),
                release_id: Some(id.clone()),
                messages: one_line(line),
            }
        },
        Some(ReleaseMatch::NotFound) => {
            let mut line = String::from_str("No MusicBrainz match found for ");
            line.append(artist);
            line.append(" - ");
            line.append(album);
            line.append(" (using original metadata)");
            EnhancedMetadata {
                artist: String::from_str(artist),
                album: String::from_str(album),
                release_id: None,
                messages: one_line(line),
            }
        },
        _ => EnhancedMetadata {
            artist: String::from_str(artist),
            album: String::from_str(album),
            release_id: None,
            messages: no_lines(),
        },
    }
}

} // verus!
